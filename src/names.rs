//! Simple names: the part of a qualified name after its last `.`.

use vstd::prelude::*;

verus! {

/// Position of the last `.` in `q`, or -1 when `q` has none.
pub open spec fn last_separator(q: Seq<char>) -> int
    decreases q.len(),
{
    if q.len() == 0 {
        -1
    } else if q.last() == '.' {
        q.len() - 1
    } else {
        last_separator(q.drop_last())
    }
}

/// The part of `q` after its last `.`; all of `q` when it has none.
pub open spec fn simple_name(q: Seq<char>) -> Seq<char> {
    q.subrange(last_separator(q) + 1, q.len() as int)
}

/// `k` is the last `.` of `q`, or -1 when no character of `q` is a `.`.
pub proof fn lemma_last_separator(q: Seq<char>, k: int)
    requires
        -1 <= k < q.len(),
        k >= 0 ==> q[k] == '.',
        forall|j: int| k < j < q.len() ==> q[j] != '.',
    ensures
        last_separator(q) == k,
    decreases q.len(),
{
    if q.len() > 0 && q.last() != '.' {
        let p = q.drop_last();
        assert forall|j: int| k < j < p.len() implies p[j] != '.' by {
            assert(p[j] == q[j]);
        }
        if k >= 0 {
            assert(p[k] == q[k]);
        }
        lemma_last_separator(p, k);
    }
}

/// A simple name holds no `.`, and a name without `.` is its own simple name.
pub proof fn lemma_simple_name_shape(q: Seq<char>)
    ensures
        -1 <= last_separator(q) < q.len(),
        forall|j: int| 0 <= j < simple_name(q).len() ==> simple_name(q)[j] != '.',
        (forall|j: int| 0 <= j < q.len() ==> q[j] != '.') ==> simple_name(q) == q,
    decreases q.len(),
{
    if q.len() > 0 && q.last() != '.' {
        let p = q.drop_last();
        lemma_simple_name_shape(p);
        assert(last_separator(q) == last_separator(p));
        assert forall|j: int| 0 <= j < simple_name(q).len() implies simple_name(q)[j] != '.' by {
            let k = last_separator(p) + 1 + j;
            assert(simple_name(q)[j] == q[k]);
            if j < simple_name(p).len() {
                assert(simple_name(p)[j] == p[k]);
                assert(p[k] == q[k]);
            }
        }
        if forall|j: int| 0 <= j < q.len() ==> q[j] != '.' {
            assert forall|j: int| 0 <= j < p.len() implies p[j] != '.' by {
                assert(p[j] == q[j]);
            }
            assert(simple_name(q) =~= q);
        }
    } else if q.len() == 0 {
        assert(simple_name(q) =~= q);
    }
}

/// The simple name of `qualified_name`: the text after its last `.`, or the
/// whole name when it has none.
pub fn get_simple_name(qualified_name: &str) -> (r: String)
    ensures
        r@ == simple_name(qualified_name@),
{
    let n = qualified_name.unicode_len();
    let mut i: usize = n;
    while i > 0 && qualified_name.get_char(i - 1) != '.'
        invariant
            i <= n,
            n == qualified_name@.len(),
            forall|j: int| i <= j < n ==> qualified_name@[j] != '.',
        decreases i,
    {
        i -= 1;
    }
    proof {
        lemma_last_separator(qualified_name@, i - 1);
    }
    qualified_name.substring_char(i, n).to_owned()
}

} // verus!
