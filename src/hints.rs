//! Position hints: an ordered list of key/value entries attached to the
//! process, to each action and to each state.

use vstd::prelude::*;

verus! {

/// Key of the hint that holds a node's visual style.
pub const UI_HINT_ENTRY_KEY_STYLE: &'static str = "com.enactor.tools.editor.process.style";

/// Key of the hint that holds a node's x-location.
pub const UI_HINT_ENTRY_KEY_XLOC: &'static str = "com.enactor.tools.editor.process.xloc";

/// Key of the hint that holds a node's y-location.
pub const UI_HINT_ENTRY_KEY_YLOC: &'static str = "com.enactor.tools.editor.process.yloc";

/// One key/value hint.
#[derive(Debug)]
pub struct Entry {
    pub key: String,
    pub value: String,
}

/// An ordered list of hints. Keys may repeat; lookups take the first match.
#[derive(Debug)]
pub struct UiHints {
    pub entries: Vec<Entry>,
}

/// `i` is the position of the first entry whose key is `key`.
pub open spec fn is_first_key(entries: Seq<Entry>, key: Seq<char>, i: int) -> bool {
    &&& 0 <= i < entries.len()
    &&& entries[i].key@ == key
    &&& forall|j: int| 0 <= j < i ==> entries[j].key@ != key
}

/// Some entry has the key `key`.
pub open spec fn has_key(entries: Seq<Entry>, key: Seq<char>) -> bool {
    exists|i: int| 0 <= i < entries.len() && entries[i].key@ == key
}

/// Position of the first entry with key `key`, or `None` if there is none.
pub open spec fn first_key_index(entries: Seq<Entry>, key: Seq<char>) -> Option<int> {
    if exists|i: int| is_first_key(entries, key, i) {
        Some(choose|i: int| is_first_key(entries, key, i))
    } else {
        None
    }
}

/// The value of the first entry with key `key`.
pub open spec fn hint_value(entries: Seq<Entry>, key: Seq<char>) -> Option<Seq<char>> {
    match first_key_index(entries, key) {
        Some(i) => Some(entries[i].value@),
        None => None,
    }
}

/// `new` is `old` after setting `key` to `value`: the first entry with that
/// key gets the new value in place, or, where there is none, a new entry is
/// appended. Every other entry stays as it was.
pub open spec fn entry_set(old: Seq<Entry>, new: Seq<Entry>, key: Seq<char>, value: Seq<char>) -> bool {
    match first_key_index(old, key) {
        Some(i) => {
            &&& new.len() == old.len()
            &&& new[i].key@ == key
            &&& new[i].value@ == value
            &&& forall|j: int| 0 <= j < old.len() && j != i ==> new[j] == old[j]
        },
        None => {
            &&& new.len() == old.len() + 1
            &&& new[old.len() as int].key@ == key
            &&& new[old.len() as int].value@ == value
            &&& forall|j: int| 0 <= j < old.len() ==> new[j] == old[j]
        },
    }
}

/// There is at most one first match.
pub proof fn lemma_first_key_unique(entries: Seq<Entry>, key: Seq<char>, i: int, j: int)
    requires
        is_first_key(entries, key, i),
        is_first_key(entries, key, j),
    ensures
        i == j,
{
}

/// A first match exists exactly when some entry has the key.
pub proof fn lemma_first_key_exists(entries: Seq<Entry>, key: Seq<char>)
    ensures
        has_key(entries, key) <==> first_key_index(entries, key) is Some,
        first_key_index(entries, key) matches Some(i) ==> is_first_key(entries, key, i),
    decreases entries.len(),
{
    if has_key(entries, key) {
        let k = choose|k: int| 0 <= k < entries.len() && entries[k].key@ == key;
        if exists|j: int| 0 <= j < k && entries[j].key@ == key {
            let prefix = entries.subrange(0, k);
            assert(has_key(prefix, key)) by {
                let j = choose|j: int| 0 <= j < k && entries[j].key@ == key;
                assert(prefix[j].key@ == key);
            }
            lemma_first_key_exists(prefix, key);
            let i = first_key_index(prefix, key)->0;
            assert(is_first_key(entries, key, i)) by {
                assert forall|j: int| 0 <= j < i implies entries[j].key@ != key by {
                    assert(prefix[j] == entries[j]);
                }
                assert(prefix[i] == entries[i]);
            }
        } else {
            assert(is_first_key(entries, key, k));
        }
    }
}

/// After setting `key` to `value`, looking `key` up gives `value`, and every
/// other key looks up as before.
pub proof fn lemma_set_then_get(old: Seq<Entry>, new: Seq<Entry>, key: Seq<char>, value: Seq<char>)
    requires
        entry_set(old, new, key, value),
    ensures
        hint_value(new, key) == Some(value),
        forall|other: Seq<char>| other != key ==> hint_value(new, other) == hint_value(old, other),
{
    lemma_first_key_exists(old, key);
    let pos = match first_key_index(old, key) {
        Some(i) => i,
        None => old.len() as int,
    };
    assert(is_first_key(new, key, pos)) by {
        assert forall|j: int| 0 <= j < pos implies new[j].key@ != key by {
            assert(new[j] == old[j]);
        }
    }
    lemma_first_key_exists(new, key);
    lemma_first_key_unique(new, key, pos, first_key_index(new, key)->0);
    assert forall|other: Seq<char>| other != key implies hint_value(new, other) == hint_value(old, other) by {
        lemma_first_key_exists(old, other);
        lemma_first_key_exists(new, other);
        match first_key_index(old, other) {
            Some(f) => {
                assert(f != pos);
                assert(new[f] == old[f]);
                assert(is_first_key(new, other, f)) by {
                    assert forall|j: int| 0 <= j < f implies new[j].key@ != other by {
                        if j != pos {
                            assert(new[j] == old[j]);
                        }
                    }
                }
                lemma_first_key_unique(new, other, f, first_key_index(new, other)->0);
            },
            None => {
                if has_key(new, other) {
                    let j = choose|j: int| 0 <= j < new.len() && new[j].key@ == other;
                    assert(j != pos);
                    assert(new[j] == old[j]);
                    assert(has_key(old, other));
                }
            },
        }
    }
}

/// The x- and y-location keys are different keys.
pub proof fn lemma_location_keys_differ()
    ensures
        UI_HINT_ENTRY_KEY_XLOC@ != UI_HINT_ENTRY_KEY_YLOC@,
{
    reveal_strlit("com.enactor.tools.editor.process.xloc");
    reveal_strlit("com.enactor.tools.editor.process.yloc");
    assert(UI_HINT_ENTRY_KEY_XLOC == "com.enactor.tools.editor.process.xloc");
    assert(UI_HINT_ENTRY_KEY_YLOC == "com.enactor.tools.editor.process.yloc");
    assert(UI_HINT_ENTRY_KEY_XLOC@[33] != UI_HINT_ENTRY_KEY_YLOC@[33]);
}

impl UiHints {
    /// The first entry whose key is `key`.
    pub fn get_entry(&self, key: &str) -> (r: Option<&Entry>)
        ensures
            match r {
                Some(e) => exists|i: int| is_first_key(self.entries@, key@, i) && *e == self.entries@[i],
                None => !has_key(self.entries@, key@),
            },
            r matches Some(e) ==> e.value@ == hint_value(self.entries@, key@)->0,
            r is None <==> hint_value(self.entries@, key@) is None,
    {
        let k = key.to_owned();
        let mut i: usize = 0;
        while i < self.entries.len()
            invariant
                k@ == key@,
                i <= self.entries@.len(),
                forall|j: int| 0 <= j < i ==> self.entries@[j].key@ != key@,
            decreases self.entries@.len() - i,
        {
            if self.entries[i].key == k {
                proof {
                    assert(is_first_key(self.entries@, key@, i as int));
                    lemma_first_key_exists(self.entries@, key@);
                    lemma_first_key_unique(self.entries@, key@, i as int, first_key_index(self.entries@, key@)->0);
                }
                return Some(&self.entries[i]);
            }
            i += 1;
        }
        proof {
            lemma_first_key_exists(self.entries@, key@);
        }
        None
    }
    /// Sets the first entry with key `key` to `value`, or appends a new entry
    /// when no entry has that key.
    pub fn set_entry(&mut self, key: &str, value: &str)
        ensures
            entry_set(old(self).entries@, final(self).entries@, key@, value@),
    {
        let k = key.to_owned();
        let mut i: usize = 0;
        while i < self.entries.len()
            invariant
                k@ == key@,
                i <= self.entries@.len(),
                self.entries@ == old(self).entries@,
                forall|j: int| 0 <= j < i ==> self.entries@[j].key@ != key@,
            decreases self.entries@.len() - i,
        {
            if self.entries[i].key == k {
                proof {
                    assert(is_first_key(self.entries@, key@, i as int));
                    lemma_first_key_exists(self.entries@, key@);
                    lemma_first_key_unique(self.entries@, key@, i as int, first_key_index(self.entries@, key@)->0);
                }
                self.entries[i].value = value.to_owned();
                return;
            }
            i += 1;
        }
        proof {
            lemma_first_key_exists(self.entries@, key@);
        }
        self.entries.push(Entry { key: k, value: value.to_owned() });
    }

    /// The value of the style hint.
    pub fn get_style(&self) -> (r: Option<&String>)
        ensures
            r matches Some(v) ==> hint_value(self.entries@, UI_HINT_ENTRY_KEY_STYLE@) == Some(v@),
            r is None <==> hint_value(self.entries@, UI_HINT_ENTRY_KEY_STYLE@) is None,
    {
        match self.get_entry(UI_HINT_ENTRY_KEY_STYLE) {
            Some(e) => Some(&e.value),
            None => None,
        }
    }

    /// The value of the x-location hint.
    pub fn get_xloc(&self) -> (r: Option<&String>)
        ensures
            r matches Some(v) ==> hint_value(self.entries@, UI_HINT_ENTRY_KEY_XLOC@) == Some(v@),
            r is None <==> hint_value(self.entries@, UI_HINT_ENTRY_KEY_XLOC@) is None,
    {
        match self.get_entry(UI_HINT_ENTRY_KEY_XLOC) {
            Some(e) => Some(&e.value),
            None => None,
        }
    }

    /// The value of the y-location hint.
    pub fn get_yloc(&self) -> (r: Option<&String>)
        ensures
            r matches Some(v) ==> hint_value(self.entries@, UI_HINT_ENTRY_KEY_YLOC@) == Some(v@),
            r is None <==> hint_value(self.entries@, UI_HINT_ENTRY_KEY_YLOC@) is None,
    {
        match self.get_entry(UI_HINT_ENTRY_KEY_YLOC) {
            Some(e) => Some(&e.value),
            None => None,
        }
    }

    /// Sets the style hint.
    pub fn set_style(&mut self, style: &str)
        ensures
            entry_set(old(self).entries@, final(self).entries@, UI_HINT_ENTRY_KEY_STYLE@, style@),
    {
        self.set_entry(UI_HINT_ENTRY_KEY_STYLE, style);
    }

    /// Sets the x-location hint.
    pub fn set_xloc(&mut self, xloc: &str)
        ensures
            entry_set(old(self).entries@, final(self).entries@, UI_HINT_ENTRY_KEY_XLOC@, xloc@),
    {
        self.set_entry(UI_HINT_ENTRY_KEY_XLOC, xloc);
    }

    /// Sets the y-location hint.
    pub fn set_yloc(&mut self, yloc: &str)
        ensures
            entry_set(old(self).entries@, final(self).entries@, UI_HINT_ENTRY_KEY_YLOC@, yloc@),
    {
        self.set_entry(UI_HINT_ENTRY_KEY_YLOC, yloc);
    }
}

} // verus!
