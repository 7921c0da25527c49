//! What resolution guarantees: node order, link order, which links are
//! dropped and which are kept exactly once, and that it is deterministic.

use vstd::prelude::*;

use crate::document::{all_actions, NodeClass, Process};
use crate::lookup::{first_index, lemma_first_index_some};
use crate::resolver::{
    graph_keys, is_resolution, link_count, link_target, link_views, links_from, links_upto,
    node_count, node_id, node_index, node_keys, resolve_link, resolved_links, GraphLink,
    GraphNode, LinkView,
};

verus! {

/// `a` comes before `b` in node order, then link order.
pub open spec fn key_before(a: LinkView, b: LinkView) -> bool {
    a.source_index < b.source_index || (a.source_index == b.source_index && a.source_ordinal
        < b.source_ordinal)
}

/// `v` is the resolved form of the link it names.
pub open spec fn resolves_itself(p: Process, v: LinkView) -> bool {
    &&& 0 <= v.source_index < node_count(p)
    &&& 0 <= v.source_ordinal < link_count(p, v.source_index)
    &&& resolve_link(p, v.source_index, v.source_ordinal) == Some(v)
}

proof fn lemma_links_from(p: Process, i: int, m: int)
    requires
        0 <= i < node_count(p),
        0 <= m <= link_count(p, i),
    ensures
        forall|x: int|
            0 <= x < links_from(p, i, m).len() ==> #[trigger] links_from(p, i, m)[x].source_index == i
                && links_from(p, i, m)[x].source_ordinal < m && resolves_itself(p, links_from(p, i, m)[x]),
        forall|x: int, y: int|
            0 <= x < y < links_from(p, i, m).len() ==> links_from(p, i, m)[x].source_ordinal
                < links_from(p, i, m)[y].source_ordinal,
        forall|j: int|
            0 <= j < m && resolve_link(p, i, j) is Some ==> exists|x: int|
                0 <= x < links_from(p, i, m).len() && #[trigger] links_from(p, i, m)[x] == resolve_link(
                    p,
                    i,
                    j,
                )->0,
    decreases m,
{
    if m > 0 {
        lemma_links_from(p, i, m - 1);
        let prev = links_from(p, i, m - 1);
        let cur = links_from(p, i, m);
        match resolve_link(p, i, m - 1) {
            Some(l) => {
                assert(cur == prev.push(l));
                assert forall|x: int| 0 <= x < cur.len() implies #[trigger] cur[x].source_index == i
                    && cur[x].source_ordinal < m && resolves_itself(p, cur[x]) by {
                    if x < prev.len() {
                        assert(cur[x] == prev[x]);
                    }
                }
                assert forall|x: int, y: int| 0 <= x < y < cur.len() implies cur[x].source_ordinal
                    < cur[y].source_ordinal by {
                    assert(cur[x] == prev[x]);
                    assert(prev[x].source_index == i);
                    if y < prev.len() {
                        assert(cur[y] == prev[y]);
                    } else {
                        assert(cur[y] == l);
                    }
                }
                assert forall|j: int| 0 <= j < m && resolve_link(p, i, j) is Some implies exists|x: int|
                    0 <= x < cur.len() && #[trigger] cur[x] == resolve_link(p, i, j)->0 by {
                    if j < m - 1 {
                        let x = choose|x: int|
                            0 <= x < prev.len() && #[trigger] prev[x] == resolve_link(p, i, j)->0;
                        assert(cur[x] == prev[x]);
                    } else {
                        assert(cur[prev.len() as int] == l);
                    }
                }
            },
            None => {
                assert(cur == prev);
            },
        }
    }
}

proof fn lemma_links_upto(p: Process, n: int)
    requires
        0 <= n <= node_count(p),
    ensures
        forall|x: int|
            0 <= x < links_upto(p, n).len() ==> #[trigger] links_upto(p, n)[x].source_index < n
                && resolves_itself(p, links_upto(p, n)[x]),
        forall|x: int, y: int|
            0 <= x < y < links_upto(p, n).len() ==> key_before(
                links_upto(p, n)[x],
                links_upto(p, n)[y],
            ),
        forall|i: int, j: int|
            0 <= i < n && 0 <= j < link_count(p, i) && resolve_link(p, i, j) is Some ==> exists|x: int|
                0 <= x < links_upto(p, n).len() && #[trigger] links_upto(p, n)[x] == resolve_link(
                    p,
                    i,
                    j,
                )->0,
    decreases n,
{
    if n > 0 {
        lemma_links_upto(p, n - 1);
        lemma_links_from(p, n - 1, link_count(p, n - 1));
        let prev = links_upto(p, n - 1);
        let tail = links_from(p, n - 1, link_count(p, n - 1));
        let cur = links_upto(p, n);
        assert(cur == prev + tail);
        assert forall|x: int| 0 <= x < cur.len() implies #[trigger] cur[x].source_index < n
            && resolves_itself(p, cur[x]) by {
            if x < prev.len() {
                assert(cur[x] == prev[x]);
            } else {
                assert(cur[x] == tail[x - prev.len()]);
            }
        }
        assert forall|x: int, y: int| 0 <= x < y < cur.len() implies key_before(cur[x], cur[y]) by {
            if y < prev.len() {
                assert(cur[x] == prev[x]);
                assert(cur[y] == prev[y]);
            } else if x < prev.len() {
                assert(cur[x] == prev[x]);
                assert(cur[y] == tail[y - prev.len()]);
            } else {
                assert(cur[x] == tail[x - prev.len()]);
                assert(cur[y] == tail[y - prev.len()]);
            }
        }
        assert forall|i: int, j: int|
            0 <= i < n && 0 <= j < link_count(p, i) && resolve_link(p, i, j) is Some implies exists|x: int|
            0 <= x < cur.len() && #[trigger] cur[x] == resolve_link(p, i, j)->0 by {
            if i < n - 1 {
                let x = choose|x: int| 0 <= x < prev.len() && #[trigger] prev[x] == resolve_link(p, i, j)->0;
                assert(cur[x] == prev[x]);
            } else {
                let x = choose|x: int| 0 <= x < tail.len() && #[trigger] tail[x] == resolve_link(p, i, j)->0;
                assert(cur[prev.len() + x] == tail[x]);
            }
        }
    }
}

/// Links come out in node order, and within one source in the order of its
/// own outbound links; each is the resolved form of the link it names.
pub proof fn lemma_links_ordered(p: Process, nodes: Seq<GraphNode>, links: Seq<GraphLink>)
    requires
        is_resolution(p, nodes, links),
    ensures
        forall|x: int, y: int| 0 <= x < y < links.len() ==> key_before(links[x]@, links[y]@),
        forall|x: int| 0 <= x < links.len() ==> resolves_itself(p, #[trigger] links[x]@),
{
    lemma_links_upto(p, node_count(p));
    assert forall|x: int| 0 <= x < links.len() implies resolves_itself(p, #[trigger] links[x]@) by {
        assert(link_views(links)[x] == links[x]@);
    }
    assert forall|x: int, y: int| 0 <= x < y < links.len() implies key_before(links[x]@, links[y]@) by {
        assert(link_views(links)[x] == links[x]@);
        assert(link_views(links)[y] == links[y]@);
    }
}

/// No resolved link stands for the `j`-th outbound link of node `i`.
pub open spec fn no_entry_for(links: Seq<GraphLink>, i: int, j: int) -> bool {
    forall|m: int|
        0 <= m < links.len() ==> !(#[trigger] links[m].source_index == i && links[m].source_ordinal == j)
}

/// A link whose two target fields are both empty or absent gives no resolved
/// link.
pub proof fn lemma_unconnected_link_dropped(
    p: Process,
    nodes: Seq<GraphNode>,
    links: Seq<GraphLink>,
    i: int,
    j: int,
)
    requires
        is_resolution(p, nodes, links),
        0 <= i < node_count(p),
        0 <= j < link_count(p, i),
        i < all_actions(p).len() ==> {
            let l = all_actions(p)[i].outcome_links@[j];
            &&& (l.to_action_id is None || l.to_action_id->0@.len() == 0)
            &&& (l.to_state_id is None || l.to_state_id->0@.len() == 0)
        },
        i >= all_actions(p).len() ==> {
            let l = p.states@[i - all_actions(p).len()].event_links@[j];
            &&& (l.to_action_id is None || l.to_action_id->0@.len() == 0)
            &&& (l.to_state_id is None || l.to_state_id->0@.len() == 0)
        },
    ensures
        no_entry_for(links, i, j),
{
    lemma_links_ordered(p, nodes, links);
    assert(link_target(p, i, j) is None);
    assert forall|m: int| 0 <= m < links.len() implies !(#[trigger] links[m].source_index == i
        && links[m].source_ordinal == j) by {
        assert(resolves_itself(p, links[m]@));
    }
}

/// A link whose target id is no node's id gives no resolved link.
pub proof fn lemma_dangling_link_dropped(
    p: Process,
    nodes: Seq<GraphNode>,
    links: Seq<GraphLink>,
    i: int,
    j: int,
)
    requires
        is_resolution(p, nodes, links),
        0 <= i < node_count(p),
        0 <= j < link_count(p, i),
        link_target(p, i, j) is Some,
        forall|k: int| 0 <= k < node_count(p) ==> node_id(p, k) != (link_target(p, i, j)->0).1,
    ensures
        no_entry_for(links, i, j),
{
    lemma_links_ordered(p, nodes, links);
    let t = link_target(p, i, j)->0;
    if node_index(p, t.0, t.1) is Some {
        lemma_first_index_some(node_keys(p), t);
        let k = node_index(p, t.0, t.1)->0;
        assert(node_keys(p)[k] == (t.0, t.1));
    }
    assert forall|m: int| 0 <= m < links.len() implies !(#[trigger] links[m].source_index == i
        && links[m].source_ordinal == j) by {
        assert(resolves_itself(p, links[m]@));
    }
}

/// A link whose target is a node of the named kind gives exactly one
/// resolved link, which carries the link's own position among its source's
/// outbound links.
pub proof fn lemma_valid_link_kept_once(
    p: Process,
    nodes: Seq<GraphNode>,
    links: Seq<GraphLink>,
    i: int,
    j: int,
)
    requires
        is_resolution(p, nodes, links),
        0 <= i < node_count(p),
        0 <= j < link_count(p, i),
        link_target(p, i, j) is Some,
        node_index(p, (link_target(p, i, j)->0).0, (link_target(p, i, j)->0).1) is Some,
    ensures
        exists|m: int|
            {
                &&& 0 <= m < links.len()
                &&& links[m]@ == resolve_link(p, i, j)->0
                &&& links[m].source_index == i
                &&& links[m].source_ordinal == j
                &&& forall|m2: int|
                    0 <= m2 < links.len() && #[trigger] links[m2].source_index == i
                        && links[m2].source_ordinal == j ==> m2 == m
            },
{
    lemma_links_ordered(p, nodes, links);
    lemma_links_upto(p, node_count(p));
    let rl = resolved_links(p);
    let m = choose|x: int| 0 <= x < rl.len() && #[trigger] rl[x] == resolve_link(p, i, j)->0;
    assert(link_views(links)[m] == links[m]@);
    assert forall|m2: int|
        0 <= m2 < links.len() && #[trigger] links[m2].source_index == i && links[m2].source_ordinal
            == j implies m2 == m by {
        if m2 < m {
            assert(key_before(links[m2]@, links[m]@));
        } else if m < m2 {
            assert(key_before(links[m]@, links[m2]@));
        }
    }
}

/// Nodes are numbered by their position in the fixed order: plain actions,
/// end-process actions, execute-process actions, assign actions, states.
pub proof fn lemma_node_order(p: Process, nodes: Seq<GraphNode>, links: Seq<GraphLink>)
    requires
        is_resolution(p, nodes, links),
    ensures
        ({
            let a0 = p.actions@.len() as int;
            let a1 = a0 + p.end_process_actions@.len();
            let a2 = a1 + p.execute_process_actions@.len();
            let a3 = a2 + p.assign_actions@.len();
            &&& nodes.len() == a3 + p.states@.len()
            &&& forall|k: int|
                0 <= k < a0 ==> (#[trigger] nodes[k]).id@ == p.actions@[k].action_id@
                    && nodes[k].class == NodeClass::Action
            &&& forall|k: int|
                a0 <= k < a1 ==> (#[trigger] nodes[k]).id@ == p.end_process_actions@[k
                    - a0].action_id@ && nodes[k].class == NodeClass::Action
            &&& forall|k: int|
                a1 <= k < a2 ==> (#[trigger] nodes[k]).id@ == p.execute_process_actions@[k
                    - a1].action_id@ && nodes[k].class == NodeClass::Action
            &&& forall|k: int|
                a2 <= k < a3 ==> (#[trigger] nodes[k]).id@ == p.assign_actions@[k - a2].action_id@
                    && nodes[k].class == NodeClass::Action
            &&& forall|k: int|
                a3 <= k < nodes.len() ==> (#[trigger] nodes[k]).id@ == p.states@[k - a3].state_id@
                    && nodes[k].class == NodeClass::State
        }),
{
}

/// Resolving the same document twice gives the same node kinds and ids, and
/// the same links with the same indices and ordinals.
pub proof fn lemma_resolution_deterministic(
    p: Process,
    nodes1: Seq<GraphNode>,
    links1: Seq<GraphLink>,
    nodes2: Seq<GraphNode>,
    links2: Seq<GraphLink>,
)
    requires
        is_resolution(p, nodes1, links1),
        is_resolution(p, nodes2, links2),
    ensures
        graph_keys(nodes1) == graph_keys(nodes2),
        link_views(links1) == link_views(links2),
{
    assert(graph_keys(nodes1) =~= graph_keys(nodes2));
}

} // verus!
