//! Edits on a resolved graph, and writing edited names and positions back
//! into the document.

use vstd::prelude::*;

use crate::hints::{entry_set, hint_value, Entry, lemma_set_then_get, lemma_location_keys_differ, UiHints, UI_HINT_ENTRY_KEY_XLOC, UI_HINT_ENTRY_KEY_YLOC};
use crate::document::{all_actions, Action, Process, State};
use crate::lookup::first_index;
use crate::resolver::{
    find_ui_node_index_by_id, graph_ids, graph_keys, is_resolution, link_count, link_views,
    links_from, links_upto, node_count, node_hints, node_id, node_keys, node_name, opt_text,
    resolve_link, resolved_links, GraphLink, GraphNode, UiProcessAdapter,
};

verus! {

/// `new` is `old` with its coordinates set to `x` and `y`.
pub open spec fn moved(old: GraphNode, new: GraphNode, x: Seq<char>, y: Seq<char>) -> bool {
    &&& new.id == old.id
    &&& new.name == old.name
    &&& new.class == old.class
    &&& new.x matches Some(t) && t@ == x
    &&& new.y matches Some(t) && t@ == y
    &&& new.inputs == old.inputs
    &&& new.outputs == old.outputs
    &&& new.outcomes == old.outcomes
    &&& new.states == old.states
    &&& new.events == old.events
}

/// `new` is `old` with its name set to `name`.
pub open spec fn renamed(old: GraphNode, new: GraphNode, name: Seq<char>) -> bool {
    &&& new.id == old.id
    &&& new.name@ == name
    &&& new.class == old.class
    &&& new.x == old.x
    &&& new.y == old.y
    &&& new.inputs == old.inputs
    &&& new.outputs == old.outputs
    &&& new.outcomes == old.outcomes
    &&& new.states == old.states
    &&& new.events == old.events
}

/// `new` is `old` after setting the x-location hint to `x` and then the
/// y-location hint to `y`, each only where given.
pub open spec fn location_set(old: Seq<Entry>, new: Seq<Entry>, x: Option<String>, y: Option<String>) -> bool {
    match (x, y) {
        (Some(tx), Some(ty)) => exists|mid: Seq<Entry>|
            entry_set(old, mid, UI_HINT_ENTRY_KEY_XLOC@, tx@) && entry_set(
                mid,
                new,
                UI_HINT_ENTRY_KEY_YLOC@,
                ty@,
            ),
        (Some(tx), None) => entry_set(old, new, UI_HINT_ENTRY_KEY_XLOC@, tx@),
        (None, Some(ty)) => entry_set(old, new, UI_HINT_ENTRY_KEY_YLOC@, ty@),
        (None, None) => new == old,
    }
}

/// `new` is `old` with `x` and `y`, where given, set as its location hints.
/// Every other key looks up as before.
pub open spec fn hints_written(old: UiHints, new: UiHints, x: Option<String>, y: Option<String>) -> bool {
    &&& location_set(old.entries@, new.entries@, x, y)
    &&& hint_value(new.entries@, UI_HINT_ENTRY_KEY_XLOC@) == match x {
        Some(t) => Some(t@),
        None => hint_value(old.entries@, UI_HINT_ENTRY_KEY_XLOC@),
    }
    &&& hint_value(new.entries@, UI_HINT_ENTRY_KEY_YLOC@) == match y {
        Some(t) => Some(t@),
        None => hint_value(old.entries@, UI_HINT_ENTRY_KEY_YLOC@),
    }
    &&& forall|k: Seq<char>|
        k != UI_HINT_ENTRY_KEY_XLOC@ && k != UI_HINT_ENTRY_KEY_YLOC@ ==> #[trigger] hint_value(
            new.entries@,
            k,
        ) == hint_value(old.entries@, k)
}

/// `new` is the action `old` with the name and position of node `n`.
pub open spec fn action_written(old: Action, new: Action, n: GraphNode) -> bool {
    &&& new.default_next_state_id == old.default_next_state_id
    &&& new.action_id == old.action_id
    &&& new.name@ == n.name@
    &&& new.class_name == old.class_name
    &&& hints_written(old.ui_hints, new.ui_hints, n.x, n.y)
    &&& new.meta_data == old.meta_data
    &&& new.outcome_links == old.outcome_links
}

/// `new` is the state `old` with the name and position of node `n`.
pub open spec fn state_written(old: State, new: State, n: GraphNode) -> bool {
    &&& new.url == old.url
    &&& new.state_id == old.state_id
    &&& new.name@ == n.name@
    &&& new.class_name == old.class_name
    &&& new.default_next_state_id == old.default_next_state_id
    &&& hints_written(old.ui_hints, new.ui_hints, n.x, n.y)
    &&& new.meta_data == old.meta_data
    &&& new.type_id == old.type_id
    &&& new.single_instance == old.single_instance
    &&& new.respond_to_view_events == old.respond_to_view_events
    &&& new.action_input_mappings == old.action_input_mappings
    &&& new.action_output_mappings == old.action_output_mappings
    &&& new.event_links == old.event_links
}

/// `new` is the process `old` with the names and positions of `nodes`
/// written into its actions and states, node by node in node order.
pub open spec fn written_back(old: Process, new: Process, nodes: Seq<GraphNode>) -> bool {
    &&& new.xmlns_core == old.xmlns_core
    &&& new.xmlns_ns5 == old.xmlns_ns5
    &&& new.xmlns_ns7 == old.xmlns_ns7
    &&& new.xmlns_retail == old.xmlns_retail
    &&& new.xmlns_sref == old.xmlns_sref
    &&& new.xmlns_tools == old.xmlns_tools
    &&& new.process_id == old.process_id
    &&& new.version == old.version
    &&& new.name == old.name
    &&& new.default_message_base_name == old.default_message_base_name
    &&& new.first_state_id == old.first_state_id
    &&& new.class_name == old.class_name
    &&& new.ui_hints == old.ui_hints
    &&& new.meta_data == old.meta_data
    &&& new.actions@.len() == old.actions@.len()
    &&& new.end_process_actions@.len() == old.end_process_actions@.len()
    &&& new.execute_process_actions@.len() == old.execute_process_actions@.len()
    &&& new.assign_actions@.len() == old.assign_actions@.len()
    &&& new.states@.len() == old.states@.len()
    &&& forall|i: int|
        0 <= i < all_actions(old).len() ==> action_written(
            all_actions(old)[i],
            #[trigger] all_actions(new)[i],
            nodes[i],
        )
    &&& forall|k: int|
        0 <= k < old.states@.len() ==> state_written(
            old.states@[k],
            #[trigger] new.states@[k],
            nodes[all_actions(old).len() + k],
        )
}

/// Writes the coordinates that are given into the location hints.
fn write_position(h: &mut UiHints, x: &Option<String>, y: &Option<String>)
    ensures
        hints_written(*old(h), *final(h), *x, *y),
{
    proof {
        lemma_location_keys_differ();
    }
    let ghost h0 = *h;
    if let Some(t) = x {
        h.set_xloc(t.as_str());
        proof {
            lemma_set_then_get(h0.entries@, h.entries@, UI_HINT_ENTRY_KEY_XLOC@, t@);
        }
    }
    let ghost h1 = *h;
    if let Some(t) = y {
        h.set_yloc(t.as_str());
        proof {
            lemma_set_then_get(h1.entries@, h.entries@, UI_HINT_ENTRY_KEY_YLOC@, t@);
            if x is Some {
                assert(entry_set(h0.entries@, h1.entries@, UI_HINT_ENTRY_KEY_XLOC@, x->0@));
            }
        }
    }
}

/// Writes the name and position of `n` into an action.
fn write_back_action(a: &mut Action, n: &GraphNode)
    ensures
        action_written(*old(a), *final(a), *n),
{
    a.name = n.name.clone();
    write_position(&mut a.ui_hints, &n.x, &n.y);
}

/// Writes the name and position of `n` into a state.
fn write_back_state(s: &mut State, n: &GraphNode)
    ensures
        state_written(*old(s), *final(s), *n),
{
    s.name = n.name.clone();
    write_position(&mut s.ui_hints, &n.x, &n.y);
}

/// Writes node `offset + k` into action `k`, for every action.
fn write_back_actions(actions: &mut Vec<Action>, nodes: &Vec<GraphNode>, offset: usize)
    requires
        offset + old(actions)@.len() <= nodes@.len(),
    ensures
        final(actions)@.len() == old(actions)@.len(),
        forall|k: int|
            0 <= k < old(actions)@.len() ==> action_written(
                old(actions)@[k],
                #[trigger] final(actions)@[k],
                nodes@[offset + k],
            ),
{
    let n = nodes.len();
    let mut k: usize = 0;
    while k < actions.len()
        invariant
            n == nodes@.len(),
            offset + old(actions)@.len() <= nodes@.len(),
            actions@.len() == old(actions)@.len(),
            k <= actions@.len(),
            forall|j: int|
                0 <= j < k ==> action_written(old(actions)@[j], #[trigger] actions@[j], nodes@[offset + j]),
            forall|j: int| k <= j < actions@.len() ==> #[trigger] actions@[j] == old(actions)@[j],
        decreases actions@.len() - k,
    {
        write_back_action(&mut actions[k], &nodes[offset + k]);
        k += 1;
    }
}

/// Writes node `offset + k` into state `k`, for every state.
fn write_back_states(states: &mut Vec<State>, nodes: &Vec<GraphNode>, offset: usize)
    requires
        offset + old(states)@.len() <= nodes@.len(),
    ensures
        final(states)@.len() == old(states)@.len(),
        forall|k: int|
            0 <= k < old(states)@.len() ==> state_written(
                old(states)@[k],
                #[trigger] final(states)@[k],
                nodes@[offset + k],
            ),
{
    let n = nodes.len();
    let mut k: usize = 0;
    while k < states.len()
        invariant
            n == nodes@.len(),
            offset + old(states)@.len() <= nodes@.len(),
            states@.len() == old(states)@.len(),
            k <= states@.len(),
            forall|j: int|
                0 <= j < k ==> state_written(old(states)@[j], #[trigger] states@[j], nodes@[offset + j]),
            forall|j: int| k <= j < states@.len() ==> #[trigger] states@[j] == old(states)@[j],
        decreases states@.len() - k,
    {
        write_back_state(&mut states[k], &nodes[offset + k]);
        k += 1;
    }
}

proof fn lemma_same_links_from(old: Process, new: Process, i: int, m: int)
    requires
        forall|j: int| 0 <= j < m ==> resolve_link(new, i, j) == resolve_link(old, i, j),
    ensures
        links_from(new, i, m) == links_from(old, i, m),
    decreases m,
{
    if m > 0 {
        lemma_same_links_from(old, new, i, m - 1);
    }
}

proof fn lemma_same_links_upto(old: Process, new: Process, n: int)
    requires
        forall|i: int| 0 <= i < n ==> link_count(new, i) == link_count(old, i),
        forall|i: int, j: int|
            0 <= i < n && 0 <= j < link_count(old, i) ==> resolve_link(new, i, j) == resolve_link(
                old,
                i,
                j,
            ),
    ensures
        links_upto(new, n) == links_upto(old, n),
    decreases n,
{
    if n > 0 {
        lemma_same_links_upto(old, new, n - 1);
        lemma_same_links_from(old, new, n - 1, link_count(old, n - 1));
    }
}

/// Writing names and positions back changes no node's kind or id and no
/// link: the written document resolves to the same links.
pub proof fn lemma_write_back_keeps_links(old: Process, new: Process, nodes: Seq<GraphNode>)
    requires
        written_back(old, new, nodes),
    ensures
        node_count(new) == node_count(old),
        node_keys(new) == node_keys(old),
        forall|i: int| 0 <= i < node_count(old) ==> node_name(new, i) == (#[trigger] nodes[i]).name@,
        forall|i: int|
            0 <= i < node_count(old) ==> hints_written(
                node_hints(old, i),
                #[trigger] node_hints(new, i),
                nodes[i].x,
                nodes[i].y,
            ),
        resolved_links(new) == resolved_links(old),
{
    let na = all_actions(old).len() as int;
    assert(all_actions(new).len() == na);
    assert forall|i: int| 0 <= i < node_count(old) implies {
        &&& node_id(new, i) == node_id(old, i)
        &&& node_name(new, i) == (#[trigger] nodes[i]).name@
        &&& hints_written(node_hints(old, i), node_hints(new, i), nodes[i].x, nodes[i].y)
        &&& link_count(new, i) == link_count(old, i)
        &&& forall|j: int| 0 <= j < link_count(old, i) ==> resolve_link(new, i, j) == resolve_link(old, i, j)
    } by {
        if i < na {
            assert(action_written(all_actions(old)[i], all_actions(new)[i], nodes[i]));
        } else {
            assert(state_written(old.states@[i - na], new.states@[i - na], nodes[na + (i - na)]));
        }
        assert(node_keys(new) =~= node_keys(old));
    }
    assert(node_keys(new) =~= node_keys(old));
    lemma_same_links_upto(old, new, node_count(old));
}

/// Re-resolving the document that an adapter writes back gives the
/// adapter's nodes again (kind, id, name and position) and its links.
pub proof fn lemma_write_back_round_trip(
    a: UiProcessAdapter,
    doc: Process,
    nodes: Seq<GraphNode>,
    links: Seq<GraphLink>,
)
    requires
        a.wf(),
        written_back(a.process, doc, a.ui_nodes@),
        is_resolution(doc, nodes, links),
    ensures
        nodes.len() == a.ui_nodes@.len(),
        forall|i: int|
            0 <= i < nodes.len() ==> {
                &&& (#[trigger] nodes[i]).id@ == a.ui_nodes@[i].id@
                &&& nodes[i].class == a.ui_nodes@[i].class
                &&& nodes[i].name@ == a.ui_nodes@[i].name@
                &&& opt_text(nodes[i].x) == opt_text(a.ui_nodes@[i].x)
                &&& opt_text(nodes[i].y) == opt_text(a.ui_nodes@[i].y)
            },
        link_views(links) == link_views(a.ui_links@),
{
    lemma_write_back_keeps_links(a.process, doc, a.ui_nodes@);
    assert forall|i: int| 0 <= i < nodes.len() implies {
        &&& (#[trigger] nodes[i]).id@ == a.ui_nodes@[i].id@
        &&& nodes[i].class == a.ui_nodes@[i].class
        &&& nodes[i].name@ == a.ui_nodes@[i].name@
        &&& opt_text(nodes[i].x) == opt_text(a.ui_nodes@[i].x)
        &&& opt_text(nodes[i].y) == opt_text(a.ui_nodes@[i].y)
    } by {
        assert(graph_keys(a.ui_nodes@)[i] == node_keys(a.process)[i]);
        assert(node_keys(doc)[i] == node_keys(a.process)[i]);
    }
}

impl UiProcessAdapter {
    /// Moves the first node with id `node_id` to (`x`, `y`). Every other
    /// node, every link and the process stay as they are; a link reaches
    /// its endpoints by index, so it follows the moved node. With no such
    /// node nothing changes.
    pub fn apply_position_edit(self, node_id: &str, x: &str, y: &str) -> (r: Self)
        ensures
            r.process == self.process,
            r.ui_links == self.ui_links,
            r.ui_nodes@.len() == self.ui_nodes@.len(),
            match first_index(graph_ids(self.ui_nodes@), node_id@) {
                Some(k) => {
                    &&& moved(self.ui_nodes@[k], r.ui_nodes@[k], x@, y@)
                    &&& forall|j: int|
                        0 <= j < r.ui_nodes@.len() && j != k ==> r.ui_nodes@[j] == self.ui_nodes@[j]
                },
                None => r.ui_nodes@ == self.ui_nodes@,
            },
            self.wf() ==> r.wf(),
    {
        let mut r = self;
        match find_ui_node_index_by_id(&r.ui_nodes, node_id) {
            Some(k) => {
                r.ui_nodes[k].x = Some(x.to_owned());
                r.ui_nodes[k].y = Some(y.to_owned());
                assert(graph_ids(r.ui_nodes@) =~= graph_ids(self.ui_nodes@));
                assert(graph_keys(r.ui_nodes@) =~= graph_keys(self.ui_nodes@));
            },
            None => {},
        }
        r
    }

    /// Renames the first node with id `node_id`. Every other node, every
    /// link and the process stay as they are. With no such node nothing
    /// changes.
    pub fn apply_name_edit(self, node_id: &str, name: &str) -> (r: Self)
        ensures
            r.process == self.process,
            r.ui_links == self.ui_links,
            r.ui_nodes@.len() == self.ui_nodes@.len(),
            match first_index(graph_ids(self.ui_nodes@), node_id@) {
                Some(k) => {
                    &&& renamed(self.ui_nodes@[k], r.ui_nodes@[k], name@)
                    &&& forall|j: int|
                        0 <= j < r.ui_nodes@.len() && j != k ==> r.ui_nodes@[j] == self.ui_nodes@[j]
                },
                None => r.ui_nodes@ == self.ui_nodes@,
            },
            self.wf() ==> r.wf(),
    {
        let mut r = self;
        match find_ui_node_index_by_id(&r.ui_nodes, node_id) {
            Some(k) => {
                r.ui_nodes[k].name = name.to_owned();
                assert(graph_ids(r.ui_nodes@) =~= graph_ids(self.ui_nodes@));
                assert(graph_keys(r.ui_nodes@) =~= graph_keys(self.ui_nodes@));
            },
            None => {},
        }
        r
    }

    /// The source and target nodes of the `m`-th link, whose coordinates
    /// are the link's endpoints; `None` when there is no such link or an
    /// index is out of range.
    pub fn link_endpoints(&self, m: usize) -> (r: Option<(&GraphNode, &GraphNode)>)
        ensures
            r is None <==> (m >= self.ui_links@.len() || self.ui_links@[m as int].source_index
                >= self.ui_nodes@.len() || self.ui_links@[m as int].target_index >= self.ui_nodes@.len()),
            r matches Some(e) ==> *e.0 == self.ui_nodes@[self.ui_links@[m as int].source_index as int]
                && *e.1 == self.ui_nodes@[self.ui_links@[m as int].target_index as int],
    {
        if m >= self.ui_links.len() {
            return None;
        }
        let link = &self.ui_links[m];
        if link.source_index >= self.ui_nodes.len() || link.target_index >= self.ui_nodes.len() {
            return None;
        }
        Some((&self.ui_nodes[link.source_index], &self.ui_nodes[link.target_index]))
    }
    /// The process with each node's name and position written back into
    /// the action or state it came from.
    pub fn to_document(self) -> (r: Process)
        requires
            self.wf(),
        ensures
            written_back(self.process, r, self.ui_nodes@),
    {
        let UiProcessAdapter { process, ui_nodes, ui_links: _ } = self;
        let ghost p0 = process;
        // Learns that the node count, the sum of the category sizes, fits.
        let total = ui_nodes.len();
        let mut p = process;
        let a0 = p.actions.len();
        write_back_actions(&mut p.actions, &ui_nodes, 0);
        let a1 = a0 + p.end_process_actions.len();
        write_back_actions(&mut p.end_process_actions, &ui_nodes, a0);
        let a2 = a1 + p.execute_process_actions.len();
        write_back_actions(&mut p.execute_process_actions, &ui_nodes, a1);
        let a3 = a2 + p.assign_actions.len();
        write_back_actions(&mut p.assign_actions, &ui_nodes, a2);
        write_back_states(&mut p.states, &ui_nodes, a3);
        proof {
            let olds = all_actions(p0);
            let news = all_actions(p);
            assert forall|i: int| 0 <= i < olds.len() implies action_written(
                olds[i],
                #[trigger] news[i],
                ui_nodes@[i],
            ) by {
                if i < a0 {
                    assert(olds[i] == p0.actions@[i] && news[i] == p.actions@[i]);
                } else if i < a1 {
                    assert(olds[i] == p0.end_process_actions@[i - a0]);
                    assert(news[i] == p.end_process_actions@[i - a0]);
                } else if i < a2 {
                    assert(olds[i] == p0.execute_process_actions@[i - a1]);
                    assert(news[i] == p.execute_process_actions@[i - a1]);
                } else {
                    assert(olds[i] == p0.assign_actions@[i - a2]);
                    assert(news[i] == p.assign_actions@[i - a2]);
                }
            }
        }
        p
    }
}

} // verus!
