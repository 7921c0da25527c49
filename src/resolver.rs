//! The resolved graph: every action and state as one indexed node list, and
//! every outcome/event link whose target exists as a pair of node indices.

use vstd::prelude::*;

use crate::document::{all_actions, target_key, target_of, Action, LinkTarget, NodeClass, Process, State};
use crate::hints::{hint_value, UiHints, UI_HINT_ENTRY_KEY_XLOC, UI_HINT_ENTRY_KEY_YLOC};
use crate::lookup::{first_index, is_first, lemma_first_index_absent, lemma_first_index_at};
use crate::metadata::{
    handled_event_names, input_names, outcome_names, output_names, state_data_type_names, texts,
    MetaData,
};
use crate::names::{get_simple_name, simple_name};

verus! {

/// One name of a metadata section, with its simple name.
#[derive(Debug)]
pub struct SectionItem {
    pub name: String,
    pub simple_name: String,
}

/// A node of the resolved graph. The coordinates are the texts of the
/// node's x- and y-location hints (`None` where the hint is absent).
#[derive(Debug)]
pub struct GraphNode {
    pub id: String,
    pub name: String,
    pub class: NodeClass,
    pub x: Option<String>,
    pub y: Option<String>,
    pub inputs: Vec<SectionItem>,
    pub outputs: Vec<SectionItem>,
    pub outcomes: Vec<SectionItem>,
    pub states: Vec<SectionItem>,
    pub events: Vec<SectionItem>,
}

/// A resolved link between two nodes of the graph.
#[derive(Debug)]
pub struct GraphLink {
    pub id: String,
    pub source_id: String,
    pub source_class: NodeClass,
    pub source_index: usize,
    /// Position of the link among its source's outbound links.
    pub source_ordinal: usize,
    pub target_id: String,
    pub target_class: NodeClass,
    pub target_index: usize,
}

/// A resolved link as plain values.
pub struct LinkView {
    pub id: Seq<char>,
    pub source_id: Seq<char>,
    pub source_class: NodeClass,
    pub source_index: int,
    pub source_ordinal: int,
    pub target_id: Seq<char>,
    pub target_class: NodeClass,
    pub target_index: int,
}

impl View for GraphLink {
    type V = LinkView;

    open spec fn view(&self) -> LinkView {
        LinkView {
            id: self.id@,
            source_id: self.source_id@,
            source_class: self.source_class,
            source_index: self.source_index as int,
            source_ordinal: self.source_ordinal as int,
            target_id: self.target_id@,
            target_class: self.target_class,
            target_index: self.target_index as int,
        }
    }
}

/// The views of a sequence of links.
pub open spec fn link_views(links: Seq<GraphLink>) -> Seq<LinkView> {
    links.map_values(|l: GraphLink| l@)
}

/// The text of an optional string.
pub open spec fn opt_text(o: Option<String>) -> Option<Seq<char>> {
    match o {
        Some(s) => Some(s@),
        None => None,
    }
}

// The unified node list of a process: all actions in category order, then
// all states. Node `i` of the process is described by the functions below.

/// Number of actions of all categories.
pub open spec fn action_count(p: Process) -> int {
    all_actions(p).len() as int
}

/// Number of nodes.
pub open spec fn node_count(p: Process) -> int {
    all_actions(p).len() + p.states@.len() as int
}

/// Kind of node `i`: actions first, then states.
pub open spec fn node_class(p: Process, i: int) -> NodeClass {
    if i < action_count(p) {
        NodeClass::Action
    } else {
        NodeClass::State
    }
}

/// Id of node `i`.
pub open spec fn node_id(p: Process, i: int) -> Seq<char> {
    if i < action_count(p) {
        all_actions(p)[i].action_id@
    } else {
        p.states@[i - action_count(p)].state_id@
    }
}

/// Display name of node `i`.
pub open spec fn node_name(p: Process, i: int) -> Seq<char> {
    if i < action_count(p) {
        all_actions(p)[i].name@
    } else {
        p.states@[i - action_count(p)].name@
    }
}

/// Position hints of node `i`.
pub open spec fn node_hints(p: Process, i: int) -> UiHints {
    if i < action_count(p) {
        all_actions(p)[i].ui_hints
    } else {
        p.states@[i - action_count(p)].ui_hints
    }
}

/// Metadata of node `i`.
pub open spec fn node_meta(p: Process, i: int) -> MetaData {
    if i < action_count(p) {
        all_actions(p)[i].meta_data
    } else {
        p.states@[i - action_count(p)].meta_data
    }
}

/// Number of outbound links of node `i`.
pub open spec fn link_count(p: Process, i: int) -> int {
    if i < action_count(p) {
        all_actions(p)[i].outcome_links@.len() as int
    } else {
        p.states@[i - action_count(p)].event_links@.len() as int
    }
}

/// Id of the `j`-th outbound link of node `i`.
pub open spec fn link_id(p: Process, i: int, j: int) -> Seq<char> {
    if i < action_count(p) {
        all_actions(p)[i].outcome_links@[j].link_id@
    } else {
        p.states@[i - action_count(p)].event_links@[j].link_id@
    }
}

/// Target of the `j`-th outbound link of node `i`.
pub open spec fn link_target(p: Process, i: int, j: int) -> Option<(NodeClass, Seq<char>)> {
    if i < action_count(p) {
        let l = all_actions(p)[i].outcome_links@[j];
        target_of(l.to_action_id, l.to_state_id)
    } else {
        let l = p.states@[i - action_count(p)].event_links@[j];
        target_of(l.to_action_id, l.to_state_id)
    }
}

/// The kind and id of each node, in node order.
pub open spec fn node_keys(p: Process) -> Seq<(NodeClass, Seq<char>)> {
    Seq::new(node_count(p) as nat, |i: int| (node_class(p, i), node_id(p, i)))
}

/// Index of the first node of kind `class` with id `id`.
pub open spec fn node_index(p: Process, class: NodeClass, id: Seq<char>) -> Option<int> {
    first_index(node_keys(p), (class, id))
}

/// The link from a source to `target` that the lookup `keys` resolves:
/// `None` when there is no target or no node of that kind and id.
pub open spec fn resolve_target(
    keys: Seq<(NodeClass, Seq<char>)>,
    target: Option<(NodeClass, Seq<char>)>,
    id: Seq<char>,
    source_id: Seq<char>,
    source_class: NodeClass,
    source_index: int,
    source_ordinal: int,
) -> Option<LinkView> {
    match target {
        None => None,
        Some(t) => match first_index(keys, t) {
            None => None,
            Some(k) => Some(
                LinkView {
                    id,
                    source_id,
                    source_class,
                    source_index,
                    source_ordinal,
                    target_id: t.1,
                    target_class: t.0,
                    target_index: k,
                },
            ),
        },
    }
}

/// The resolved form of the `j`-th link of node `i`: `None` when the link
/// has no target or its target is not a node.
pub open spec fn resolve_link(p: Process, i: int, j: int) -> Option<LinkView> {
    resolve_target(
        node_keys(p),
        link_target(p, i, j),
        link_id(p, i, j),
        node_id(p, i),
        node_class(p, i),
        i,
        j,
    )
}

/// The resolved links among the first `m` outbound links of node `i`.
pub open spec fn links_from(p: Process, i: int, m: int) -> Seq<LinkView>
    decreases m,
{
    if m <= 0 {
        Seq::empty()
    } else {
        match resolve_link(p, i, m - 1) {
            Some(l) => links_from(p, i, m - 1).push(l),
            None => links_from(p, i, m - 1),
        }
    }
}

/// The resolved links of the first `n` nodes, in node order, then link order.
pub open spec fn links_upto(p: Process, n: int) -> Seq<LinkView>
    decreases n,
{
    if n <= 0 {
        Seq::empty()
    } else {
        links_upto(p, n - 1) + links_from(p, n - 1, link_count(p, n - 1))
    }
}

/// All resolved links of the process.
pub open spec fn resolved_links(p: Process) -> Seq<LinkView> {
    links_upto(p, node_count(p))
}

/// `items` lists `names` with their simple names.
pub open spec fn sections_match(items: Seq<SectionItem>, names: Seq<Seq<char>>) -> bool {
    &&& items.len() == names.len()
    &&& forall|k: int|
        0 <= k < items.len() ==> items[k].name@ == names[k] && items[k].simple_name@ == simple_name(
            names[k],
        )
}

/// `n` is the graph node for a document node with these parts.
pub open spec fn node_matches(
    n: GraphNode,
    class: NodeClass,
    id: Seq<char>,
    name: Seq<char>,
    hints: UiHints,
    meta: MetaData,
) -> bool {
    &&& n.id@ == id
    &&& n.name@ == name
    &&& n.class == class
    &&& opt_text(n.x) == hint_value(hints.entries@, UI_HINT_ENTRY_KEY_XLOC@)
    &&& opt_text(n.y) == hint_value(hints.entries@, UI_HINT_ENTRY_KEY_YLOC@)
    &&& class == NodeClass::Action ==> {
        &&& sections_match(n.inputs@, input_names(meta))
        &&& sections_match(n.outputs@, output_names(meta))
        &&& sections_match(n.outcomes@, outcome_names(meta))
        &&& n.states@.len() == 0
        &&& n.events@.len() == 0
    }
    &&& class == NodeClass::State ==> {
        &&& n.inputs@.len() == 0
        &&& n.outputs@.len() == 0
        &&& n.outcomes@.len() == 0
        &&& sections_match(n.states@, state_data_type_names(meta))
        &&& sections_match(n.events@, handled_event_names(meta))
    }
}

/// `n` is the graph node for node `i` of `p`.
pub open spec fn node_resolved(n: GraphNode, p: Process, i: int) -> bool {
    node_matches(n, node_class(p, i), node_id(p, i), node_name(p, i), node_hints(p, i), node_meta(p, i))
}

/// `nodes` and `links` are the resolved graph of `p`.
pub open spec fn is_resolution(p: Process, nodes: Seq<GraphNode>, links: Seq<GraphLink>) -> bool {
    &&& nodes.len() == node_count(p)
    &&& forall|i: int| 0 <= i < nodes.len() ==> node_resolved(#[trigger] nodes[i], p, i)
    &&& link_views(links) == resolved_links(p)
}

/// The section items for a list of names.
fn section_items(names: Vec<String>) -> (r: Vec<SectionItem>)
    ensures
        sections_match(r@, texts(names@)),
{
    let mut out: Vec<SectionItem> = Vec::new();
    let mut i: usize = 0;
    while i < names.len()
        invariant
            i <= names@.len(),
            out@.len() == i,
            forall|k: int|
                0 <= k < i ==> out@[k].name@ == names@[k]@ && out@[k].simple_name@ == simple_name(
                    names@[k]@,
                ),
        decreases names@.len() - i,
    {
        let simple = get_simple_name(names[i].as_str());
        out.push(SectionItem { name: names[i].clone(), simple_name: simple });
        i += 1;
    }
    out
}

/// A copy of an optional hint value.
fn hint_copy(v: Option<&String>) -> (r: Option<String>)
    ensures
        opt_text(r) == match v {
            Some(s) => Some(s@),
            None => None::<Seq<char>>,
        },
{
    match v {
        Some(s) => Some(s.clone()),
        None => None,
    }
}

/// The graph node of an action.
fn action_node(a: &Action) -> (n: GraphNode)
    ensures
        node_matches(n, NodeClass::Action, a.action_id@, a.name@, a.ui_hints, a.meta_data),
{
    GraphNode {
        id: a.action_id.clone(),
        name: a.name.clone(),
        class: NodeClass::Action,
        x: hint_copy(a.ui_hints.get_xloc()),
        y: hint_copy(a.ui_hints.get_yloc()),
        inputs: section_items(a.meta_data.get_inputs_as_strings()),
        outputs: section_items(a.meta_data.get_outputs_as_strings()),
        outcomes: section_items(a.meta_data.get_outcomes_as_strings()),
        states: Vec::new(),
        events: Vec::new(),
    }
}

/// The graph node of a state.
fn state_node(s: &State) -> (n: GraphNode)
    ensures
        node_matches(n, NodeClass::State, s.state_id@, s.name@, s.ui_hints, s.meta_data),
{
    GraphNode {
        id: s.state_id.clone(),
        name: s.name.clone(),
        class: NodeClass::State,
        x: hint_copy(s.ui_hints.get_xloc()),
        y: hint_copy(s.ui_hints.get_yloc()),
        inputs: Vec::new(),
        outputs: Vec::new(),
        outcomes: Vec::new(),
        states: section_items(s.meta_data.get_state_data_types_as_strings()),
        events: section_items(s.meta_data.get_handled_events_as_strings()),
    }
}

/// The kind and id of each graph node.
pub open spec fn graph_keys(nodes: Seq<GraphNode>) -> Seq<(NodeClass, Seq<char>)> {
    nodes.map_values(|n: GraphNode| (n.class, n.id@))
}

/// The id of each graph node.
pub open spec fn graph_ids(nodes: Seq<GraphNode>) -> Seq<Seq<char>> {
    nodes.map_values(|n: GraphNode| n.id@)
}

/// An optional index as an integer.
pub open spec fn opt_index(r: Option<usize>) -> Option<int> {
    match r {
        Some(k) => Some(k as int),
        None => None,
    }
}

/// Index of the first node with id `id`, of either kind.
pub fn find_ui_node_index_by_id(nodes: &Vec<GraphNode>, id: &str) -> (r: Option<usize>)
    ensures
        opt_index(r) == first_index(graph_ids(nodes@), id@),
{
    let key = id.to_owned();
    let mut i: usize = 0;
    while i < nodes.len()
        invariant
            key@ == id@,
            i <= nodes@.len(),
            forall|j: int| 0 <= j < i ==> graph_ids(nodes@)[j] != id@,
        decreases nodes@.len() - i,
    {
        if nodes[i].id == key {
            proof {
                assert(is_first(graph_ids(nodes@), id@, i as int));
                lemma_first_index_at(graph_ids(nodes@), id@, i as int);
            }
            return Some(i);
        }
        i += 1;
    }
    proof {
        lemma_first_index_absent(graph_ids(nodes@), id@);
    }
    None
}

/// Index of the first node of kind `class` with id `id`.
fn find_node_index(nodes: &Vec<GraphNode>, class: NodeClass, id: &String) -> (r: Option<usize>)
    ensures
        opt_index(r) == first_index(graph_keys(nodes@), (class, id@)),
{
    let mut i: usize = 0;
    while i < nodes.len()
        invariant
            i <= nodes@.len(),
            forall|j: int| 0 <= j < i ==> graph_keys(nodes@)[j] != (class, id@),
        decreases nodes@.len() - i,
    {
        if nodes[i].class == class && nodes[i].id == *id {
            proof {
                assert(is_first(graph_keys(nodes@), (class, id@), i as int));
                lemma_first_index_at(graph_keys(nodes@), (class, id@), i as int);
            }
            return Some(i);
        }
        i += 1;
    }
    proof {
        lemma_first_index_absent(graph_keys(nodes@), (class, id@));
    }
    None
}

/// Appends the link from the given source to `target`, where `nodes` has a
/// node of the target's kind and id.
fn push_resolved(
    links: &mut Vec<GraphLink>,
    nodes: &Vec<GraphNode>,
    target: LinkTarget,
    id: &String,
    source_id: &String,
    source_class: NodeClass,
    source_index: usize,
    source_ordinal: usize,
)
    ensures
        link_views(final(links)@) == match resolve_target(
            graph_keys(nodes@),
            target_key(target),
            id@,
            source_id@,
            source_class,
            source_index as int,
            source_ordinal as int,
        ) {
            Some(l) => link_views(old(links)@).push(l),
            None => link_views(old(links)@),
        },
{
    let (target_class, target_id) = match target {
        LinkTarget::Unconnected => return ,
        LinkTarget::Action(t) => (NodeClass::Action, t),
        LinkTarget::State(t) => (NodeClass::State, t),
    };
    match find_node_index(nodes, target_class, &target_id) {
        None => {},
        Some(target_index) => {
            links.push(
                GraphLink {
                    id: id.clone(),
                    source_id: source_id.clone(),
                    source_class,
                    source_index,
                    source_ordinal,
                    target_id,
                    target_class,
                    target_index,
                },
            );
            assert(link_views(final(links)@) =~= link_views(old(links)@).push(final(links)@.last()@));
        },
    }
}

/// The indices `k < n` of the nodes of kind `class`, in increasing order.
pub open spec fn class_positions(nodes: Seq<GraphNode>, class: NodeClass, n: int) -> Seq<usize>
    decreases n,
{
    if n <= 0 {
        Seq::empty()
    } else if nodes[n - 1].class == class {
        class_positions(nodes, class, n - 1).push((n - 1) as usize)
    } else {
        class_positions(nodes, class, n - 1)
    }
}

/// The indices of the nodes of kind `class`, in increasing order.
pub fn node_indexes_of_class(nodes: &Vec<GraphNode>, class: NodeClass) -> (r: Vec<usize>)
    ensures
        r@ == class_positions(nodes@, class, nodes@.len() as int),
{
    let mut out: Vec<usize> = Vec::new();
    let mut i: usize = 0;
    while i < nodes.len()
        invariant
            i <= nodes@.len(),
            out@ == class_positions(nodes@, class, i as int),
        decreases nodes@.len() - i,
    {
        if nodes[i].class == class {
            out.push(i);
        }
        i += 1;
    }
    out
}

/// The resolved graph of a process, together with the process itself.
#[derive(Debug)]
pub struct UiProcessAdapter {
    pub process: Process,
    pub ui_nodes: Vec<GraphNode>,
    pub ui_links: Vec<GraphLink>,
}

impl UiProcessAdapter {
    /// The nodes are those of the process, in order, each one without a
    /// coordinate only where the process has no hint for it, and the links
    /// are the resolved links of the process.
    pub open spec fn wf(&self) -> bool {
        &&& self.ui_nodes@.len() == node_count(self.process)
        &&& graph_keys(self.ui_nodes@) == node_keys(self.process)
        &&& forall|i: int|
            0 <= i < self.ui_nodes@.len() ==> ((#[trigger] self.ui_nodes@[i]).x is None ==> hint_value(
                node_hints(self.process, i).entries@,
                UI_HINT_ENTRY_KEY_XLOC@,
            ) is None) && (self.ui_nodes@[i].y is None ==> hint_value(
                node_hints(self.process, i).entries@,
                UI_HINT_ENTRY_KEY_YLOC@,
            ) is None)
        &&& link_views(self.ui_links@) == resolved_links(self.process)
    }

    /// Resolves `process`: one node per action (plain, end-process,
    /// execute-process, assign) and per state, in that order, and one link
    /// per outcome or event link whose target is a node.
    pub fn new(process: Process) -> (r: Self)
        ensures
            r.process == process,
            is_resolution(process, r.ui_nodes@, r.ui_links@),
            r.wf(),
    {
        let action_refs = process.get_all_actions();
        let state_refs = process.get_all_states();
        let na = action_refs.len();
        let mut nodes: Vec<GraphNode> = Vec::new();
        let mut i: usize = 0;
        while i < na
            invariant
                na == action_count(process),
                na == action_refs@.len(),
                forall|k: int| 0 <= k < na ==> *action_refs@[k] == all_actions(process)[k],
                i <= na,
                nodes@.len() == i,
                forall|k: int| 0 <= k < i ==> node_resolved(#[trigger] nodes@[k], process, k),
            decreases na - i,
        {
            nodes.push(action_node(action_refs[i]));
            i += 1;
        }
        let mut s: usize = 0;
        while s < state_refs.len()
            invariant
                na == action_count(process),
                state_refs@.len() == process.states@.len(),
                forall|k: int| 0 <= k < state_refs@.len() ==> *state_refs@[k] == process.states@[k],
                s <= state_refs@.len(),
                nodes@.len() == na + s,
                forall|k: int| 0 <= k < na + s ==> node_resolved(#[trigger] nodes@[k], process, k),
            decreases state_refs@.len() - s,
        {
            nodes.push(state_node(state_refs[s]));
            s += 1;
        }
        let total = nodes.len();
        assert(graph_keys(nodes@) =~= node_keys(process));
        let mut links: Vec<GraphLink> = Vec::new();
        let mut i: usize = 0;
        while i < na
            invariant
                na == action_count(process),
                na == action_refs@.len(),
                forall|k: int| 0 <= k < na ==> *action_refs@[k] == all_actions(process)[k],
                graph_keys(nodes@) == node_keys(process),
                i <= na,
                link_views(links@) == links_upto(process, i as int),
            decreases na - i,
        {
            let a = action_refs[i];
            let mut j: usize = 0;
            while j < a.outcome_links.len()
                invariant
                    na == action_count(process),
                    i < na,
                    *a == all_actions(process)[i as int],
                    graph_keys(nodes@) == node_keys(process),
                    j <= a.outcome_links@.len(),
                    link_views(links@) == links_upto(process, i as int) + links_from(process, i as int, j as int),
                decreases a.outcome_links@.len() - j,
            {
                let link = &a.outcome_links[j];
                push_resolved(&mut links, &nodes, link.target(), &link.link_id, &a.action_id, NodeClass::Action, i, j);
                j += 1;
            }
            i += 1;
        }
        let mut s: usize = 0;
        while s < state_refs.len()
            invariant
                na == action_count(process),
                total == node_count(process),
                state_refs@.len() == process.states@.len(),
                forall|k: int| 0 <= k < state_refs@.len() ==> *state_refs@[k] == process.states@[k],
                graph_keys(nodes@) == node_keys(process),
                s <= state_refs@.len(),
                link_views(links@) == links_upto(process, na + s),
            decreases state_refs@.len() - s,
        {
            let st = state_refs[s];
            let mut j: usize = 0;
            while j < st.event_links.len()
                invariant
                    na == action_count(process),
                    total == node_count(process),
                    s < state_refs@.len(),
                    state_refs@.len() == process.states@.len(),
                    *st == process.states@[s as int],
                    graph_keys(nodes@) == node_keys(process),
                    j <= st.event_links@.len(),
                    link_views(links@) == links_upto(process, na + s) + links_from(process, na + s, j as int),
                decreases st.event_links@.len() - j,
            {
                let link = &st.event_links[j];
                push_resolved(&mut links, &nodes, link.target(), &link.link_id, &st.state_id, NodeClass::State, na + s, j);
                j += 1;
            }
            s += 1;
        }
        UiProcessAdapter { process, ui_nodes: nodes, ui_links: links }
    }
}

} // verus!
