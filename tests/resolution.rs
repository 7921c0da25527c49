use process_graph::hints::{UI_HINT_ENTRY_KEY_XLOC, UI_HINT_ENTRY_KEY_YLOC};
use process_graph::{
    find_ui_node_index_by_id, node_indexes_of_class, Action, ActionMappings, Entry, EventLink,
    Input, Inputs, MetaData, NodeClass, OutcomeLink, Process, State, UiHints, UiProcessAdapter,
};

fn no_meta() -> MetaData {
    MetaData { state_data_types: None, inputs: None, outputs: None, outcomes: None, handled_events: None }
}

fn position(x: &str, y: &str) -> UiHints {
    UiHints {
        entries: vec![
            Entry { key: UI_HINT_ENTRY_KEY_XLOC.to_string(), value: x.to_string() },
            Entry { key: UI_HINT_ENTRY_KEY_YLOC.to_string(), value: y.to_string() },
        ],
    }
}

fn action(id: &str, links: Vec<OutcomeLink>) -> Action {
    Action {
        default_next_state_id: None,
        action_id: id.to_string(),
        name: format!("{} name", id),
        class_name: "com.example.Action".to_string(),
        ui_hints: UiHints { entries: vec![] },
        meta_data: no_meta(),
        outcome_links: links,
    }
}

fn state(id: &str, links: Vec<EventLink>) -> State {
    State {
        url: String::new(),
        state_id: id.to_string(),
        name: format!("{} name", id),
        class_name: "com.example.State".to_string(),
        default_next_state_id: None,
        ui_hints: UiHints { entries: vec![] },
        meta_data: no_meta(),
        type_id: String::new(),
        single_instance: false,
        respond_to_view_events: false,
        action_input_mappings: ActionMappings { mappings: vec![] },
        action_output_mappings: ActionMappings { mappings: vec![] },
        event_links: links,
    }
}

fn to_state(link_id: &str, target: &str) -> OutcomeLink {
    OutcomeLink {
        link_id: link_id.to_string(),
        to_state_id: Some(target.to_string()),
        to_action_id: None,
        condition: None,
        outcome: "Success".to_string(),
    }
}

fn to_action(link_id: &str, target: &str) -> OutcomeLink {
    OutcomeLink {
        link_id: link_id.to_string(),
        to_state_id: None,
        to_action_id: Some(target.to_string()),
        condition: None,
        outcome: "Success".to_string(),
    }
}

fn unconnected(link_id: &str) -> OutcomeLink {
    OutcomeLink {
        link_id: link_id.to_string(),
        to_state_id: None,
        to_action_id: None,
        condition: None,
        outcome: "Fail".to_string(),
    }
}

fn event(link_id: &str, to_action: Option<&str>, to_state: Option<&str>) -> EventLink {
    EventLink {
        link_id: link_id.to_string(),
        to_state_id: to_state.map(|s| s.to_string()),
        to_action_id: to_action.map(|s| s.to_string()),
        condition: None,
        event: "ev".to_string(),
    }
}

fn process(
    actions: Vec<Action>,
    end_process_actions: Vec<Action>,
    execute_process_actions: Vec<Action>,
    assign_actions: Vec<Action>,
    states: Vec<State>,
) -> Process {
    Process {
        xmlns_core: String::new(),
        xmlns_ns5: String::new(),
        xmlns_ns7: String::new(),
        xmlns_retail: String::new(),
        xmlns_sref: String::new(),
        xmlns_tools: String::new(),
        process_id: "P".to_string(),
        version: "1.0".to_string(),
        name: None,
        default_message_base_name: None,
        first_state_id: String::new(),
        class_name: None,
        ui_hints: UiHints { entries: vec![] },
        meta_data: no_meta(),
        states,
        actions,
        end_process_actions,
        execute_process_actions,
        assign_actions,
    }
}

fn ids(adapter: &UiProcessAdapter) -> Vec<String> {
    adapter.ui_nodes.iter().map(|n| n.id.clone()).collect()
}

/// (source_index, source_ordinal, target_index) of each link.
fn link_triples(adapter: &UiProcessAdapter) -> Vec<(usize, usize, usize)> {
    adapter.ui_links.iter().map(|l| (l.source_index, l.source_ordinal, l.target_index)).collect()
}

fn one_action_one_state() -> Process {
    let mut a1 = action("A1", vec![to_state("L1", "S1")]);
    a1.ui_hints = position("10", "20");
    let mut s1 = state("S1", vec![]);
    s1.ui_hints = position("100", "200");
    process(vec![a1], vec![], vec![], vec![], vec![s1])
}

#[test]
fn action_to_state_scenario() {
    let adapter = UiProcessAdapter::new(one_action_one_state());
    assert_eq!(ids(&adapter), vec!["A1".to_string(), "S1".to_string()]);
    assert_eq!(adapter.ui_nodes[0].class, NodeClass::Action);
    assert_eq!(adapter.ui_nodes[1].class, NodeClass::State);
    assert_eq!(adapter.ui_links.len(), 1);
    let l = &adapter.ui_links[0];
    assert_eq!(l.id, "L1");
    assert_eq!(l.source_id, "A1");
    assert_eq!(l.source_index, 0);
    assert_eq!(l.source_class, NodeClass::Action);
    assert_eq!(l.source_ordinal, 0);
    assert_eq!(l.target_id, "S1");
    assert_eq!(l.target_index, 1);
    assert_eq!(l.target_class, NodeClass::State);
}

#[test]
fn node_positions_and_names_come_from_hints() {
    let adapter = UiProcessAdapter::new(one_action_one_state());
    let a = &adapter.ui_nodes[0];
    assert_eq!(a.name, "A1 name");
    assert_eq!(a.x.as_deref(), Some("10"));
    assert_eq!(a.y.as_deref(), Some("20"));
    let bare = UiProcessAdapter::new(process(vec![action("B", vec![])], vec![], vec![], vec![], vec![]));
    assert_eq!(bare.ui_nodes[0].x, None);
    assert_eq!(bare.ui_nodes[0].y, None);
}

#[test]
fn nodes_follow_category_order() {
    let p = process(
        vec![action("plain", vec![])],
        vec![action("end", vec![])],
        vec![action("exec", vec![])],
        vec![action("assign", vec![])],
        vec![state("s1", vec![]), state("s2", vec![])],
    );
    let all: Vec<String> = p.get_all_actions().iter().map(|a| a.action_id.clone()).collect();
    assert_eq!(all, vec!["plain", "end", "exec", "assign"]);
    let states: Vec<String> = p.get_all_states().iter().map(|s| s.state_id.clone()).collect();
    assert_eq!(states, vec!["s1", "s2"]);
    let adapter = UiProcessAdapter::new(p);
    assert_eq!(ids(&adapter), vec!["plain", "end", "exec", "assign", "s1", "s2"]);
    assert_eq!(node_indexes_of_class(&adapter.ui_nodes, NodeClass::Action), vec![0, 1, 2, 3]);
    assert_eq!(node_indexes_of_class(&adapter.ui_nodes, NodeClass::State), vec![4, 5]);
}

#[test]
fn unconnected_links_are_dropped() {
    let p = process(
        vec![action("A", vec![unconnected("L0"), to_state("L1", "S"), to_state("L2", "")])],
        vec![],
        vec![],
        vec![],
        vec![state("S", vec![event("E0", Some(""), Some("")), event("E1", Some("A"), None)])],
    );
    let adapter = UiProcessAdapter::new(p);
    assert_eq!(link_triples(&adapter), vec![(0, 1, 1), (1, 1, 0)]);
    assert_eq!(adapter.ui_links[0].id, "L1");
    assert_eq!(adapter.ui_links[1].id, "E1");
}

#[test]
fn dangling_links_are_dropped() {
    let p = process(
        vec![action("A", vec![to_state("L0", "nowhere"), to_action("L1", "ghost"), to_state("L2", "S")])],
        vec![],
        vec![],
        vec![],
        vec![state("S", vec![event("E0", None, Some("missing"))])],
    );
    let adapter = UiProcessAdapter::new(p);
    assert_eq!(link_triples(&adapter), vec![(0, 2, 1)]);
}

#[test]
fn ordinals_count_within_each_source() {
    let p = process(
        vec![
            action("A", vec![to_state("a0", "S"), to_state("a1", "S")]),
            action("B", vec![to_action("b0", "A"), unconnected("b1"), to_state("b2", "S")]),
        ],
        vec![],
        vec![],
        vec![],
        vec![state("S", vec![event("s0", Some("B"), None), event("s1", None, Some("S"))])],
    );
    let adapter = UiProcessAdapter::new(p);
    assert_eq!(
        link_triples(&adapter),
        vec![(0, 0, 2), (0, 1, 2), (1, 0, 0), (1, 2, 2), (2, 0, 1), (2, 1, 2)]
    );
    let classes: Vec<(NodeClass, NodeClass)> =
        adapter.ui_links.iter().map(|l| (l.source_class, l.target_class)).collect();
    assert_eq!(
        classes,
        vec![
            (NodeClass::Action, NodeClass::State),
            (NodeClass::Action, NodeClass::State),
            (NodeClass::Action, NodeClass::Action),
            (NodeClass::Action, NodeClass::State),
            (NodeClass::State, NodeClass::Action),
            (NodeClass::State, NodeClass::State),
        ]
    );
}

#[test]
fn links_across_categories_use_unified_indices() {
    let p = process(
        vec![action("plain", vec![to_action("p0", "assign")])],
        vec![action("end", vec![])],
        vec![action("exec", vec![to_action("x0", "end")])],
        vec![action("assign", vec![to_state("y0", "S")])],
        vec![state("S", vec![event("e0", Some("exec"), None)])],
    );
    let adapter = UiProcessAdapter::new(p);
    assert_eq!(link_triples(&adapter), vec![(0, 0, 3), (2, 0, 1), (3, 0, 4), (4, 0, 2)]);
}

#[test]
fn duplicate_ids_resolve_to_first_occurrence() {
    let p = process(
        vec![action("A", vec![to_state("L", "S")]), action("X", vec![])],
        vec![],
        vec![],
        vec![],
        vec![state("S", vec![]), state("S", vec![event("E", Some("A"), None)])],
    );
    let adapter = UiProcessAdapter::new(p);
    assert_eq!(adapter.ui_nodes.len(), 4);
    assert_eq!(link_triples(&adapter), vec![(0, 0, 2), (3, 0, 0)]);
    assert_eq!(find_ui_node_index_by_id(&adapter.ui_nodes, "S"), Some(2));
    assert_eq!(find_ui_node_index_by_id(&adapter.ui_nodes, "nope"), None);
}

#[test]
fn action_and_state_sharing_an_id_are_told_apart_by_kind() {
    let p = process(
        vec![action("X", vec![to_state("toState", "X")])],
        vec![],
        vec![],
        vec![],
        vec![state("X", vec![event("toAction", Some("X"), None)])],
    );
    let adapter = UiProcessAdapter::new(p);
    assert_eq!(link_triples(&adapter), vec![(0, 0, 1), (1, 0, 0)]);
    assert_eq!(adapter.ui_links[0].target_class, NodeClass::State);
    assert_eq!(adapter.ui_links[1].target_class, NodeClass::Action);
}

#[test]
fn resolving_twice_gives_same_indices() {
    let first = UiProcessAdapter::new(one_action_one_state());
    let second = UiProcessAdapter::new(one_action_one_state());
    assert_eq!(ids(&first), ids(&second));
    assert_eq!(link_triples(&first), link_triples(&second));
}

#[test]
fn empty_process_resolves_to_empty_graph() {
    let adapter = UiProcessAdapter::new(process(vec![], vec![], vec![], vec![], vec![]));
    assert!(adapter.ui_nodes.is_empty());
    assert!(adapter.ui_links.is_empty());
}

#[test]
fn sections_carry_simple_names() {
    let mut a = action("A", vec![]);
    a.meta_data.inputs = Some(Inputs {
        inputs: vec![Input { required: true, name: "com.x.IBasket".to_string(), interface_name: "I".to_string() }],
    });
    let mut s = state("S", vec![]);
    s.meta_data.handled_events = Some(process_graph::HandledEvents {
        events: vec![process_graph::HandledEvent { name: "ev.Enter".to_string() }],
    });
    let adapter = UiProcessAdapter::new(process(vec![a], vec![], vec![], vec![], vec![s]));
    let an = &adapter.ui_nodes[0];
    assert_eq!(an.inputs.len(), 1);
    assert_eq!(an.inputs[0].name, "com.x.IBasket");
    assert_eq!(an.inputs[0].simple_name, "IBasket");
    assert!(an.events.is_empty() && an.states.is_empty());
    let sn = &adapter.ui_nodes[1];
    assert_eq!(sn.events.len(), 1);
    assert_eq!(sn.events[0].simple_name, "Enter");
    assert!(sn.inputs.is_empty() && sn.outputs.is_empty() && sn.outcomes.is_empty());
}

#[test]
fn position_edit_scenario() {
    let adapter = UiProcessAdapter::new(one_action_one_state());
    let edited = adapter.apply_position_edit("A1", "40", "60");
    let a1 = &edited.ui_nodes[0];
    assert_eq!(a1.id, "A1");
    assert_eq!(a1.x.as_deref(), Some("40"));
    assert_eq!(a1.y.as_deref(), Some("60"));
    let s1 = &edited.ui_nodes[1];
    assert_eq!(s1.x.as_deref(), Some("100"));
    assert_eq!(s1.y.as_deref(), Some("200"));
    assert_eq!(link_triples(&edited), vec![(0, 0, 1)]);
    assert_eq!(edited.ui_links[0].id, "L1");
    let (source, target) = edited.link_endpoints(0).unwrap();
    assert_eq!(source.x.as_deref(), Some("40"));
    assert_eq!(source.y.as_deref(), Some("60"));
    assert_eq!(target.x.as_deref(), Some("100"));
    assert!(edited.link_endpoints(1).is_none());
}

#[test]
fn edit_of_unknown_node_changes_nothing() {
    let adapter = UiProcessAdapter::new(one_action_one_state());
    let edited = adapter.apply_position_edit("nope", "1", "2").apply_name_edit("nope", "n");
    assert_eq!(edited.ui_nodes[0].x.as_deref(), Some("10"));
    assert_eq!(edited.ui_nodes[0].name, "A1 name");
    assert_eq!(edited.ui_nodes[1].x.as_deref(), Some("100"));
}

#[test]
fn name_edit_renames_node() {
    let adapter = UiProcessAdapter::new(one_action_one_state());
    let edited = adapter.apply_name_edit("S1", "Waiting");
    assert_eq!(edited.ui_nodes[1].name, "Waiting");
    assert_eq!(edited.ui_nodes[1].x.as_deref(), Some("100"));
    assert_eq!(edited.ui_nodes[0].name, "A1 name");
}

#[test]
fn write_back_then_resolve_again() {
    let mut b = action("B", vec![to_action("L2", "A1")]);
    b.ui_hints = UiHints { entries: vec![Entry { key: "keep".to_string(), value: "me".to_string() }] };
    let mut p = one_action_one_state();
    p.end_process_actions.push(b);
    let adapter = UiProcessAdapter::new(p);
    let edited = adapter
        .apply_position_edit("A1", "40", "60")
        .apply_position_edit("B", "5", "6")
        .apply_name_edit("S1", "Waiting");
    let doc = edited.to_document();
    assert_eq!(doc.actions[0].ui_hints.get_xloc().map(|s| s.as_str()), Some("40"));
    assert_eq!(doc.actions[0].ui_hints.get_yloc().map(|s| s.as_str()), Some("60"));
    assert_eq!(doc.actions[0].ui_hints.entries.len(), 2);
    let b = &doc.end_process_actions[0];
    assert_eq!(b.ui_hints.get_entry("keep").map(|e| e.value.as_str()), Some("me"));
    assert_eq!(b.ui_hints.get_xloc().map(|s| s.as_str()), Some("5"));
    assert_eq!(b.ui_hints.entries.len(), 3);
    assert_eq!(doc.states[0].name, "Waiting");
    let again = UiProcessAdapter::new(doc);
    assert_eq!(ids(&again), vec!["A1", "B", "S1"]);
    assert_eq!(again.ui_nodes[0].x.as_deref(), Some("40"));
    assert_eq!(again.ui_nodes[1].y.as_deref(), Some("6"));
    assert_eq!(again.ui_nodes[2].name, "Waiting");
    assert_eq!(link_triples(&again), vec![(0, 0, 2), (1, 0, 0)]);
}

#[test]
fn write_back_leaves_absent_positions_absent() {
    let p = process(vec![action("A", vec![])], vec![], vec![], vec![], vec![state("S", vec![])]);
    let doc = UiProcessAdapter::new(p).to_document();
    assert!(doc.actions[0].ui_hints.entries.is_empty());
    assert!(doc.states[0].ui_hints.entries.is_empty());
    assert_eq!(doc.actions[0].name, "A name");
}
