use process_graph::hints::{UI_HINT_ENTRY_KEY_STYLE, UI_HINT_ENTRY_KEY_XLOC, UI_HINT_ENTRY_KEY_YLOC};
use process_graph::{
    get_simple_name, Entry, EventLink, HandledEvent, HandledEvents, Input, Inputs, LinkTarget,
    MetaData, Outcome, OutcomeLink, Outcomes, Output, Outputs, StateDataType, StateDataTypes,
    UiHints,
};

fn hints(entries: &[(&str, &str)]) -> UiHints {
    UiHints {
        entries: entries
            .iter()
            .map(|(k, v)| Entry { key: k.to_string(), value: v.to_string() })
            .collect(),
    }
}

fn keys_and_values(h: &UiHints) -> Vec<(String, String)> {
    h.entries.iter().map(|e| (e.key.clone(), e.value.clone())).collect()
}

fn empty_meta() -> MetaData {
    MetaData { state_data_types: None, inputs: None, outputs: None, outcomes: None, handled_events: None }
}

#[test]
fn simple_name_of_qualified_name() {
    assert_eq!(get_simple_name("a.b.c"), "c");
}

#[test]
fn simple_name_of_unqualified_name() {
    assert_eq!(get_simple_name("x"), "x");
}

#[test]
fn simple_name_edge_cases() {
    assert_eq!(get_simple_name(""), "");
    assert_eq!(get_simple_name("a.b."), "");
    assert_eq!(get_simple_name(".lead"), "lead");
    assert_eq!(get_simple_name("com.enactor.pos.IItem"), "IItem");
}

#[test]
fn xloc_found_among_other_hints() {
    let h = hints(&[("k1", "v1"), (UI_HINT_ENTRY_KEY_XLOC, "12.5")]);
    assert_eq!(h.get_xloc().map(|s| s.as_str()), Some("12.5"));
    assert_eq!(h.get_yloc(), None);
    assert_eq!(h.get_style(), None);
}

#[test]
fn xloc_absent_without_its_hint() {
    let h = hints(&[("k1", "v1")]);
    assert_eq!(h.get_xloc(), None);
    let empty = hints(&[]);
    assert_eq!(empty.get_xloc(), None);
}

#[test]
fn get_entry_takes_first_of_duplicate_keys() {
    let h = hints(&[("k", "first"), ("other", "o"), ("k", "second")]);
    let e = h.get_entry("k").unwrap();
    assert_eq!(e.value, "first");
    assert!(h.get_entry("missing").is_none());
}

#[test]
fn set_entry_replaces_first_match_in_place() {
    let mut h = hints(&[("a", "1"), ("k", "old"), ("k", "later")]);
    h.set_entry("k", "new");
    assert_eq!(
        keys_and_values(&h),
        vec![
            ("a".to_string(), "1".to_string()),
            ("k".to_string(), "new".to_string()),
            ("k".to_string(), "later".to_string()),
        ]
    );
}

#[test]
fn set_entry_appends_missing_key() {
    let mut h = hints(&[("a", "1")]);
    h.set_entry("b", "2");
    assert_eq!(
        keys_and_values(&h),
        vec![("a".to_string(), "1".to_string()), ("b".to_string(), "2".to_string())]
    );
    assert_eq!(h.get_entry("b").unwrap().value, "2");
}

#[test]
fn reserved_setters_then_getters() {
    let mut h = hints(&[("k1", "v1")]);
    h.set_xloc("40");
    h.set_yloc("60");
    h.set_style("bold");
    assert_eq!(h.get_xloc().map(|s| s.as_str()), Some("40"));
    assert_eq!(h.get_yloc().map(|s| s.as_str()), Some("60"));
    assert_eq!(h.get_style().map(|s| s.as_str()), Some("bold"));
    assert_eq!(h.entries.len(), 4);
    assert_eq!(h.entries[0].key, "k1");
    assert_eq!(h.entries[1].key, UI_HINT_ENTRY_KEY_XLOC);
    assert_eq!(h.entries[2].key, UI_HINT_ENTRY_KEY_YLOC);
    assert_eq!(h.entries[3].key, UI_HINT_ENTRY_KEY_STYLE);
    h.set_xloc("41");
    assert_eq!(h.entries.len(), 4);
    assert_eq!(h.get_xloc().map(|s| s.as_str()), Some("41"));
}

#[test]
fn absent_metadata_sections_are_empty() {
    let m = empty_meta();
    assert!(m.get_inputs_as_strings().is_empty());
    assert!(m.get_outputs_as_strings().is_empty());
    assert!(m.get_outcomes_as_strings().is_empty());
    assert!(m.get_state_data_types_as_strings().is_empty());
    assert!(m.get_handled_events_as_strings().is_empty());
}

#[test]
fn metadata_names_in_order() {
    let m = MetaData {
        state_data_types: Some(StateDataTypes {
            state_data_types: vec![StateDataType {
                required: true,
                name: "sd.One".to_string(),
                interface_name: "I".to_string(),
            }],
        }),
        inputs: Some(Inputs {
            inputs: vec![
                Input { required: false, name: "in.A".to_string(), interface_name: "IA".to_string() },
                Input { required: true, name: "in.B".to_string(), interface_name: "IB".to_string() },
            ],
        }),
        outputs: Some(Outputs {
            outputs: vec![Output { name: "out.C".to_string(), interface_name: "IC".to_string() }],
        }),
        outcomes: Some(Outcomes {
            outcomes: vec![
                Outcome { name: "Success".to_string() },
                Outcome { name: "Fail".to_string() },
            ],
        }),
        handled_events: Some(HandledEvents {
            events: vec![HandledEvent { name: "ev.Enter".to_string() }],
        }),
    };
    assert_eq!(m.get_inputs_as_strings(), vec!["in.A".to_string(), "in.B".to_string()]);
    assert_eq!(m.get_outputs_as_strings(), vec!["out.C".to_string()]);
    assert_eq!(m.get_outcomes_as_strings(), vec!["Success".to_string(), "Fail".to_string()]);
    assert_eq!(m.get_state_data_types_as_strings(), vec!["sd.One".to_string()]);
    assert_eq!(m.get_handled_events_as_strings(), vec!["ev.Enter".to_string()]);
}

#[test]
fn empty_metadata_section_lists_nothing() {
    let m = MetaData {
        state_data_types: None,
        inputs: Some(Inputs { inputs: vec![] }),
        outputs: None,
        outcomes: None,
        handled_events: None,
    };
    assert!(m.get_inputs_as_strings().is_empty());
}

fn outcome_link(to_action: Option<&str>, to_state: Option<&str>) -> OutcomeLink {
    OutcomeLink {
        link_id: "L".to_string(),
        to_state_id: to_state.map(|s| s.to_string()),
        to_action_id: to_action.map(|s| s.to_string()),
        condition: None,
        outcome: "Success".to_string(),
    }
}

#[test]
fn link_target_prefers_action_field() {
    match outcome_link(Some("A"), Some("S")).target() {
        LinkTarget::Action(id) => assert_eq!(id, "A"),
        other => panic!("unexpected target {:?}", other),
    }
}

#[test]
fn link_target_empty_action_field_counts_as_absent() {
    match outcome_link(Some(""), Some("S")).target() {
        LinkTarget::State(id) => assert_eq!(id, "S"),
        other => panic!("unexpected target {:?}", other),
    }
}

#[test]
fn link_target_unconnected() {
    assert!(matches!(outcome_link(None, None).target(), LinkTarget::Unconnected));
    assert!(matches!(outcome_link(Some(""), Some("")).target(), LinkTarget::Unconnected));
    let e = EventLink {
        link_id: "E".to_string(),
        to_state_id: None,
        to_action_id: Some(String::new()),
        condition: None,
        event: "ev".to_string(),
    };
    assert!(matches!(e.target(), LinkTarget::Unconnected));
}
