//! The process-definition document: process metadata, actions in four
//! categories, states, and the outcome/event links between them.

use vstd::prelude::*;

use crate::hints::UiHints;
use crate::metadata::MetaData;

verus! {

/// The two kinds of node in a process graph.
#[derive(Clone, Copy, Debug, PartialEq, Eq, Structural)]
pub enum NodeClass {
    Action,
    State,
}

/// Where a link leads: nowhere, to an action, or to a state (by id).
#[derive(Debug)]
pub enum LinkTarget {
    Unconnected,
    Action(String),
    State(String),
}

/// The kind and id of a link's target, as a pair of plain values.
pub open spec fn target_key(t: LinkTarget) -> Option<(NodeClass, Seq<char>)> {
    match t {
        LinkTarget::Unconnected => None,
        LinkTarget::Action(id) => Some((NodeClass::Action, id@)),
        LinkTarget::State(id) => Some((NodeClass::State, id@)),
    }
}

/// The target named by a link's two optional fields. The action field is
/// read first, then the state field; an empty id counts as absent.
pub open spec fn target_of(to_action_id: Option<String>, to_state_id: Option<String>) -> Option<
    (NodeClass, Seq<char>),
> {
    if to_action_id is Some && to_action_id->0@.len() > 0 {
        Some((NodeClass::Action, to_action_id->0@))
    } else if to_state_id is Some && to_state_id->0@.len() > 0 {
        Some((NodeClass::State, to_state_id->0@))
    } else {
        None
    }
}

/// The tagged target of a pair of optional target fields.
fn target_from_fields(to_action_id: &Option<String>, to_state_id: &Option<String>) -> (r: LinkTarget)
    ensures
        target_key(r) == target_of(*to_action_id, *to_state_id),
{
    if let Some(a) = to_action_id {
        if !a.as_str().is_empty() {
            return LinkTarget::Action(a.clone());
        }
    }
    if let Some(s) = to_state_id {
        if !s.as_str().is_empty() {
            return LinkTarget::State(s.clone());
        }
    }
    LinkTarget::Unconnected
}

/// An action's outbound transition, labelled by an outcome name.
#[derive(Debug)]
pub struct OutcomeLink {
    pub link_id: String,
    pub to_state_id: Option<String>,
    pub to_action_id: Option<String>,
    pub condition: Option<String>,
    pub outcome: String,
}

impl OutcomeLink {
    /// Where this link leads.
    pub fn target(&self) -> (r: LinkTarget)
        ensures
            target_key(r) == target_of(self.to_action_id, self.to_state_id),
    {
        target_from_fields(&self.to_action_id, &self.to_state_id)
    }
}

/// A state's outbound transition, labelled by an event name.
#[derive(Debug)]
pub struct EventLink {
    pub link_id: String,
    pub to_state_id: Option<String>,
    pub to_action_id: Option<String>,
    pub condition: Option<String>,
    pub event: String,
}

impl EventLink {
    /// Where this link leads.
    pub fn target(&self) -> (r: LinkTarget)
        ensures
            target_key(r) == target_of(self.to_action_id, self.to_state_id),
    {
        target_from_fields(&self.to_action_id, &self.to_state_id)
    }
}

/// An action of any of the four categories.
#[derive(Debug)]
pub struct Action {
    pub default_next_state_id: Option<String>,
    pub action_id: String,
    pub name: String,
    pub class_name: String,
    pub ui_hints: UiHints,
    pub meta_data: MetaData,
    pub outcome_links: Vec<OutcomeLink>,
}

/// A wait point of the process that reacts to events.
#[derive(Debug)]
pub struct State {
    pub url: String,
    pub state_id: String,
    pub name: String,
    pub class_name: String,
    pub default_next_state_id: Option<String>,
    pub ui_hints: UiHints,
    pub meta_data: MetaData,
    pub type_id: String,
    pub single_instance: bool,
    pub respond_to_view_events: bool,
    pub action_input_mappings: ActionMappings,
    pub action_output_mappings: ActionMappings,
    pub event_links: Vec<EventLink>,
}

#[derive(Debug)]
pub struct ActionMappings {
    pub mappings: Vec<ActionMapping>,
}

#[derive(Debug)]
pub struct ActionMapping {
    pub action_id: String,
    pub mappings: Mappings,
}

#[derive(Debug)]
pub struct Mappings {
    pub process_mappings: ProcessMappings,
    pub state_mappings: StateMappings,
}

#[derive(Debug)]
pub struct ProcessMappings {
    pub mappings: Vec<Mapping>,
}

#[derive(Debug)]
pub struct StateMappings {
    pub mappings: Vec<Mapping>,
}

#[derive(Debug)]
pub struct Mapping {
    pub source_data_type: Option<DataType>,
    pub target_data_type: Option<DataType>,
    pub expression: Option<String>,
}

#[derive(Debug)]
pub struct DataType {
    pub required: bool,
    pub name: String,
    pub interface_name: String,
}

/// A whole process definition.
#[derive(Debug)]
pub struct Process {
    pub xmlns_core: String,
    pub xmlns_ns5: String,
    pub xmlns_ns7: String,
    pub xmlns_retail: String,
    pub xmlns_sref: String,
    pub xmlns_tools: String,
    pub process_id: String,
    pub version: String,
    pub name: Option<String>,
    pub default_message_base_name: Option<String>,
    pub first_state_id: String,
    pub class_name: Option<String>,
    pub ui_hints: UiHints,
    pub meta_data: MetaData,
    pub states: Vec<State>,
    pub actions: Vec<Action>,
    pub end_process_actions: Vec<Action>,
    pub execute_process_actions: Vec<Action>,
    pub assign_actions: Vec<Action>,
}

/// All actions in the fixed category order: plain, end-process,
/// execute-process, assign.
pub open spec fn all_actions(p: Process) -> Seq<Action> {
    p.actions@ + p.end_process_actions@ + p.execute_process_actions@ + p.assign_actions@
}

/// Appends a reference to each action of `from` to `to`.
fn extend_refs<'a>(to: &mut Vec<&'a Action>, from: &'a Vec<Action>)
    ensures
        final(to)@.len() == old(to)@.len() + from@.len(),
        forall|i: int| 0 <= i < old(to)@.len() ==> *final(to)@[i] == *old(to)@[i],
        forall|i: int| 0 <= i < from@.len() ==> *final(to)@[old(to)@.len() + i] == from@[i],
{
    let mut i: usize = 0;
    while i < from.len()
        invariant
            i <= from@.len(),
            to@.len() == old(to)@.len() + i,
            forall|j: int| 0 <= j < old(to)@.len() ==> *to@[j] == *old(to)@[j],
            forall|j: int| 0 <= j < i ==> *to@[old(to)@.len() + j] == from@[j],
        decreases from@.len() - i,
    {
        to.push(&from[i]);
        i += 1;
    }
}

impl Process {
    /// All actions, plain first, then end-process, execute-process and
    /// assign actions, each category in document order.
    pub fn get_all_actions(&self) -> (r: Vec<&Action>)
        ensures
            r@.len() == all_actions(*self).len(),
            forall|i: int| 0 <= i < r@.len() ==> *r@[i] == all_actions(*self)[i],
    {
        let mut all: Vec<&Action> = Vec::new();
        extend_refs(&mut all, &self.actions);
        extend_refs(&mut all, &self.end_process_actions);
        extend_refs(&mut all, &self.execute_process_actions);
        extend_refs(&mut all, &self.assign_actions);
        all
    }

    /// All states in document order.
    pub fn get_all_states(&self) -> (r: Vec<&State>)
        ensures
            r@.len() == self.states@.len(),
            forall|i: int| 0 <= i < r@.len() ==> *r@[i] == self.states@[i],
    {
        let mut all: Vec<&State> = Vec::new();
        let mut i: usize = 0;
        while i < self.states.len()
            invariant
                i <= self.states@.len(),
                all@.len() == i,
                forall|j: int| 0 <= j < i ==> *all@[j] == self.states@[j],
            decreases self.states@.len() - i,
        {
            all.push(&self.states[i]);
            i += 1;
        }
        all
    }
}

} // verus!
