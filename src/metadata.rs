//! Metadata sections: the names of a node's inputs, outputs, outcomes,
//! state-data types and handled events. Every section is optional.

use vstd::prelude::*;

verus! {

/// Typed metadata of the process, of an action or of a state.
#[derive(Debug)]
pub struct MetaData {
    pub state_data_types: Option<StateDataTypes>,
    pub inputs: Option<Inputs>,
    pub outputs: Option<Outputs>,
    pub outcomes: Option<Outcomes>,
    pub handled_events: Option<HandledEvents>,
}

#[derive(Debug)]
pub struct Inputs {
    pub inputs: Vec<Input>,
}

#[derive(Debug)]
pub struct Input {
    pub required: bool,
    pub name: String,
    pub interface_name: String,
}

#[derive(Debug)]
pub struct StateDataTypes {
    pub state_data_types: Vec<StateDataType>,
}

#[derive(Debug)]
pub struct StateDataType {
    pub required: bool,
    pub name: String,
    pub interface_name: String,
}

#[derive(Debug)]
pub struct Outputs {
    pub outputs: Vec<Output>,
}

#[derive(Debug)]
pub struct Output {
    pub name: String,
    pub interface_name: String,
}

#[derive(Debug)]
pub struct Outcomes {
    pub outcomes: Vec<Outcome>,
}

#[derive(Debug)]
pub struct Outcome {
    pub name: String,
}

#[derive(Debug)]
pub struct HandledEvents {
    pub events: Vec<HandledEvent>,
}

#[derive(Debug)]
pub struct HandledEvent {
    pub name: String,
}

/// The characters of each string, in order.
pub open spec fn texts(v: Seq<String>) -> Seq<Seq<char>> {
    v.map_values(|s: String| s@)
}

/// Names of the inputs section; empty when the section is absent.
pub open spec fn input_names(m: MetaData) -> Seq<Seq<char>> {
    match m.inputs {
        Some(s) => s.inputs@.map_values(|x: Input| x.name@),
        None => Seq::empty(),
    }
}

/// Names of the outputs section; empty when the section is absent.
pub open spec fn output_names(m: MetaData) -> Seq<Seq<char>> {
    match m.outputs {
        Some(s) => s.outputs@.map_values(|x: Output| x.name@),
        None => Seq::empty(),
    }
}

/// Names of the outcomes section; empty when the section is absent.
pub open spec fn outcome_names(m: MetaData) -> Seq<Seq<char>> {
    match m.outcomes {
        Some(s) => s.outcomes@.map_values(|x: Outcome| x.name@),
        None => Seq::empty(),
    }
}

/// Names of the state-data-types section; empty when the section is absent.
pub open spec fn state_data_type_names(m: MetaData) -> Seq<Seq<char>> {
    match m.state_data_types {
        Some(s) => s.state_data_types@.map_values(|x: StateDataType| x.name@),
        None => Seq::empty(),
    }
}

/// Names of the handled-events section; empty when the section is absent.
pub open spec fn handled_event_names(m: MetaData) -> Seq<Seq<char>> {
    match m.handled_events {
        Some(s) => s.events@.map_values(|x: HandledEvent| x.name@),
        None => Seq::empty(),
    }
}

impl MetaData {
    /// The names of the inputs, in order.
    pub fn get_inputs_as_strings(&self) -> (r: Vec<String>)
        ensures
            texts(r@) == input_names(*self),
    {
        let mut out: Vec<String> = Vec::new();
        if let Some(section) = &self.inputs {
            let mut i: usize = 0;
            while i < section.inputs.len()
                invariant
                    self.inputs == Some(*section),
                    i <= section.inputs@.len(),
                    out@.len() == i,
                    forall|j: int| 0 <= j < i ==> out@[j]@ == input_names(*self)[j],
                decreases section.inputs@.len() - i,
            {
                out.push(section.inputs[i].name.clone());
                i += 1;
            }
            assert(texts(out@) =~= input_names(*self));
        } else {
            assert(texts(out@) =~= input_names(*self));
        }
        out
    }

    /// The names of the outputs, in order.
    pub fn get_outputs_as_strings(&self) -> (r: Vec<String>)
        ensures
            texts(r@) == output_names(*self),
    {
        let mut out: Vec<String> = Vec::new();
        if let Some(section) = &self.outputs {
            let mut i: usize = 0;
            while i < section.outputs.len()
                invariant
                    self.outputs == Some(*section),
                    i <= section.outputs@.len(),
                    out@.len() == i,
                    forall|j: int| 0 <= j < i ==> out@[j]@ == output_names(*self)[j],
                decreases section.outputs@.len() - i,
            {
                out.push(section.outputs[i].name.clone());
                i += 1;
            }
            assert(texts(out@) =~= output_names(*self));
        } else {
            assert(texts(out@) =~= output_names(*self));
        }
        out
    }

    /// The names of the outcomes, in order.
    pub fn get_outcomes_as_strings(&self) -> (r: Vec<String>)
        ensures
            texts(r@) == outcome_names(*self),
    {
        let mut out: Vec<String> = Vec::new();
        if let Some(section) = &self.outcomes {
            let mut i: usize = 0;
            while i < section.outcomes.len()
                invariant
                    self.outcomes == Some(*section),
                    i <= section.outcomes@.len(),
                    out@.len() == i,
                    forall|j: int| 0 <= j < i ==> out@[j]@ == outcome_names(*self)[j],
                decreases section.outcomes@.len() - i,
            {
                out.push(section.outcomes[i].name.clone());
                i += 1;
            }
            assert(texts(out@) =~= outcome_names(*self));
        } else {
            assert(texts(out@) =~= outcome_names(*self));
        }
        out
    }

    /// The names of the state-data types, in order.
    pub fn get_state_data_types_as_strings(&self) -> (r: Vec<String>)
        ensures
            texts(r@) == state_data_type_names(*self),
    {
        let mut out: Vec<String> = Vec::new();
        if let Some(section) = &self.state_data_types {
            let mut i: usize = 0;
            while i < section.state_data_types.len()
                invariant
                    self.state_data_types == Some(*section),
                    i <= section.state_data_types@.len(),
                    out@.len() == i,
                    forall|j: int| 0 <= j < i ==> out@[j]@ == state_data_type_names(*self)[j],
                decreases section.state_data_types@.len() - i,
            {
                out.push(section.state_data_types[i].name.clone());
                i += 1;
            }
            assert(texts(out@) =~= state_data_type_names(*self));
        } else {
            assert(texts(out@) =~= state_data_type_names(*self));
        }
        out
    }

    /// The names of the handled events, in order.
    pub fn get_handled_events_as_strings(&self) -> (r: Vec<String>)
        ensures
            texts(r@) == handled_event_names(*self),
    {
        let mut out: Vec<String> = Vec::new();
        if let Some(section) = &self.handled_events {
            let mut i: usize = 0;
            while i < section.events.len()
                invariant
                    self.handled_events == Some(*section),
                    i <= section.events@.len(),
                    out@.len() == i,
                    forall|j: int| 0 <= j < i ==> out@[j]@ == handled_event_names(*self)[j],
                decreases section.events@.len() - i,
            {
                out.push(section.events[i].name.clone());
                i += 1;
            }
            assert(texts(out@) =~= handled_event_names(*self));
        } else {
            assert(texts(out@) =~= handled_event_names(*self));
        }
        out
    }
}

} // verus!
