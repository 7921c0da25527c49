//! Resolution engine for business-process definition documents: a typed
//! document model, accessors over its position hints and metadata, and the
//! resolver that flattens actions and states into one indexed node/link graph.

pub mod document;
pub mod edit;
pub mod graph;
pub mod hints;
pub mod lookup;
pub mod metadata;
pub mod names;
pub mod resolution_lemmas;
pub mod resolver;

pub use document::{
    Action, ActionMapping, ActionMappings, DataType, EventLink, LinkTarget, Mapping, Mappings,
    NodeClass, OutcomeLink, Process, ProcessMappings, State, StateMappings,
};
pub use graph::{Edge, Edges};
pub use hints::{Entry, UiHints};
pub use names::get_simple_name;
pub use metadata::{
    HandledEvent, HandledEvents, Input, Inputs, MetaData, Outcome, Outcomes, Output, Outputs,
    StateDataType, StateDataTypes,
};
pub use resolver::{
    find_ui_node_index_by_id, node_indexes_of_class, GraphLink, GraphNode, SectionItem, UiProcessAdapter,
};
