//! Edges of the positional graph format: links between nodes named by id.

use vstd::prelude::*;

verus! {

/// A link from the node with id `source` to the node with id `target`.
#[derive(Debug)]
pub struct Edge {
    pub id: String,
    pub source: String,
    pub target: String,
}

/// The edge list of a positional graph.
#[derive(Debug)]
pub struct Edges {
    pub edge: Vec<Edge>,
}

} // verus!
