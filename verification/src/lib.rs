//! Core of a versioned, content-addressed property graph: per-node causal
//! history as vector clocks, content digests over a node's own payload, and
//! the ordering node weight that keeps a container's children in a canonical
//! sequence across concurrent branch edits.

pub mod change_set;
pub mod component;
pub mod content_hash;
pub mod council;
pub mod diagram;
pub mod identifier;
pub mod merge;
pub mod ordering_node_weight;
pub mod schema_variant;
pub mod vector_clock;
