//! Cross-domain knowledge graph: typed entities and edges, and an in-memory store.

pub mod entity;
pub mod store;
