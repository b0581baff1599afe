//! Verified core of a Dynamics 365 Finance & Operations automation toolkit:
//! the OData / Custom Service client layer, the X++ metadata client layer, the
//! cross-domain knowledge graph, and the server-side decision logic around them.

pub mod text;
pub mod json;
pub mod rank;
pub mod odata;
pub mod meta;
pub mod graph;
pub mod server;
pub mod connectors;
