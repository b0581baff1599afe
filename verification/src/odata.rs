//! OData v4 / Custom Service client layer.

pub mod error;
pub mod infolog;
pub mod client;
pub mod credentials;
pub mod filter;
pub mod transaction;
pub mod pool;
pub mod metadata_cache;
pub mod fixtures;
pub mod mock;
pub mod http;
pub mod token;
pub mod live;
