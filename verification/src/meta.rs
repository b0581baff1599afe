//! Metadata API / X++ (AOT) client layer.

pub mod error;
pub mod types;
pub mod connection;
pub mod client;
pub mod mock;
pub mod http;
