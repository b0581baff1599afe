//! Transport-independent decisions of the automation server: tool argument
//! defaults and requests, error and audit reporting, prompt texts, argument
//! completion, and the guided write workflows.

pub mod tools;
pub mod prompts;
pub mod completion;
pub mod options;
pub mod workflows;
pub mod resources;
pub mod seed;
pub mod catalogue;
