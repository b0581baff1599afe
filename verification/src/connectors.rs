//! The connector surface: readers of X++ objects, flow definitions and solution
//! fact sheets that concrete clients implement, and the errors they report.

use vstd::prelude::*;
use crate::json::Json;
use crate::odata::error::concat2;

verus! {

/// Why a connector read failed.
#[derive(Debug)]
pub enum ConnectorError {
    NotFound(String),
    Upstream(String),
    Auth(String),
}

/// The text of a connector error.
pub open spec fn connector_error_message(e: ConnectorError) -> Seq<char> {
    match e {
        ConnectorError::NotFound(m) => "not found: "@ + m@,
        ConnectorError::Upstream(m) => "upstream error: "@ + m@,
        ConnectorError::Auth(m) => "auth error: "@ + m@,
    }
}

impl ConnectorError {
    /// `not found: …`, `upstream error: …` or `auth error: …`.
    pub fn message(&self) -> (r: String)
        ensures
            r@ == connector_error_message(*self),
    {
        match self {
            ConnectorError::NotFound(m) => concat2("not found: ", m.as_str()),
            ConnectorError::Upstream(m) => concat2("upstream error: ", m.as_str()),
            ConnectorError::Auth(m) => concat2("auth error: ", m.as_str()),
        }
    }
}

/// Reads X++ / AOT objects: the source of object `name` in `model`.
pub trait XppConnector: Send + Sync {
    fn read_object(&self, model: &str, name: &str) -> Result<String, ConnectorError>;
}

/// Reads Power Automate flow / business-process definitions.
pub trait FlowConnector: Send + Sync {
    fn read_definition(&self, process_id: &str) -> Result<String, ConnectorError>;
}

/// Reads Dataverse solution / module fact sheets.
pub trait SolutionConnector: Send + Sync {
    fn read_fact_sheet(&self, id: &str) -> Result<Json, ConnectorError>;
}

} // verus!
