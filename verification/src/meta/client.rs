//! The operations every Metadata backend offers.  Each operation that changes
//! the environment takes a `MetaCallContext` carrying the read-only flag, and
//! every backend refuses writes while it is set.

use vstd::prelude::*;
use crate::meta::connection::D365Connection;
use crate::meta::error::MetaResult;
use crate::meta::types::{
    CrossReferenceHit, CrossReferenceRequest, DataEntityView, DeployOutcome, DeployRequest,
    EntityRow, MetaSearchHit, MetaSearchRequest, ModelContents, ObjectSource,
};

verus! {

/// Per-call security context.
#[derive(Debug, Clone, Copy)]
pub struct MetaCallContext {
    pub read_only: bool,
}

impl Default for MetaCallContext {
    fn default() -> (r: Self)
        ensures
            !r.read_only,
    {
        MetaCallContext { read_only: false }
    }
}

pub trait MetadataClient {
    /// Connection metadata (its redacted form is safe for logs).
    fn connection(&self) -> &D365Connection;

    fn get_class(&self, name: &str) -> MetaResult<ObjectSource>;

    fn get_interface(&self, name: &str) -> MetaResult<ObjectSource>;

    fn get_table(&self, name: &str) -> MetaResult<ObjectSource>;

    fn get_job(&self, name: &str) -> MetaResult<ObjectSource>;

    fn get_form(&self, name: &str) -> MetaResult<ObjectSource>;

    fn get_model_contents(&self, model: &str) -> MetaResult<ModelContents>;

    fn get_data_entity(&self, name: &str) -> MetaResult<DataEntityView>;

    fn search(&self, request: MetaSearchRequest) -> MetaResult<Vec<MetaSearchHit>>;

    fn cross_reference(&self, request: CrossReferenceRequest) -> MetaResult<Vec<CrossReferenceHit>>;

    /// Read data-entity contents.  Some environments block bulk entity reads at
    /// policy level; the call then reports `EntityDataBlocked` so the caller can
    /// fall back to the OData path.
    fn get_entity_contents(&self, entity: &str, max_rows: usize) -> MetaResult<Vec<EntityRow>>;

    /// Build and deploy an object.  Refused in read-only mode.
    fn deploy(&self, request: DeployRequest, ctx: MetaCallContext) -> MetaResult<DeployOutcome>;
}

} // verus!
