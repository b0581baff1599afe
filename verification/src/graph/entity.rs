//! Typed entities and edges of the cross-domain knowledge graph: a handful of
//! entity families and a small, fixed set of edge kinds.

use vstd::prelude::*;

verus! {

pub type NodeId = String;

#[derive(Debug, Clone, Copy, PartialEq, Eq, Hash, Structural)]
pub enum EntityKind {
    /// X++ object: class, interface, job, form, table, or method.
    XppObject,
    /// Dynamics 365 data entity / backing table.
    DataEntity,
    /// Data-entity field / column.
    Field,
    /// OData action or Custom Service operation.
    Service,
    /// Power Automate flow / business process.
    Flow,
    /// Dataverse solution / Dynamics 365 module.
    Solution,
    /// Microsoft Learn page or section.
    LearnPage,
    /// Business concept (e.g. "period close", "product receipt"): the nodes that let
    /// community summaries cross domains.
    Concept,
}

/// The name of a kind, as statistics report it.
pub open spec fn kind_name(k: EntityKind) -> Seq<char> {
    match k {
        EntityKind::XppObject => "XppObject"@,
        EntityKind::DataEntity => "DataEntity"@,
        EntityKind::Field => "Field"@,
        EntityKind::Service => "Service"@,
        EntityKind::Flow => "Flow"@,
        EntityKind::Solution => "Solution"@,
        EntityKind::LearnPage => "LearnPage"@,
        EntityKind::Concept => "Concept"@,
    }
}

impl EntityKind {
    pub fn name(self) -> (r: &'static str)
        ensures
            r@ == kind_name(self),
    {
        match self {
            EntityKind::XppObject => "XppObject",
            EntityKind::DataEntity => "DataEntity",
            EntityKind::Field => "Field",
            EntityKind::Service => "Service",
            EntityKind::Flow => "Flow",
            EntityKind::Solution => "Solution",
            EntityKind::LearnPage => "LearnPage",
            EntityKind::Concept => "Concept",
        }
    }
}

#[derive(Debug)]
pub struct Entity {
    pub id: NodeId,
    pub kind: EntityKind,
    pub label: String,
    /// Short description, used for community summaries.
    pub description: Option<String>,
    /// Native URI for citation (d365-learn://, xpp-obj://, d365-service://, etc.).
    pub uri: Option<String>,
    /// Arbitrary string-valued tags ("module:GeneralLedger", "model:GTFin", ...).
    pub tags: Vec<String>,
}

#[derive(Debug, Clone, Copy, PartialEq, Eq, Hash, Structural)]
pub enum EdgeKind {
    /// X++ object A calls / invokes B.
    Calls,
    /// X++ class implements interface.
    Implements,
    /// Object uses / references a helper class or shared definition.
    Uses,
    /// Object reads from a data entity.
    ReadsEntity,
    /// Object writes to a data entity.
    WritesEntity,
    /// One entity references / mentions another in its documentation.
    References,
    /// Entity is contained in a parent (class in model, field in entity).
    ContainedIn,
    /// Entity depends on another (flow step depends on service, app depends on entity).
    DependsOn,
    /// Concept describes / categorises an entity.
    Describes,
    /// Free-form relationship, the last resort.
    Related,
}

/// A directed, weighted edge.  Weights are in thousandths: `1000` is a weight of
/// one, the default.
#[derive(Debug)]
pub struct Edge {
    pub from: NodeId,
    pub to: NodeId,
    pub kind: EdgeKind,
    pub weight: u32,
}

/// The weight of an edge that names none: one, in thousandths.
pub fn default_weight() -> (w: u32)
    ensures
        w == 1000,
{
    1000
}

} // verus!
