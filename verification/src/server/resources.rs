//! The catalogue of read-only resources the server publishes at startup.

use vstd::prelude::*;
use crate::json::owned;
use crate::odata::error::{concat2, concat3};

verus! {

/// A published resource: its URI, name, description and MIME type.
#[derive(Debug)]
pub struct ResourceInfo {
    pub uri: String,
    pub name: String,
    pub description: String,
    pub mime_type: String,
}

/// URI, name, description and MIME type of a resource.
pub type ResourceV = (Seq<char>, Seq<char>, Seq<char>, Seq<char>);

impl View for ResourceInfo {
    type V = ResourceV;

    open spec fn view(&self) -> ResourceV {
        (self.uri@, self.name@, self.description@, self.mime_type@)
    }
}

pub open spec fn env_entry() -> ResourceV {
    (
        "d365-env://info"@,
        "Dynamics 365 environment identity"@,
        "Live environment, legal entity, version, base URL, and identity. JSON."@,
        "application/json"@,
    )
}

pub open spec fn entity_entry(entity: Seq<char>) -> ResourceV {
    (
        "d365-entity://"@ + entity + "/structure"@,
        "Structure of "@ + entity,
        "Field metadata for data entity "@ + entity + "."@,
        "application/json"@,
    )
}

pub open spec fn service_entry(operation: Seq<char>) -> ResourceV {
    (
        "d365-service://"@ + operation,
        "Service metadata: "@ + operation,
        "Parameter signature, read-only flag, and security for "@ + operation + "."@,
        "application/json"@,
    )
}

pub open spec fn meta_entry() -> ResourceV {
    (
        "d365-meta://info"@,
        "Metadata connection"@,
        "Redacted view of the configured Metadata API connection (name, base URL, legal entity, auth type)."@,
        "application/json"@,
    )
}

pub open spec fn cache_entry() -> ResourceV {
    (
        "d365-cache://stats"@,
        "Service metadata cache stats"@,
        "Live hit/miss counters for the service-metadata cache. JSON."@,
        "application/json"@,
    )
}

pub open spec fn agents_entry() -> ResourceV {
    (
        "agents://guardrails"@,
        "Agent guardrails"@,
        "Project-local AGENTS.md, surfaced from disk on server start."@,
        "text/markdown"@,
    )
}

/// The published resources in order: the environment identity, the structure of
/// each seeded entity, the metadata of each seeded operation, the metadata
/// connection, then the cache counters when the cache is enabled and the agent
/// guardrails when an AGENTS.md was loaded.
pub open spec fn catalogue_spec(cache_enabled: bool, has_agents_md: bool) -> Seq<ResourceV> {
    seq![
        env_entry(),
        entity_entry("CompaniesV2"@),
        entity_entry("ReleasedProductsV2"@),
        entity_entry("LedgerJournalTrans"@),
        entity_entry("GeneralJournalAccountEntry"@),
        service_entry("EnvironmentInfo"@),
        service_entry("ReleasedProductGetDetail"@),
        service_entry("LedgerGeneralJournalEntryPost"@),
        service_entry("PurchaseOrderCreate"@),
        service_entry("SalesOrderCreate"@),
        service_entry("CustomerMaintain"@),
        meta_entry(),
    ] + (if cache_enabled {
        seq![cache_entry()]
    } else {
        seq![]
    }) + (if has_agents_md {
        seq![agents_entry()]
    } else {
        seq![]
    })
}

fn info(uri: String, name: String, description: String, mime_type: &str) -> (r: ResourceInfo)
    ensures
        r@ == (uri@, name@, description@, mime_type@),
{
    ResourceInfo { uri, name, description, mime_type: owned(mime_type) }
}

fn entity_resource(entity: &str) -> (r: ResourceInfo)
    ensures
        r@ == entity_entry(entity@),
{
    info(
        concat3("d365-entity://", entity, "/structure"),
        concat2("Structure of ", entity),
        concat3("Field metadata for data entity ", entity, "."),
        "application/json",
    )
}

fn service_resource(operation: &str) -> (r: ResourceInfo)
    ensures
        r@ == service_entry(operation@),
{
    info(
        concat2("d365-service://", operation),
        concat2("Service metadata: ", operation),
        concat3("Parameter signature, read-only flag, and security for ", operation, "."),
        "application/json",
    )
}

/// The resources to publish, given whether the metadata cache is enabled and
/// whether an AGENTS.md was loaded.
pub fn resource_catalogue(cache_enabled: bool, has_agents_md: bool) -> (r: Vec<ResourceInfo>)
    ensures
        r@.map_values(|x: ResourceInfo| x@) == catalogue_spec(cache_enabled, has_agents_md),
{
    let mut out: Vec<ResourceInfo> = Vec::new();
    out.push(
        info(
            owned("d365-env://info"),
            owned("Dynamics 365 environment identity"),
            owned("Live environment, legal entity, version, base URL, and identity. JSON."),
            "application/json",
        ),
    );
    out.push(entity_resource("CompaniesV2"));
    out.push(entity_resource("ReleasedProductsV2"));
    out.push(entity_resource("LedgerJournalTrans"));
    out.push(entity_resource("GeneralJournalAccountEntry"));
    out.push(service_resource("EnvironmentInfo"));
    out.push(service_resource("ReleasedProductGetDetail"));
    out.push(service_resource("LedgerGeneralJournalEntryPost"));
    out.push(service_resource("PurchaseOrderCreate"));
    out.push(service_resource("SalesOrderCreate"));
    out.push(service_resource("CustomerMaintain"));
    out.push(
        info(
            owned("d365-meta://info"),
            owned("Metadata connection"),
            owned(
                "Redacted view of the configured Metadata API connection (name, base URL, legal entity, auth type).",
            ),
            "application/json",
        ),
    );
    if cache_enabled {
        out.push(
            info(
                owned("d365-cache://stats"),
                owned("Service metadata cache stats"),
                owned("Live hit/miss counters for the service-metadata cache. JSON."),
                "application/json",
            ),
        );
    }
    if has_agents_md {
        out.push(
            info(
                owned("agents://guardrails"),
                owned("Agent guardrails"),
                owned("Project-local AGENTS.md, surfaced from disk on server start."),
                "text/markdown",
            ),
        );
    }
    proof {
        assert(out@.map_values(|x: ResourceInfo| x@) =~= catalogue_spec(
            cache_enabled,
            has_agents_md,
        ));
    }
    out
}

} // verus!
