//! The decisions of the live Finance & Operations client.  Metadata, search and
//! entity structure are served from the curated catalogue, so the read-only
//! safety annotations and security stay stable; entity reads and service calls go
//! to the live environment, and what they send is decided here.

use vstd::prelude::*;
use crate::json::owned;
use crate::text::{trim_end_char, decimal, decimal_text, strings_view};
use crate::odata::client::{
    BulkMetadata, EntityStructure, EnvironmentInfo, ReadEntityRequest, ServiceOperationMeta,
    ServiceSearchResult, MAX_ROWS_HARD_CAP,
};
use crate::odata::credentials::EnvVars;
use crate::odata::error::{D365Error, D365Result};
use crate::odata::fixtures::{seed_entity_structures, seed_operations};
use crate::odata::http::{
    HttpD365Config, DEFAULT_AUTHORITY, blank_field_message, build_odata_query, odata_query_spec,
    pairs_view, quotable, quoted_body, truncate,
};
use crate::odata::mock::{
    op_index, search_result, found_ops, missing_ops, modifies_state_refusal, metas_view,
    search_operations, lookup_operation, bulk_lookup, find_op,
};

verus! {

/// The config `D365_*` variables describe: `None` without a non-empty
/// `D365_RESOURCE`; missing tenant, client id and secret read as empty, a missing
/// legal entity as `USMF`; the public cloud and a 30 s timeout.
pub open spec fn env_config_matches(vars: EnvVars, c: HttpD365Config) -> bool {
    &&& vars.resource matches Some(r) && c.resource@ == r@
    &&& c.tenant_id@ == opt_text(vars.tenant_id, Seq::<char>::empty())
    &&& c.client_id@ == opt_text(vars.client_id, Seq::<char>::empty())
    &&& c.client_secret@ == opt_text(vars.client_secret, Seq::<char>::empty())
    &&& c.legal_entity@ == opt_text(vars.legal_entity, "USMF"@)
    &&& c.authority_base@ == DEFAULT_AUTHORITY@
    &&& c.timeout_secs == 30
}

pub open spec fn opt_text(v: Option<String>, default: Seq<char>) -> Seq<char> {
    match v {
        Some(s) => s@,
        None => default,
    }
}

fn text_or(v: Option<String>, default: &str) -> (r: String)
    ensures
        r@ == opt_text(v, default@),
{
    match v {
        Some(s) => s,
        None => owned(default),
    }
}

/// The live config the environment variables describe, if `D365_RESOURCE` is set
/// and non-empty.
pub fn config_from_env(vars: EnvVars) -> (r: Option<HttpD365Config>)
    ensures
        match r {
            Some(c) => env_config_matches(vars, c),
            None => vars.resource matches Some(s) ==> s@.len() == 0,
        },
{
    let ghost v = vars;
    let resource = match vars.resource {
        Some(s) => s,
        None => {
            return None;
        },
    };
    if crate::text::chars_of(resource.as_str()).len() == 0 {
        return None;
    }
    proof {
        reveal_strlit("");
        assert(""@ =~= Seq::<char>::empty());
    }
    Some(
        HttpD365Config {
            resource,
            tenant_id: text_or(vars.tenant_id, ""),
            client_id: text_or(vars.client_id, ""),
            client_secret: text_or(vars.client_secret, ""),
            legal_entity: text_or(vars.legal_entity, "USMF"),
            authority_base: owned(DEFAULT_AUTHORITY),
            timeout_secs: 30,
        },
    )
}

/// Whether the first catalogued structure named `name` is company-scoped; `false`
/// for an entity the catalogue does not know.
pub open spec fn scoped_flag(es: Seq<EntityStructure>, name: Seq<char>) -> bool
    decreases es.len(),
{
    if es.len() == 0 {
        false
    } else if es[0].entity@ == name {
        es[0].company_scoped
    } else {
        scoped_flag(es.drop_first(), name)
    }
}

/// Index of the first catalogued structure named `name`.
pub open spec fn structure_index(es: Seq<EntityStructure>, name: Seq<char>) -> Option<int>
    decreases es.len(),
{
    if es.len() == 0 {
        None
    } else if es[0].entity@ == name {
        Some(0)
    } else {
        match structure_index(es.drop_first(), name) {
            Some(i) => Some(i + 1),
            None => None,
        }
    }
}

proof fn lemma_structure_index(es: Seq<EntityStructure>, name: Seq<char>)
    ensures
        match structure_index(es, name) {
            Some(i) => 0 <= i < es.len() && es[i].entity@ == name && scoped_flag(es, name)
                == es[i].company_scoped && forall|k: int| 0 <= k < i ==> es[k].entity@ != name,
            None => !scoped_flag(es, name) && forall|k: int|
                0 <= k < es.len() ==> es[k].entity@ != name,
        },
    decreases es.len(),
{
    if es.len() > 0 {
        lemma_structure_index(es.drop_first(), name);
        if es[0].entity@ != name {
            match structure_index(es.drop_first(), name) {
                Some(i) => {
                    assert forall|k: int| 0 <= k < i + 1 implies es[k].entity@ != name by {
                        if k > 0 {
                            assert(es[k] == es.drop_first()[k - 1]);
                        }
                    }
                },
                None => {
                    assert forall|k: int| 0 <= k < es.len() implies es[k].entity@ != name by {
                        if k > 0 {
                            assert(es[k] == es.drop_first()[k - 1]);
                        }
                    }
                },
            }
        }
    }
}

fn find_structure(es: &Vec<EntityStructure>, name: &str) -> (r: Option<usize>)
    ensures
        match r {
            Some(i) => i < es@.len() && structure_index(es@, name@) == Some(i as int),
            None => structure_index(es@, name@) is None,
        },
{
    proof {
        lemma_structure_index(es@, name@);
    }
    let mut i: usize = 0;
    while i < es.len()
        invariant
            i <= es@.len(),
            forall|k: int| 0 <= k < i ==> es@[k].entity@ != name@,
        decreases es.len() - i,
    {
        if crate::json::str_eq(es[i].entity.as_str(), name) {
            proof {
                lemma_structure_index(es@, name@);
                match structure_index(es@, name@) {
                    Some(j) => {
                        if j > i {
                        } else if j < i {
                            assert(es@[j].entity@ != name@);
                        }
                    },
                    None => {
                        assert(es@[i as int].entity@ != name@);
                    },
                }
            }
            return Some(i);
        }
        i = i + 1;
    }
    proof {
        match structure_index(es@, name@) {
            Some(j) => {
                assert(es@[j].entity@ != name@);
            },
            None => {},
        }
    }
    None
}

/// The refusal in read-only mode of an operation the catalogue does not know.
pub open spec fn undeclared_refusal(operation: Seq<char>) -> Seq<char> {
    "operation '"@ + operation + "' is not declared read-only; not callable in read-only mode"@
}

/// Whether the catalogue declares the operation read-only.
pub open spec fn declared_read_only(ops: Seq<ServiceOperationMeta>, operation: Seq<char>) -> bool {
    match op_index(ops, operation) {
        Some(i) => ops[i].read_only,
        None => false,
    }
}

/// The live client's config and curated catalogue.
pub struct HttpD365Client {
    config: HttpD365Config,
    operations: Vec<ServiceOperationMeta>,
    entities: Vec<EntityStructure>,
}

/// The URL of an OData path of a resource.
pub open spec fn data_url_spec(resource: Seq<char>, path: Seq<char>) -> Seq<char> {
    trim_end_char(resource, '/') + "/data/"@ + path
}

/// The refusal of a token endpoint failure.
pub open spec fn token_failure_spec(status: u16, body: Seq<char>) -> Seq<char> {
    "token endpoint "@ + decimal(status as nat) + ": "@ + quoted_body(body)
}

/// The error of a token endpoint answering with a failure status.
pub fn token_failure(status: u16, body: &str) -> (e: D365Error)
    requires
        quotable(body@),
    ensures
        e matches D365Error::AuthFailed(m) && m@ == token_failure_spec(status, body@),
{
    let mut m = owned("token endpoint ");
    m.append(decimal_text(status as u64).as_str());
    m.append(": ");
    m.append(truncate(body).as_str());
    D365Error::AuthFailed(m)
}

impl HttpD365Client {
    pub closed spec fn config_resource(&self) -> Seq<char> {
        self.config.resource@
    }

    pub closed spec fn config_legal_entity(&self) -> Seq<char> {
        self.config.legal_entity@
    }

    /// The curated operations.
    pub closed spec fn catalogue(&self) -> Seq<ServiceOperationMeta> {
        self.operations@
    }

    /// The curated entity structures.
    pub closed spec fn structures(&self) -> Seq<EntityStructure> {
        self.entities@
    }

    /// A client for a valid config over the curated catalogue; a config with a
    /// blank resource, tenant, client id or secret is refused.
    pub fn new(config: HttpD365Config) -> (r: D365Result<Self>)
        ensures
            match blank_field_message(
                config.resource@,
                config.tenant_id@,
                config.client_id@,
                config.client_secret@,
            ) {
                Some(m) => r matches Err(D365Error::AuthFailed(e)) && e@ == m,
                None => r matches Ok(c) && c.config_resource() == config.resource@
                    && c.config_legal_entity() == config.legal_entity@
                    && c.catalogue().map_values(|o: ServiceOperationMeta| o.operation@) == seq![
                    "EnvironmentInfo"@,
                    "ReleasedProductGetDetail"@,
                    "LedgerGeneralJournalEntryPost"@,
                    "InventoryProductReceiptPost"@,
                    "PurchaseOrderCreate"@,
                    "SalesOrderCreate"@,
                    "CustomerMaintain"@,
                ] && c.catalogue().map_values(|o: ServiceOperationMeta| o.read_only) == seq![
                    true,
                    true,
                    false,
                    false,
                    false,
                    false,
                    false,
                ] && c.structures().map_values(|e: EntityStructure| e.entity@) == seq![
                    "CompaniesV2"@,
                    "FiscalCalendarPeriod"@,
                    "ReleasedProductsV2"@,
                    "LedgerJournalTrans"@,
                    "GeneralJournalAccountEntry"@,
                    "CustomersV3"@,
                    "SalesOrderHeadersV2"@,
                ] && c.structures().map_values(|e: EntityStructure| e.company_scoped) == seq![
                    false,
                    true,
                    true,
                    true,
                    true,
                    true,
                    true,
                ],
            },
    {
        match config.validate() {
            Ok(()) => {},
            Err(e) => {
                return Err(e);
            },
        }
        Ok(
            HttpD365Client {
                config,
                operations: seed_operations(),
                entities: seed_entity_structures(),
            },
        )
    }

    /// The client's config.
    pub fn config(&self) -> (c: &HttpD365Config)
        ensures
            c.resource@ == self.config_resource(),
            c.legal_entity@ == self.config_legal_entity(),
    {
        &self.config
    }

    /// The URL of an OData path of the environment.
    pub fn data_url(&self, path: &str) -> (r: String)
        ensures
            r@ == data_url_spec(self.config_resource(), path@),
    {
        self.config.data_url(path)
    }

    /// The environment the client reports, with the given role (`PROD` when the
    /// environment names none).
    pub fn environment_info(&self, role: Option<String>) -> (r: EnvironmentInfo)
        ensures
            r.legal_entity@ == self.config_legal_entity(),
            r.base_url@ == self.config_resource(),
            r.environment_role@ == opt_text(role, "PROD"@),
            r.version@ == "Dynamics 365 Finance & Operations (live)"@,
    {
        self.config.environment_info(text_or(role, "PROD"))
    }

    /// Search the curated catalogue.
    pub fn search_service(&self, query: &str, limit: usize) -> (r: ServiceSearchResult)
        ensures
            r.query@ == query@,
            search_result(self.catalogue(), query@, limit, r.hits@),
    {
        search_operations(&self.operations, query, limit)
    }

    /// The curated metadata of an operation.
    pub fn service_metadata(&self, operation: &str) -> (r: D365Result<ServiceOperationMeta>)
        ensures
            match op_index(self.catalogue(), operation@) {
                Some(i) => r matches Ok(m) && m@ == self.catalogue()[i]@,
                None => r matches Err(D365Error::NotFound(n)) && n@ == operation@,
            },
    {
        lookup_operation(&self.operations, operation)
    }

    /// The curated metadata of several operations, and the names not catalogued.
    pub fn bulk_service_metadata(&self, operations: &[String], language: &str) -> (b:
        BulkMetadata)
        ensures
            b.language@ == language@,
            metas_view(b.operations@) == found_ops(self.catalogue(), strings_view(operations@)),
            strings_view(b.missing@) == missing_ops(self.catalogue(), strings_view(operations@)),
    {
        bulk_lookup(&self.operations, operations, language)
    }

    /// The curated structure of an entity.
    pub fn entity_structure(&self, entity: &str) -> (r: D365Result<EntityStructure>)
        ensures
            match structure_index(self.structures(), entity@) {
                Some(i) => r matches Ok(s) && s@ == self.structures()[i]@,
                None => r matches Err(D365Error::NotFound(n)) && n@ == entity@,
            },
    {
        match find_structure(&self.entities, entity) {
            Some(i) => Ok(self.entities[i].duplicate()),
            None => Err(D365Error::NotFound(owned(entity))),
        }
    }

    /// Where a service call is posted, after the read-only gate: in read-only
    /// mode only an operation the catalogue declares read-only goes through; any
    /// other, catalogued or not, is refused before anything is sent.
    pub fn call_target(&self, operation: &str, read_only_mode: bool) -> (r: D365Result<String>)
        ensures
            read_only_mode && !declared_read_only(self.catalogue(), operation@) ==> (r matches Err(
                D365Error::PermissionDenied(m),
            ) && m@ == (if op_index(self.catalogue(), operation@) is Some {
                modifies_state_refusal(operation@)
            } else {
                undeclared_refusal(operation@)
            })),
            !(read_only_mode && !declared_read_only(self.catalogue(), operation@)) ==> (r matches Ok(
                url,
            ) && url@ == data_url_spec(self.config_resource(), operation@)),
    {
        let known = find_op(&self.operations, operation);
        let safe = match known {
            Some(i) => self.operations[i].read_only,
            None => false,
        };
        if read_only_mode && !safe {
            let mut m = owned("operation '");
            m.append(operation);
            if known.is_some() {
                m.append("' modifies state; not callable in read-only mode");
            } else {
                m.append("' is not declared read-only; not callable in read-only mode");
            }
            return Err(D365Error::PermissionDenied(m));
        }
        Ok(self.data_url(operation))
    }

    /// The URL and query parameters of an entity read: a row count of zero or
    /// above the hard cap is refused; a company-scoped entity is restricted to
    /// the connection's legal entity unless a filter names `dataAreaId`.
    pub fn read_target(&self, request: &ReadEntityRequest) -> (r: D365Result<
        (String, Vec<(String, String)>),
    >)
        ensures
            request.max_rows == 0 ==> (r matches Err(D365Error::InvalidParameter { name, reason })
                && name@ == "max_rows"@ && reason@ == "must be >= 1"@),
            request.max_rows > MAX_ROWS_HARD_CAP ==> (r matches Err(
                D365Error::QueryResultOverflow { entity, max_rows },
            ) && entity@ == request.entity@ && max_rows == request.max_rows),
            1 <= request.max_rows <= MAX_ROWS_HARD_CAP ==> (r matches Ok((url, q)) && url@
                == data_url_spec(self.config_resource(), request.entity@) && pairs_view(q@)
                == odata_query_spec(
                strings_view(request.fields@),
                strings_view(request.filters@),
                self.config_legal_entity(),
                scoped_flag(self.structures(), request.entity@),
                request.max_rows,
            )),
    {
        if request.max_rows == 0 {
            return Err(
                D365Error::InvalidParameter {
                    name: owned("max_rows"),
                    reason: owned("must be >= 1"),
                },
            );
        }
        if request.max_rows > MAX_ROWS_HARD_CAP {
            return Err(
                D365Error::QueryResultOverflow {
                    entity: request.entity.clone(),
                    max_rows: request.max_rows,
                },
            );
        }
        proof {
            lemma_structure_index(self.entities@, request.entity@);
        }
        let company_scoped = match find_structure(&self.entities, request.entity.as_str()) {
            Some(i) => self.entities[i].company_scoped,
            None => false,
        };
        let q = build_odata_query(request, self.config.legal_entity.as_str(), company_scoped);
        Ok((self.data_url(request.entity.as_str()), q))
    }
}

} // verus!
