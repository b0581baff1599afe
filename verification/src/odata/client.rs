//! Shared request / response types of the OData client layer and the
//! `D365Client` trait that every backend implements.

use vstd::prelude::*;
use crate::json::{Json, owned};
use crate::odata::error::D365Result;

verus! {

/// `$top` ceiling for entity reads.
pub const MAX_ROWS_HARD_CAP: usize = 1000;

/// The OData property name that scopes a record to a legal entity.
pub const COMPANY_FIELD: &'static str = "dataAreaId";

/// Copy of an optional string.
pub fn clone_opt(o: &Option<String>) -> (r: Option<String>)
    ensures
        r == *o,
{
    match o {
        Some(s) => Some(s.clone()),
        None => None,
    }
}

/// Copy of a list of strings.
pub fn clone_strings(v: &Vec<String>) -> (r: Vec<String>)
    ensures
        r@ == v@,
{
    let mut r: Vec<String> = Vec::new();
    let mut i: usize = 0;
    while i < v.len()
        invariant
            i <= v.len(),
            r@ == v@.take(i as int),
        decreases v.len() - i,
    {
        r.push(v[i].clone());
        proof {
            assert(v@.take(i as int + 1) =~= v@.take(i as int).push(v@[i as int]));
        }
        i = i + 1;
    }
    proof {
        assert(v@.take(v@.len() as int) =~= v@);
    }
    r
}

/// Environment identity.
#[derive(Debug)]
pub struct EnvironmentInfo {
    /// e.g. "gt-prod"
    pub environment: String,
    /// Default legal entity / DataAreaId, e.g. "USMF".
    pub legal_entity: String,
    /// e.g. "Dynamics 365 Finance 10.0.40"
    pub version: String,
    /// e.g. "PROD"
    pub environment_role: String,
    /// e.g. "https://gt-prod.operations.dynamics.com"
    pub base_url: String,
    /// e.g. "Finance & Operations"
    pub platform: String,
    /// Redacted credential summary.
    pub identity: Json,
}

#[derive(Debug, Clone, Copy, PartialEq, Eq, Structural)]
pub enum ParamDirection {
    In,
    Out,
}

#[derive(Debug)]
pub struct ServiceParameter {
    pub name: String,
    pub direction: ParamDirection,
    /// EDM / OData type token (e.g. `Edm.String`).
    pub type_token: String,
    pub optional: bool,
    pub description: Option<String>,
    pub default_value: Option<String>,
}

impl ServiceParameter {
    pub fn duplicate(&self) -> (r: Self)
        ensures
            r == *self,
    {
        ServiceParameter {
            name: self.name.clone(),
            direction: self.direction,
            type_token: self.type_token.clone(),
            optional: self.optional,
            description: clone_opt(&self.description),
            default_value: clone_opt(&self.default_value),
        }
    }
}

/// One security reference required to invoke an operation: a privilege,
/// optionally inside a duty, with an access level.
#[derive(Debug)]
pub struct SecurityReference {
    /// Privilege name, e.g. `LedgerJournalEntryMaintain`.
    pub privilege: String,
    /// Containing duty, if any, e.g. `LedgerJournalEntryProcess`.
    pub duty: Option<String>,
    /// Access level: `Read` / `Create` / `Update` / `Delete` / `Execute`.
    pub access_level: String,
}

impl SecurityReference {
    /// A read privilege outside any duty.
    pub fn read(privilege: &str) -> (r: Self)
        ensures
            r.privilege@ == privilege@,
            r.duty.is_none(),
            r.access_level@ == "Read"@,
    {
        SecurityReference { privilege: owned(privilege), duty: None, access_level: owned("Read") }
    }

    /// An update privilege inside a duty.
    pub fn maintain(privilege: &str, duty: &str) -> (r: Self)
        ensures
            r.privilege@ == privilege@,
            r.duty.is_some() && r.duty.unwrap()@ == duty@,
            r.access_level@ == "Update"@,
    {
        SecurityReference {
            privilege: owned(privilege),
            duty: Some(owned(duty)),
            access_level: owned("Update"),
        }
    }

    pub fn duplicate(&self) -> (r: Self)
        ensures
            r == *self,
    {
        SecurityReference {
            privilege: self.privilege.clone(),
            duty: clone_opt(&self.duty),
            access_level: self.access_level.clone(),
        }
    }
}

#[derive(Debug)]
pub struct ServiceOperationMeta {
    /// OData action / Custom Service operation, e.g. `LedgerGeneralJournalEntryPost`.
    pub operation: String,
    pub description: String,
    /// Owning service group, e.g. `GeneralLedger`.
    pub service_group: String,
    /// Model / package the operation belongs to.
    pub model: Option<String>,
    pub parameters: Vec<ServiceParameter>,
    pub deprecated: bool,
    /// Whether the operation is safe to call in read-only mode.
    pub read_only: bool,
    /// Whether the operation mutates state and therefore must be submitted inside an
    /// OData `$batch` change set (one atomic unit of work).
    pub uses_changeset: bool,
    /// Security privileges / duties required to execute the operation.
    pub security: Vec<SecurityReference>,
    /// Dynamics 365-specific note.
    pub d365_notes: Option<String>,
}

/// The plain content of an operation's metadata.
pub struct ServiceOperationMetaView {
    pub operation: Seq<char>,
    pub description: Seq<char>,
    pub service_group: Seq<char>,
    pub model: Option<String>,
    pub parameters: Seq<ServiceParameter>,
    pub deprecated: bool,
    pub read_only: bool,
    pub uses_changeset: bool,
    pub security: Seq<SecurityReference>,
    pub d365_notes: Option<String>,
}

impl View for ServiceOperationMeta {
    type V = ServiceOperationMetaView;

    open spec fn view(&self) -> ServiceOperationMetaView {
        ServiceOperationMetaView {
            operation: self.operation@,
            description: self.description@,
            service_group: self.service_group@,
            model: self.model,
            parameters: self.parameters@,
            deprecated: self.deprecated,
            read_only: self.read_only,
            uses_changeset: self.uses_changeset,
            security: self.security@,
            d365_notes: self.d365_notes,
        }
    }
}

impl ServiceOperationMeta {
    pub fn duplicate(&self) -> (r: Self)
        ensures
            r@ == self@,
    {
        let mut parameters: Vec<ServiceParameter> = Vec::new();
        let mut i: usize = 0;
        while i < self.parameters.len()
            invariant
                i <= self.parameters.len(),
                parameters@ == self.parameters@.take(i as int),
            decreases self.parameters.len() - i,
        {
            parameters.push(self.parameters[i].duplicate());
            proof {
                assert(self.parameters@.take(i as int + 1) =~= self.parameters@.take(i as int).push(
                    self.parameters@[i as int],
                ));
            }
            i = i + 1;
        }
        let mut security: Vec<SecurityReference> = Vec::new();
        let mut j: usize = 0;
        while j < self.security.len()
            invariant
                j <= self.security.len(),
                security@ == self.security@.take(j as int),
            decreases self.security.len() - j,
        {
            security.push(self.security[j].duplicate());
            proof {
                assert(self.security@.take(j as int + 1) =~= self.security@.take(j as int).push(
                    self.security@[j as int],
                ));
            }
            j = j + 1;
        }
        proof {
            assert(self.parameters@.take(self.parameters@.len() as int) =~= self.parameters@);
            assert(self.security@.take(self.security@.len() as int) =~= self.security@);
        }
        ServiceOperationMeta {
            operation: self.operation.clone(),
            description: self.description.clone(),
            service_group: self.service_group.clone(),
            model: clone_opt(&self.model),
            parameters,
            deprecated: self.deprecated,
            read_only: self.read_only,
            uses_changeset: self.uses_changeset,
            security,
            d365_notes: clone_opt(&self.d365_notes),
        }
    }
}

/// One search hit.  The score counts how often the query terms occur in the
/// operation's name, description and service group; higher is a better match.
#[derive(Debug)]
pub struct ServiceSummary {
    pub operation: String,
    pub description: String,
    pub service_group: String,
    pub read_only: bool,
    pub score: u128,
}

#[derive(Debug)]
pub struct ServiceSearchResult {
    pub query: String,
    pub hits: Vec<ServiceSummary>,
}

#[derive(Debug)]
pub struct ServiceCallRequest {
    pub operation: String,
    pub parameters: Json,
    pub timeout_ms: u64,
    /// If true, the call is rejected when the client is in read-only mode and the
    /// operation is not declared `read_only` in its metadata.
    pub require_read_only_safe: bool,
}

#[derive(Debug)]
pub struct BulkMetadata {
    pub language: String,
    pub operations: Vec<ServiceOperationMeta>,
    /// Operations that were requested but not found.
    pub missing: Vec<String>,
}

#[derive(Debug)]
pub struct EntityField {
    pub name: String,
    /// EDM type, e.g. `Edm.String`.
    pub edm_type: String,
    /// Logical Dynamics 365 type (e.g. `ItemId`, `DataAreaId`).
    pub type_token: String,
    pub length: u32,
    pub description: Option<String>,
    pub key: bool,
}

impl EntityField {
    pub fn duplicate(&self) -> (r: Self)
        ensures
            r == *self,
    {
        EntityField {
            name: self.name.clone(),
            edm_type: self.edm_type.clone(),
            type_token: self.type_token.clone(),
            length: self.length,
            description: clone_opt(&self.description),
            key: self.key,
        }
    }
}

#[derive(Debug)]
pub struct EntityStructure {
    pub entity: String,
    pub description: String,
    pub fields: Vec<EntityField>,
    pub key_fields: Vec<String>,
    /// Security duty / privilege gating the entity.
    pub security: String,
    /// Whether the entity is scoped by legal entity (`dataAreaId`).
    pub company_scoped: bool,
    /// Note on which legacy table this data entity replaces, when there is one.
    pub legacy_mapping: Option<String>,
}

/// The plain content of an entity structure.
pub struct EntityStructureView {
    pub entity: Seq<char>,
    pub description: Seq<char>,
    pub fields: Seq<EntityField>,
    pub key_fields: Seq<String>,
    pub security: Seq<char>,
    pub company_scoped: bool,
    pub legacy_mapping: Option<String>,
}

impl View for EntityStructure {
    type V = EntityStructureView;

    open spec fn view(&self) -> EntityStructureView {
        EntityStructureView {
            entity: self.entity@,
            description: self.description@,
            fields: self.fields@,
            key_fields: self.key_fields@,
            security: self.security@,
            company_scoped: self.company_scoped,
            legacy_mapping: self.legacy_mapping,
        }
    }
}

impl EntityStructure {
    pub fn duplicate(&self) -> (r: Self)
        ensures
            r@ == self@,
    {
        let mut fields: Vec<EntityField> = Vec::new();
        let mut i: usize = 0;
        while i < self.fields.len()
            invariant
                i <= self.fields.len(),
                fields@ == self.fields@.take(i as int),
            decreases self.fields.len() - i,
        {
            fields.push(self.fields[i].duplicate());
            proof {
                assert(self.fields@.take(i as int + 1) =~= self.fields@.take(i as int).push(
                    self.fields@[i as int],
                ));
            }
            i = i + 1;
        }
        proof {
            assert(self.fields@.take(self.fields@.len() as int) =~= self.fields@);
        }
        EntityStructure {
            entity: self.entity.clone(),
            description: self.description.clone(),
            fields,
            key_fields: clone_strings(&self.key_fields),
            security: self.security.clone(),
            company_scoped: self.company_scoped,
            legacy_mapping: clone_opt(&self.legacy_mapping),
        }
    }
}

#[derive(Debug)]
pub struct ReadEntityRequest {
    pub entity: String,
    /// `$select` projection; empty = all fields.
    pub fields: Vec<String>,
    /// `$filter` clauses (`Field eq 'value'` / `Field like 'pattern'`).
    pub filters: Vec<String>,
    /// `$top`; at most `MAX_ROWS_HARD_CAP`.
    pub max_rows: usize,
}

/// One entity record: its members, each a property name and value.
#[derive(Debug)]
pub struct EntityRow {
    pub values: Vec<(String, Json)>,
}

#[derive(Debug, Clone, Copy)]
pub struct PoolStatus {
    pub cap: usize,
    pub available: usize,
}

/// The operations every Dynamics 365 backend offers.  Each backend says, through
/// the `*_post` predicates, which results each operation may give; a backend that
/// does not define them promises nothing of its results.
pub trait D365Client {
    /// The results `environment_info` may give.
    open spec fn environment_info_post(&self, r: D365Result<EnvironmentInfo>) -> bool {
        true
    }

    /// The results `search_service(query, limit)` may give.
    open spec fn search_service_post(
        &self,
        query: Seq<char>,
        limit: usize,
        r: D365Result<ServiceSearchResult>,
    ) -> bool {
        true
    }

    /// The results `service_metadata(operation, language)` may give.
    open spec fn service_metadata_post(
        &self,
        operation: Seq<char>,
        language: Seq<char>,
        r: D365Result<ServiceOperationMeta>,
    ) -> bool {
        true
    }

    /// The results `bulk_service_metadata(operations, language)` may give.
    open spec fn bulk_service_metadata_post(
        &self,
        operations: Seq<Seq<char>>,
        language: Seq<char>,
        r: D365Result<BulkMetadata>,
    ) -> bool {
        true
    }

    /// The results `call_service(request, read_only_mode)` may give.
    open spec fn call_service_post(
        &self,
        request: ServiceCallRequest,
        read_only_mode: bool,
        r: D365Result<Json>,
    ) -> bool {
        true
    }

    /// The results `read_entity(request)` may give.
    open spec fn read_entity_post(&self, request: ReadEntityRequest, r: D365Result<Vec<EntityRow>>) -> bool {
        true
    }

    /// The results `entity_structure(entity)` may give.
    open spec fn entity_structure_post(&self, entity: Seq<char>, r: D365Result<EntityStructure>) -> bool {
        true
    }

    fn environment_info(&self) -> (r: D365Result<EnvironmentInfo>)
        ensures
            self.environment_info_post(r),
    ;

    fn search_service(&self, query: &str, limit: usize) -> (r: D365Result<ServiceSearchResult>)
        ensures
            self.search_service_post(query@, limit, r),
    ;

    fn service_metadata(&self, operation: &str, language: &str) -> (r: D365Result<
        ServiceOperationMeta,
    >)
        ensures
            self.service_metadata_post(operation@, language@, r),
    ;

    fn bulk_service_metadata(&self, operations: &[String], language: &str) -> (r: D365Result<
        BulkMetadata,
    >)
        ensures
            self.bulk_service_metadata_post(crate::text::strings_view(operations@), language@, r),
    ;

    fn call_service(&self, request: ServiceCallRequest, read_only_mode: bool) -> (r: D365Result<
        Json,
    >)
        ensures
            self.call_service_post(request, read_only_mode, r),
    ;

    fn read_entity(&self, request: ReadEntityRequest) -> (r: D365Result<Vec<EntityRow>>)
        ensures
            self.read_entity_post(request, r),
    ;

    fn entity_structure(&self, entity: &str) -> (r: D365Result<EntityStructure>)
        ensures
            self.entity_structure_post(entity@, r),
    ;

    /// The pool snapshots `pool_status` may give.
    open spec fn pool_status_post(&self, s: PoolStatus) -> bool {
        true
    }

    /// Pool snapshot for dashboards.
    fn pool_status(&self) -> (s: PoolStatus)
        ensures
            self.pool_status_post(s),
    ;
}

} // verus!
