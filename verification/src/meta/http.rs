//! Addressing and payload mapping of the live Metadata API client.
//!
//! X++ / AOT objects are read over the Finance & Operations Metadata API
//! (`/metadata`) and data-entity rows over OData (`/data`).  The HTTPS exchange
//! happens outside this library; the URLs, the token to use, the query of a
//! search, the mapping of payloads and statuses, and the refusals are decided
//! here.  The cross-reference database is not exposed over this transport (a
//! cross-reference finds nothing) and deployment goes through deployable
//! packages (a deploy is refused, after the read-only gate).

use vstd::prelude::*;
use std::sync::Arc;
use crate::json::{Json, JsonV, owned, str_of};
use crate::text::{chars_of, string_of, trim_end_char, trim_end_char_chars, decimal, decimal_text};
use crate::odata::client::clone_opt;
use crate::odata::http::{quotable, quoted_body, truncate, double_quotes, DEFAULT_AUTHORITY};
use crate::meta::client::MetaCallContext;
use crate::meta::connection::{D365Auth, D365Connection};
use crate::meta::error::{MetaError, MetaResult};
use crate::meta::types::{
    DataEntityView, DeployRequest, MetaSearchHit, MetaSearchRequest, ModelContents, ObjectSource,
    XppObjectKind, MAX_ENTITY_ROWS, kind_label, metadata_path_spec,
};
use crate::text::{line_count, line_count_spec};

verus! {

/// The Metadata API endpoint of one environment.
pub struct HttpMetadataClient {
    connection: D365Connection,
    authority_base: String,
}

/// How to obtain a bearer token for a connection.
pub enum TokenPlan {
    /// Use this pre-acquired token.
    Bearer(String),
    /// Run the client-credentials grant against `endpoint` for `scope`.
    ClientCredentials { endpoint: String, client_id: String, client_secret: String, scope: String },
}

/// The text of the string member `key` of `v`, if it has one.
pub open spec fn str_member(v: JsonV, key: Seq<char>) -> Option<Seq<char>> {
    match v.get_spec(key) {
        Some(x) => str_of(x),
        None => None,
    }
}

/// The text of the member `first`, or when `v` has no such member, of `second`;
/// `None` when the member found is not a string.
pub open spec fn str_member_or(v: JsonV, first: Seq<char>, second: Seq<char>) -> Option<Seq<char>> {
    match v.get_spec(first) {
        Some(x) => str_of(x),
        None => str_member(v, second),
    }
}

/// The source text of an object payload: `SourceCode`, else `Declaration`, else empty.
pub open spec fn payload_source(v: JsonV) -> Seq<char> {
    match str_member_or(v, "SourceCode"@, "Declaration"@) {
        Some(s) => s,
        None => Seq::<char>::empty(),
    }
}

fn opt_string(o: Option<&String>) -> (r: Option<String>)
    ensures
        match o {
            Some(s) => r matches Some(t) && t@ == s@,
            None => r is None,
        },
{
    match o {
        Some(s) => Some(s.clone()),
        None => None,
    }
}

fn member_str(v: &Json, key: &str) -> (r: Option<String>)
    ensures
        match str_member(v@, key@) {
            Some(s) => r matches Some(t) && t@ == s,
            None => r is None,
        },
{
    match v.get(key) {
        Some(x) => opt_string(x.as_str()),
        None => None,
    }
}

fn member_str_or(v: &Json, first: &str, second: &str) -> (r: Option<String>)
    ensures
        match str_member_or(v@, first@, second@) {
            Some(s) => r matches Some(t) && t@ == s,
            None => r is None,
        },
{
    match v.get(first) {
        Some(x) => opt_string(x.as_str()),
        None => member_str(v, second),
    }
}

/// Best-effort map of a Metadata API object payload to an `ObjectSource`.
pub fn object_from_json(kind: XppObjectKind, name: &str, v: &Json) -> (o: ObjectSource)
    ensures
        o.name@ == name@,
        o.kind == kind,
        match str_member(v@, "Model"@) {
            Some(m) => o.model matches Some(x) && x@ == m,
            None => o.model is None,
        },
        match str_member_or(v@, "Label"@, "Description"@) {
            Some(d) => o.description matches Some(x) && x@ == d,
            None => o.description is None,
        },
        o.source@ == payload_source(v@),
        o.deployed,
        o.line_count == line_count_spec(payload_source(v@)),
{
    let source = match member_str_or(v, "SourceCode", "Declaration") {
        Some(s) => s,
        None => owned(""),
    };
    proof {
        reveal_strlit("");
    }
    let n = line_count(source.as_str());
    ObjectSource {
        name: owned(name),
        kind,
        model: member_str(v, "Model"),
        description: member_str_or(v, "Label", "Description"),
        source,
        deployed: true,
        line_count: n,
    }
}

/// Map a data-entity payload: the public name is `PublicCollectionName`, else
/// `PublicEntityName`, else the entity's own name; the source is `SourceCode`.
pub fn data_entity_from_json(name: &str, v: &Json) -> (e: DataEntityView)
    ensures
        e.name@ == name@,
        e.public_entity_name@ == match str_member_or(
            v@,
            "PublicCollectionName"@,
            "PublicEntityName"@,
        ) {
            Some(p) => p,
            None => name@,
        },
        e.properties@ == v@,
        e.source@ == match str_member(v@, "SourceCode"@) {
            Some(s) => s,
            None => Seq::<char>::empty(),
        },
        e.line_count == line_count_spec(e.source@),
{
    let public = match member_str_or(v, "PublicCollectionName", "PublicEntityName") {
        Some(p) => p,
        None => owned(name),
    };
    let source = match member_str(v, "SourceCode") {
        Some(s) => s,
        None => owned(""),
    };
    proof {
        reveal_strlit("");
    }
    let n = line_count(source.as_str());
    DataEntityView {
        name: owned(name),
        source,
        public_entity_name: public,
        properties: v.duplicate(),
        line_count: n,
    }
}

/// The collection a search looks in: classes, tables or interfaces when asked
/// for, data entities otherwise.
pub open spec fn search_collection_spec(kind: Option<XppObjectKind>) -> Seq<char> {
    match kind {
        Some(XppObjectKind::Class) => "Classes"@,
        Some(XppObjectKind::Table) => "Tables"@,
        Some(XppObjectKind::Interface) => "Interfaces"@,
        _ => "DataEntities"@,
    }
}

pub fn search_collection(kind: Option<XppObjectKind>) -> (r: &'static str)
    ensures
        r@ == search_collection_spec(kind),
{
    match kind {
        Some(XppObjectKind::Class) => "Classes",
        Some(XppObjectKind::Table) => "Tables",
        Some(XppObjectKind::Interface) => "Interfaces",
        _ => "DataEntities",
    }
}

/// The kind search hits are reported under: the requested one, or data entity.
pub open spec fn hit_kind(kind: Option<XppObjectKind>) -> XppObjectKind {
    match kind {
        Some(k) => k,
        None => XppObjectKind::DataEntity,
    }
}

/// The hits of a search answer: one per returned value, named by its `Name`
/// (empty when absent), described by its `Label`, in the model `Model`.
pub fn search_hits(kind: Option<XppObjectKind>, values: &Vec<Json>) -> (hits: Vec<MetaSearchHit>)
    ensures
        hits@.len() == values@.len(),
        forall|i: int|
            0 <= i < values@.len() ==> {
                &&& (#[trigger] hits@[i]).name@ == match str_member(values@[i]@, "Name"@) {
                    Some(n) => n,
                    None => Seq::<char>::empty(),
                }
                &&& hits@[i].kind == hit_kind(kind)
                &&& match str_member(values@[i]@, "Label"@) {
                    Some(d) => hits@[i].description matches Some(x) && x@ == d,
                    None => hits@[i].description is None,
                }
                &&& match str_member(values@[i]@, "Model"@) {
                    Some(m) => hits@[i].model matches Some(x) && x@ == m,
                    None => hits@[i].model is None,
                }
                &&& hits@[i].score == 1
            },
{
    let k = match kind {
        Some(k) => k,
        None => XppObjectKind::DataEntity,
    };
    let mut hits: Vec<MetaSearchHit> = Vec::new();
    let mut i: usize = 0;
    while i < values.len()
        invariant
            i <= values.len(),
            k == hit_kind(kind),
            hits@.len() == i,
            forall|j: int|
                0 <= j < i ==> {
                    &&& (#[trigger] hits@[j]).name@ == match str_member(values@[j]@, "Name"@) {
                        Some(n) => n,
                        None => Seq::<char>::empty(),
                    }
                    &&& hits@[j].kind == hit_kind(kind)
                    &&& match str_member(values@[j]@, "Label"@) {
                        Some(d) => hits@[j].description matches Some(x) && x@ == d,
                        None => hits@[j].description is None,
                    }
                    &&& match str_member(values@[j]@, "Model"@) {
                        Some(m) => hits@[j].model matches Some(x) && x@ == m,
                        None => hits@[j].model is None,
                    }
                    &&& hits@[j].score == 1
                },
        decreases values.len() - i,
    {
        let v = &values[i];
        let name = match member_str(v, "Name") {
            Some(n) => n,
            None => owned(""),
        };
        proof {
            reveal_strlit("");
        }
        hits.push(
            MetaSearchHit {
                name,
                kind: k,
                description: member_str(v, "Label"),
                model: member_str(v, "Model"),
                score: 1,
            },
        );
        i = i + 1;
    }
    hits
}

/// The refusal of a live entity read above the cap.
pub open spec fn live_over_cap_message(max_rows: usize) -> Seq<char> {
    "requested "@ + decimal(max_rows as nat) + " rows exceeds the cap of 1000; use d365.entity.read"@
}

/// Refuses an entity read above the row cap before any request is made.
pub fn check_entity_rows(max_rows: usize) -> (r: MetaResult<()>)
    ensures
        max_rows <= MAX_ENTITY_ROWS ==> r is Ok,
        max_rows > MAX_ENTITY_ROWS ==> (r matches Err(MetaError::EntityDataBlocked(m)) && m@
            == live_over_cap_message(max_rows)),
{
    if max_rows > MAX_ENTITY_ROWS {
        let mut m = owned("requested ");
        m.append(decimal_text(max_rows as u64).as_str());
        m.append(" rows exceeds the cap of 1000; use d365.entity.read");
        return Err(MetaError::EntityDataBlocked(m));
    }
    Ok(())
}

/// What a live deploy answers: the read-only refusal first, else the pointer to
/// the package pipeline.
pub fn deploy_refusal(request: &DeployRequest, ctx: MetaCallContext) -> (e: MetaError)
    ensures
        ctx.read_only ==> (e matches MetaError::PermissionDenied(m) && m@ == "deploy of "@
            + kind_label(request.kind) + " '"@ + request.name@
            + "' requires write mode (--enable-writes)"@),
        !ctx.read_only ==> (e matches MetaError::Forbidden(m) && m@
            == "deployment is performed via LCS deployable packages, not the Metadata API \u{2014} use the deployment pipeline"@),
{
    if ctx.read_only {
        let mut m = owned("deploy of ");
        m.append(request.kind.label());
        m.append(" '");
        m.append(request.name.as_str());
        m.append("' requires write mode (--enable-writes)");
        return MetaError::PermissionDenied(m);
    }
    MetaError::Forbidden(
        owned(
            "deployment is performed via LCS deployable packages, not the Metadata API \u{2014} use the deployment pipeline",
        ),
    )
}

/// What a live model read answers once the model's header was fetched: the model
/// name, no description and no members (members are found through search).
pub fn model_header(model: &str) -> (m: ModelContents)
    ensures
        m.model@ == model@,
        m.description is None,
        m.members@.len() == 0,
{
    ModelContents { model: owned(model), description: None, members: Vec::new() }
}

/// `v - 60` seconds, at least one: how long a token that the server says lives
/// `expires_in` seconds (an hour when it does not say) is reused.
pub open spec fn token_reuse_secs_spec(expires_in: Option<u64>) -> u64 {
    let e: u64 = match expires_in {
        Some(x) => x,
        None => 3600,
    };
    let s: u64 = if e >= 60 {
        (e - 60) as u64
    } else {
        0
    };
    if s >= 1 {
        s
    } else {
        1
    }
}

pub fn token_reuse_secs(expires_in: Option<u64>) -> (s: u64)
    ensures
        s == token_reuse_secs_spec(expires_in),
{
    let e = match expires_in {
        Some(x) => x,
        None => 3600,
    };
    let s = e.saturating_sub(60);
    if s >= 1 {
        s
    } else {
        1
    }
}

/// The error a Metadata API failure status maps to.
pub open spec fn meta_status_matches(status: u16, body: Seq<char>, e: MetaError) -> bool {
    let q = quoted_body(body);
    if status == 401 {
        e matches MetaError::AuthFailed(m) && m@ == q
    } else if status == 403 {
        e matches MetaError::Forbidden(m) && m@ == q
    } else if status == 404 {
        e matches MetaError::NotFound { kind, name } && kind@ == "Object"@ && name@ == q
    } else if status == 408 {
        e matches MetaError::Timeout { timeout_ms } && timeout_ms == 0
    } else if status == 429 || status == 503 {
        e matches MetaError::RateLimited { retry_after_ms } && retry_after_ms == 1000
    } else if status >= 500 {
        e matches MetaError::EnvironmentDown { environment, reason } && environment@ == "live"@
            && reason@ == decimal(status as nat) + ": "@ + q
    } else {
        e matches MetaError::Internal(m) && m@ == "unexpected status "@ + decimal(status as nat)
            + ": "@ + q
    }
}

/// Whether the error of a Metadata API failure status quotes the response body:
/// every status but 408, 429 and 503.
pub open spec fn status_quotes_body(status: u16) -> bool {
    status != 408 && status != 429 && status != 503
}

/// Whether the error of a Metadata API failure status quotes the response body.
pub fn quotes_body(status: u16) -> (b: bool)
    ensures
        b == status_quotes_body(status),
{
    status != 408 && status != 429 && status != 503
}

/// Map a Metadata API failure status and its body to an error.
pub fn map_status(status: u16, body: &str) -> (e: MetaError)
    requires
        status_quotes_body(status) ==> quotable(body@),
    ensures
        meta_status_matches(status, body@, e),
{
    if status == 401 {
        MetaError::AuthFailed(truncate(body))
    } else if status == 403 {
        MetaError::Forbidden(truncate(body))
    } else if status == 404 {
        MetaError::NotFound { kind: owned("Object"), name: truncate(body) }
    } else if status == 408 {
        MetaError::Timeout { timeout_ms: 0 }
    } else if status == 429 || status == 503 {
        MetaError::RateLimited { retry_after_ms: 1000 }
    } else if status >= 500 {
        let mut reason = decimal_text(status as u64);
        reason.append(": ");
        reason.append(truncate(body).as_str());
        MetaError::EnvironmentDown { environment: owned("live"), reason }
    } else {
        let mut m = owned("unexpected status ");
        m.append(decimal_text(status as u64).as_str());
        m.append(": ");
        m.append(truncate(body).as_str());
        proof {
            assert(m@ =~= "unexpected status "@ + decimal(status as nat) + ": "@ + quoted_body(
                body@,
            ));
        }
        MetaError::Internal(m)
    }
}

impl HttpMetadataClient {
    pub closed spec fn connection_of(&self) -> D365Connection {
        self.connection
    }

    pub closed spec fn authority(&self) -> Seq<char> {
        self.authority_base@
    }

    /// A client for a live connection, against the public-cloud authority; a mock
    /// connection is refused.
    pub fn new(connection: D365Connection) -> (r: MetaResult<Arc<Self>>)
        ensures
            connection.auth is Mock ==> (r matches Err(MetaError::AuthFailed(m)) && m@
                == "HttpMetadataClient requires a non-mock connection"@),
            !(connection.auth is Mock) ==> (r matches Ok(c) && c.connection_of() == connection
                && c.authority() == DEFAULT_AUTHORITY@),
    {
        if let D365Auth::Mock = connection.auth {
            return Err(
                MetaError::AuthFailed(owned("HttpMetadataClient requires a non-mock connection")),
            );
        }
        Ok(Arc::new(HttpMetadataClient { connection, authority_base: owned(DEFAULT_AUTHORITY) }))
    }

    pub fn connection(&self) -> (r: &D365Connection)
        ensures
            *r == self.connection_of(),
    {
        &self.connection
    }

    fn base(&self) -> (r: String)
        ensures
            r@ == trim_end_char(self.connection_of().base_url@, '/'),
    {
        let b = trim_end_char_chars(chars_of(self.connection.base_url.as_str()).as_slice(), '/');
        string_of(b.as_slice())
    }

    /// The Metadata API URL of an object.
    pub fn meta_url(&self, kind: XppObjectKind, name: &str) -> (r: String)
        ensures
            r@ == trim_end_char(self.connection_of().base_url@, '/') + metadata_path_spec(
                kind,
                name@,
            ),
    {
        let mut r = self.base();
        r.append(kind.metadata_path(name).as_str());
        r
    }

    /// The OData URL of an entity's rows.
    pub fn data_url(&self, entity: &str) -> (r: String)
        ensures
            r@ == trim_end_char(self.connection_of().base_url@, '/') + "/data/"@ + entity@,
    {
        let mut r = self.base();
        r.append("/data/");
        r.append(entity);
        r
    }

    /// The URL and query parameters of a search: a `contains(Name, ...)` filter on
    /// the chosen collection, quotes in the query doubled, and the result cap.
    pub fn search_request(&self, request: &MetaSearchRequest) -> (r: (String, Vec<(String, String)>))
        ensures
            r.0@ == trim_end_char(self.connection_of().base_url@, '/') + "/metadata/"@
                + search_collection_spec(request.kind),
            r.1@.len() == 2,
            r.1@[0].0@ == "$filter"@,
            r.1@[0].1@ == "contains(Name,'"@ + double_quotes(request.query@) + "')"@,
            r.1@[1].0@ == "$top"@,
            r.1@[1].1@ == decimal(request.max_results as nat),
    {
        let mut url = self.base();
        url.append("/metadata/");
        url.append(search_collection(request.kind));
        let mut filter = owned("contains(Name,'");
        filter.append(crate::odata::http::escape_literal(request.query.as_str()).as_str());
        filter.append("')");
        let mut params: Vec<(String, String)> = Vec::new();
        params.push((owned("$filter"), filter));
        params.push((owned("$top"), decimal_text(request.max_results as u64)));
        (url, params)
    }

    /// How to obtain a token: a bearer connection's own token; the client-credentials
    /// grant for the connection's tenant, scoped to its environment; certificate
    /// and mock connections are refused.
    pub fn token_plan(&self) -> (r: MetaResult<TokenPlan>)
        ensures
            match self.connection_of().auth {
                D365Auth::Bearer { token } => r matches Ok(TokenPlan::Bearer(t)) && t@ == token@,
                D365Auth::ClientCredentials { tenant_id, client_id, client_secret } => r matches Ok(
                    TokenPlan::ClientCredentials { endpoint, client_id: id, client_secret: secret, scope },
                ) && endpoint@ == trim_end_char(self.authority(), '/') + "/"@ + tenant_id@
                    + "/oauth2/v2.0/token"@ && id@ == client_id@ && secret@ == client_secret@
                    && scope@ == trim_end_char(self.connection_of().base_url@, '/') + "/.default"@,
                D365Auth::Certificate { .. } => r matches Err(MetaError::AuthFailed(m)) && m@
                    == "certificate auth not yet implemented"@,
                D365Auth::Mock => r matches Err(MetaError::AuthFailed(m)) && m@
                    == "mock connection has no token"@,
            },
    {
        match &self.connection.auth {
            D365Auth::Bearer { token } => Ok(TokenPlan::Bearer(token.clone())),
            D365Auth::ClientCredentials { tenant_id, client_id, client_secret } => {
                let a = trim_end_char_chars(
                    chars_of(self.authority_base.as_str()).as_slice(),
                    '/',
                );
                let mut endpoint = string_of(a.as_slice());
                endpoint.append("/");
                endpoint.append(tenant_id.as_str());
                endpoint.append("/oauth2/v2.0/token");
                let mut scope = self.base();
                scope.append("/.default");
                Ok(
                    TokenPlan::ClientCredentials {
                        endpoint,
                        client_id: client_id.clone(),
                        client_secret: client_secret.clone(),
                        scope,
                    },
                )
            },
            D365Auth::Certificate { .. } => Err(
                MetaError::AuthFailed(owned("certificate auth not yet implemented")),
            ),
            D365Auth::Mock => Err(MetaError::AuthFailed(owned("mock connection has no token"))),
        }
    }
}

/// The error of a token endpoint answering with a failure status:
/// `token endpoint <status>: <quoted body>`.
pub fn token_failure(status: u16, body: &str) -> (e: MetaError)
    requires
        quotable(body@),
    ensures
        e matches MetaError::AuthFailed(m) && m@ == "token endpoint "@ + decimal(status as nat)
            + ": "@ + quoted_body(body@),
{
    let mut m = owned("token endpoint ");
    m.append(decimal_text(status as u64).as_str());
    m.append(": ");
    m.append(truncate(body).as_str());
    MetaError::AuthFailed(m)
}

/// The error a failed HTTPS exchange maps to: a timeout, an unreachable
/// environment (the transport's description as the reason), or an internal error.
pub fn transport_error(is_timeout: bool, is_connect: bool, description: String) -> (e: MetaError)
    ensures
        is_timeout ==> (e matches MetaError::Timeout { timeout_ms } && timeout_ms == 0),
        !is_timeout && is_connect ==> (e matches MetaError::EnvironmentDown { environment, reason }
            && environment@ == "live"@ && reason@ == description@),
        !is_timeout && !is_connect ==> (e matches MetaError::Internal(m) && m@ == description@),
{
    if is_timeout {
        MetaError::Timeout { timeout_ms: 0 }
    } else if is_connect {
        MetaError::EnvironmentDown { environment: owned("live"), reason: description }
    } else {
        MetaError::Internal(description)
    }
}

} // verus!
