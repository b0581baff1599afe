//! Configuration and request shaping of the live Finance & Operations client:
//! the Entra ID token endpoint and scope, the OData v4 query of an entity read,
//! the translation of the filter mini-language to OData v4, and the mapping of
//! HTTP statuses to errors.  The HTTPS exchange itself happens outside this
//! library; everything it sends and everything it decides is computed here.

use vstd::prelude::*;
use vstd::utf8::{encode_utf8, decode_utf8, encode_utf8_decode_utf8, is_char_boundary};
use crate::json::{Json, JsonV, owned, members_view, lemma_members_view};
use crate::text::{
    chars_of, string_of, trim, trimmed_chars, trim_end_char, trim_end_char_chars,
    trim_start_str, trim_start_str_chars, first_occurrence, find_chars, has_prefix, has_suffix,
    trim_char, trim_char_chars, unicode_lowercase, to_lowercase, contains_seq, occurs_at,
    occurs_at_ignore_case, find_chars_ignore_case, decimal, decimal_text, strings_view,
    eq_ignore_case, str_eq_ignore_case,
};
use crate::odata::client::{EnvironmentInfo, ReadEntityRequest, COMPANY_FIELD};
use crate::odata::credentials::Credentials;
use crate::odata::error::{D365Error, D365Result};
use crate::odata::filter::{first_ci, slice_chars, trim_chars, lemma_first_ci, clause_spec, parse_clause};

verus! {

/// The public-cloud Entra ID authority.
pub const DEFAULT_AUTHORITY: &'static str = "https://login.microsoftonline.com";

/// Connection config for a live environment.
pub struct HttpD365Config {
    /// Environment resource, e.g. `https://gt-prod.operations.dynamics.com`.
    pub resource: String,
    /// Entra directory (tenant) id.
    pub tenant_id: String,
    pub client_id: String,
    pub client_secret: String,
    /// Default legal entity (DataAreaId).
    pub legal_entity: String,
    /// Entra authority base (override in tests). Defaults to the public cloud.
    pub authority_base: String,
    /// Request timeout, in seconds.
    pub timeout_secs: u64,
}

/// The Debug text of a string, as `format!("{:?}", s)` writes it.
pub uninterp spec fn debug_str_spec(s: Seq<char>) -> Seq<char>;

/// Calls the standard `Debug` formatting of `str` (`format!("{:?}", s)`): the string
/// in double quotes with escapes, a function of `s` alone.
#[verifier::external_body]
fn debug_str(s: &str) -> (r: String)
    ensures
        r@ == debug_str_spec(s@),
{
    format!("{:?}", s)
}

/// The debug text of a config: every field but the secret, which reads `"***"`.
pub open spec fn config_debug_spec(
    resource: Seq<char>,
    tenant_id: Seq<char>,
    client_id: Seq<char>,
    legal_entity: Seq<char>,
) -> Seq<char> {
    "HttpD365Config { resource: "@ + debug_str_spec(resource) + ", tenant_id: "@
        + debug_str_spec(tenant_id) + ", client_id: "@ + debug_str_spec(client_id)
        + ", client_secret: \"***\", legal_entity: "@ + debug_str_spec(legal_entity) + " }"@
}

/// The identity summary of a live client: the config's fields, the secret masked.
pub open spec fn live_identity_spec(
    resource: Seq<char>,
    tenant_id: Seq<char>,
    client_id: Seq<char>,
    legal_entity: Seq<char>,
) -> JsonV {
    JsonV::Object(
        seq![
            ("client_id"@, JsonV::Str(client_id)),
            ("client_secret"@, JsonV::Str("***"@)),
            ("legal_entity"@, JsonV::Str(legal_entity)),
            ("resource"@, JsonV::Str(resource)),
            ("source"@, JsonV::Str("HttpD365Client"@)),
            ("tenant_id"@, JsonV::Str(tenant_id)),
        ],
    )
}

/// The environment name in a resource URL: the host's first label, after any
/// leading `https://` and then `http://` prefixes.
pub open spec fn host_label(resource: Seq<char>) -> Seq<char> {
    let h = trim_start_str(trim_start_str(resource, "https://"@), "http://"@);
    match first_occurrence(h, seq!['.']) {
        Some(i) => h.take(i),
        None => h,
    }
}

/// The refusal for the first blank field among the resource, tenant, client id and
/// secret, if any.
pub open spec fn blank_field_message(
    resource: Seq<char>,
    tenant_id: Seq<char>,
    client_id: Seq<char>,
    client_secret: Seq<char>,
) -> Option<Seq<char>> {
    if trim(resource).len() == 0 {
        Some("resource must not be empty"@)
    } else if trim(tenant_id).len() == 0 {
        Some("tenant_id must not be empty"@)
    } else if trim(client_id).len() == 0 {
        Some("client_id must not be empty"@)
    } else if trim(client_secret).len() == 0 {
        Some("client_secret must not be empty"@)
    } else {
        None
    }
}

impl HttpD365Config {
    /// A config for the credentials' environment, against the public cloud, with a
    /// 30 s timeout.
    pub fn from_credentials(c: &Credentials) -> (r: Self)
        ensures
            r.resource@ == c.resource@,
            r.tenant_id@ == c.tenant_id@,
            r.client_id@ == c.client_id@,
            r.client_secret@ == c.client_secret@,
            r.legal_entity@ == c.legal_entity@,
            r.authority_base@ == DEFAULT_AUTHORITY@,
            r.timeout_secs == 30,
    {
        HttpD365Config {
            resource: c.resource.clone(),
            tenant_id: c.tenant_id.clone(),
            client_id: c.client_id.clone(),
            client_secret: c.client_secret.clone(),
            legal_entity: c.legal_entity.clone(),
            authority_base: owned(DEFAULT_AUTHORITY),
            timeout_secs: 30,
        }
    }

    /// A field-by-field copy.
    pub fn duplicate(&self) -> (r: Self)
        ensures
            r.resource@ == self.resource@,
            r.tenant_id@ == self.tenant_id@,
            r.client_id@ == self.client_id@,
            r.client_secret@ == self.client_secret@,
            r.legal_entity@ == self.legal_entity@,
            r.authority_base@ == self.authority_base@,
            r.timeout_secs == self.timeout_secs,
    {
        HttpD365Config {
            resource: self.resource.clone(),
            tenant_id: self.tenant_id.clone(),
            client_id: self.client_id.clone(),
            client_secret: self.client_secret.clone(),
            legal_entity: self.legal_entity.clone(),
            authority_base: self.authority_base.clone(),
            timeout_secs: self.timeout_secs,
        }
    }

    /// OAuth2 v2.0 token endpoint.
    pub fn token_endpoint(&self) -> (r: String)
        ensures
            r@ == trim_end_char(self.authority_base@, '/') + "/"@ + self.tenant_id@
                + "/oauth2/v2.0/token"@,
    {
        let base = trim_end_char_chars(chars_of(self.authority_base.as_str()).as_slice(), '/');
        let mut r = string_of(base.as_slice());
        r.append("/");
        r.append(self.tenant_id.as_str());
        r.append("/oauth2/v2.0/token");
        r
    }

    /// `.default` scope for the environment resource.
    pub fn scope(&self) -> (r: String)
        ensures
            r@ == trim_end_char(self.resource@, '/') + "/.default"@,
    {
        let base = trim_end_char_chars(chars_of(self.resource.as_str()).as_slice(), '/');
        let mut r = string_of(base.as_slice());
        r.append("/.default");
        r
    }

    /// The URL of an OData path of the environment.
    pub fn data_url(&self, path: &str) -> (r: String)
        ensures
            r@ == trim_end_char(self.resource@, '/') + "/data/"@ + path@,
    {
        let base = trim_end_char_chars(chars_of(self.resource.as_str()).as_slice(), '/');
        let mut r = string_of(base.as_slice());
        r.append("/data/");
        r.append(path);
        r
    }

    /// Refuses a config whose resource, tenant, client id or secret is blank
    /// (empty or whitespace only), naming the first such field.
    pub fn validate(&self) -> (r: D365Result<()>)
        ensures
            match blank_field_message(
                self.resource@,
                self.tenant_id@,
                self.client_id@,
                self.client_secret@,
            ) {
                Some(m) => r matches Err(D365Error::AuthFailed(e)) && e@ == m,
                None => r is Ok,
            },
    {
        if trimmed_chars(self.resource.as_str()).len() == 0 {
            return Err(D365Error::AuthFailed(owned("resource must not be empty")));
        }
        if trimmed_chars(self.tenant_id.as_str()).len() == 0 {
            return Err(D365Error::AuthFailed(owned("tenant_id must not be empty")));
        }
        if trimmed_chars(self.client_id.as_str()).len() == 0 {
            return Err(D365Error::AuthFailed(owned("client_id must not be empty")));
        }
        if trimmed_chars(self.client_secret.as_str()).len() == 0 {
            return Err(D365Error::AuthFailed(owned("client_secret must not be empty")));
        }
        Ok(())
    }

    /// The debug text of the config, with the client secret masked.
    pub fn debug_string(&self) -> (r: String)
        ensures
            r@ == config_debug_spec(
                self.resource@,
                self.tenant_id@,
                self.client_id@,
                self.legal_entity@,
            ),
    {
        let mut r = owned("HttpD365Config { resource: ");
        r.append(debug_str(self.resource.as_str()).as_str());
        r.append(", tenant_id: ");
        r.append(debug_str(self.tenant_id.as_str()).as_str());
        r.append(", client_id: ");
        r.append(debug_str(self.client_id.as_str()).as_str());
        r.append(", client_secret: \"***\", legal_entity: ");
        r.append(debug_str(self.legal_entity.as_str()).as_str());
        r.append(" }");
        r
    }

    /// What the live client reports as its environment: the host's first label,
    /// the legal entity, the given role, the resource URL and the masked identity.
    pub fn environment_info(&self, environment_role: String) -> (r: EnvironmentInfo)
        ensures
            r.environment@ == host_label(self.resource@),
            r.legal_entity@ == self.legal_entity@,
            r.version@ == "Dynamics 365 Finance & Operations (live)"@,
            r.environment_role@ == environment_role@,
            r.base_url@ == self.resource@,
            r.platform@ == "Finance & Operations"@,
            r.identity@ == live_identity_spec(
                self.resource@,
                self.tenant_id@,
                self.client_id@,
                self.legal_entity@,
            ),
    {
        let https = chars_of("https://");
        let http = chars_of("http://");
        let dot = chars_of(".");
        proof {
            reveal_strlit("https://");
            reveal_strlit("http://");
            reveal_strlit(".");
            assert(dot@ =~= seq!['.']);
        }
        let a = trim_start_str_chars(chars_of(self.resource.as_str()).as_slice(), https.as_slice());
        let h = trim_start_str_chars(a.as_slice(), http.as_slice());
        let host = match find_chars(h.as_slice(), dot.as_slice()) {
            Some(i) => slice_chars(&h, 0, i),
            None => h,
        };
        proof {
            if first_occurrence(h@, seq!['.']) is Some {
                assert(host@ =~= h@.take(first_occurrence(h@, seq!['.']).unwrap()));
            }
        }
        let mut m: Vec<(String, Json)> = Vec::new();
        m.push((owned("client_id"), Json::Str(self.client_id.clone())));
        m.push((owned("client_secret"), Json::Str(owned("***"))));
        m.push((owned("legal_entity"), Json::Str(self.legal_entity.clone())));
        m.push((owned("resource"), Json::Str(self.resource.clone())));
        m.push((owned("source"), Json::Str(owned("HttpD365Client"))));
        m.push((owned("tenant_id"), Json::Str(self.tenant_id.clone())));
        proof {
            lemma_members_view(m@);
            assert(members_view(m@) =~= seq![
                ("client_id"@, JsonV::Str(self.client_id@)),
                ("client_secret"@, JsonV::Str("***"@)),
                ("legal_entity"@, JsonV::Str(self.legal_entity@)),
                ("resource"@, JsonV::Str(self.resource@)),
                ("source"@, JsonV::Str("HttpD365Client"@)),
                ("tenant_id"@, JsonV::Str(self.tenant_id@)),
            ]);
        }
        EnvironmentInfo {
            environment: string_of(host.as_slice()),
            legal_entity: self.legal_entity.clone(),
            version: owned("Dynamics 365 Finance & Operations (live)"),
            environment_role,
            base_url: self.resource.clone(),
            platform: owned("Finance & Operations"),
            identity: Json::Object(m),
        }
    }
}

/// Two configs that differ only in their client secret print the same debug text:
/// the secret never reaches it.
pub proof fn law_debug_text_hides_secret(a: HttpD365Config, b: HttpD365Config)
    requires
        a.resource@ == b.resource@,
        a.tenant_id@ == b.tenant_id@,
        a.client_id@ == b.client_id@,
        a.legal_entity@ == b.legal_entity@,
    ensures
        config_debug_spec(a.resource@, a.tenant_id@, a.client_id@, a.legal_entity@)
            == config_debug_spec(b.resource@, b.tenant_id@, b.client_id@, b.legal_entity@),
{
}


// ---------------------------------------------------------------------------
// Filter translation
// ---------------------------------------------------------------------------

/// Every `'` doubled, as an OData string literal needs.
pub open spec fn double_quotes(s: Seq<char>) -> Seq<char>
    decreases s.len(),
{
    if s.len() == 0 {
        seq![]
    } else {
        double_quotes(s.drop_last()) + if s.last() == '\'' {
            seq!['\'', '\'']
        } else {
            seq![s.last()]
        }
    }
}

/// The OData v4 form of a filter clause.  A `like` clause (keyword in any letter
/// case) becomes `contains`, `startswith` or `endswith` by where its pattern has
/// `%`, or an equality when it has none at either end; any other clause passes
/// through unchanged.
pub open spec fn translate_spec(c: Seq<char>) -> Seq<char> {
    match first_ci(c, " LIKE "@) {
        Some(i) => {
            let field = trim(c.take(i));
            let raw = trim_char(trim(c.skip(i + 6)), '\'');
            let needle = double_quotes(trim_char(raw, '%'));
            let starts = raw.len() > 0 && raw.first() == '%';
            let ends = raw.len() > 0 && raw.last() == '%';
            if starts && ends {
                "contains("@ + field + ",'"@ + needle + "')"@
            } else if ends {
                "startswith("@ + field + ",'"@ + needle + "')"@
            } else if starts {
                "endswith("@ + field + ",'"@ + needle + "')"@
            } else {
                field + " eq '"@ + needle + "'"@
            }
        },
        None => c,
    }
}

/// The characters of `v` with every `'` doubled.
fn double_quote_chars(v: &[char]) -> (r: Vec<char>)
    ensures
        r@ == double_quotes(v@),
{
    let mut r: Vec<char> = Vec::new();
    let mut i: usize = 0;
    while i < v.len()
        invariant
            i <= v.len(),
            r@ == double_quotes(v@.take(i as int)),
        decreases v.len() - i,
    {
        proof {
            assert(v@.take(i as int + 1).drop_last() =~= v@.take(i as int));
        }
        let ghost before = r@;
        if v[i] == '\'' {
            r.push('\'');
            r.push('\'');
            proof {
                assert(r@ =~= before + seq!['\'', '\'']);
            }
        } else {
            r.push(v[i]);
            proof {
                assert(r@ =~= before + seq![v@[i as int]]);
            }
        }
        i = i + 1;
    }
    proof {
        assert(v@.take(v@.len() as int) =~= v@);
    }
    r
}

/// The string `v` with every `'` doubled.
pub fn escape_literal(s: &str) -> (r: String)
    ensures
        r@ == double_quotes(s@),
{
    let d = double_quote_chars(chars_of(s).as_slice());
    string_of(d.as_slice())
}

/// Translate the filter mini-syntax to OData v4:
/// `Field like '%x%'` becomes `contains(Field,'x')`; `Field eq 'v'` passes through.
pub fn translate_filter(clause: &str) -> (r: String)
    ensures
        r@ == translate_spec(clause@),
{
    let c = chars_of(clause);
    let like = chars_of(" LIKE ");
    proof {
        reveal_strlit(" LIKE ");
    }
    match find_chars_ignore_case(c.as_slice(), like.as_slice()) {
        Some(i) => {
            proof {
                lemma_first_ci(c@, like@, i as int);
            }
            let head = slice_chars(&c, 0, i);
            let field = trim_chars(head.as_slice());
            let tail = slice_chars(&c, i + 6, c.len());
            let t = trim_chars(tail.as_slice());
            let raw = trim_char_chars(t.as_slice(), '\'');
            let inner = trim_char_chars(raw.as_slice(), '%');
            let needle = double_quote_chars(inner.as_slice());
            proof {
                assert(head@ =~= c@.take(i as int));
                assert(tail@ =~= c@.skip(i as int + 6));
            }
            let starts = raw.len() > 0 && raw[0] == '%';
            let ends = raw.len() > 0 && raw[raw.len() - 1] == '%';
            let f = string_of(field.as_slice());
            let n = string_of(needle.as_slice());
            if starts && ends {
                let mut out = owned("contains(");
                out.append(f.as_str());
                out.append(",'");
                out.append(n.as_str());
                out.append("')");
                out
            } else if ends {
                let mut out = owned("startswith(");
                out.append(f.as_str());
                out.append(",'");
                out.append(n.as_str());
                out.append("')");
                out
            } else if starts {
                let mut out = owned("endswith(");
                out.append(f.as_str());
                out.append(",'");
                out.append(n.as_str());
                out.append("')");
                out
            } else {
                let mut out = f;
                out.append(" eq '");
                out.append(n.as_str());
                out.append("'");
                out
            }
        },
        None => {
            proof {
                assert(!exists|j: int| occurs_at_ignore_case(c@, " LIKE "@, j));
            }
            owned(clause)
        },
    }
}

// ---------------------------------------------------------------------------
// Query parameters of an entity read
// ---------------------------------------------------------------------------

/// The parts joined with `sep` between each two.
pub open spec fn join(parts: Seq<Seq<char>>, sep: Seq<char>) -> Seq<char>
    decreases parts.len(),
{
    if parts.len() == 0 {
        seq![]
    } else if parts.len() == 1 {
        parts[0]
    } else {
        join(parts.drop_last(), sep) + sep + parts.last()
    }
}

/// Whether a filter is a condition on the company field: its field, the trimmed
/// text before its ` like ` / ` eq ` / `=` operator, is `dataAreaId` in any
/// letter case.
#[verifier::opaque]
pub open spec fn names_company_field(f: Seq<char>) -> bool {
    clause_spec(f) matches Some(c) && eq_ignore_case(c.field, "dataAreaId"@)
}

/// Whether some filter is a condition on the company field.
pub open spec fn mentions_company(filters: Seq<Seq<char>>) -> bool {
    exists|j: int| 0 <= j < filters.len() && names_company_field(#[trigger] filters[j])
}

/// The `$filter` clauses of a read: each filter translated, then the company
/// clause when the entity is company-scoped and no filter names the company field.
pub open spec fn query_clauses(
    filters: Seq<Seq<char>>,
    legal_entity: Seq<char>,
    company_scoped: bool,
) -> Seq<Seq<char>> {
    filters.map_values(|f: Seq<char>| translate_spec(f)) + if company_scoped && !mentions_company(
        filters,
    ) {
        seq![company_clause(legal_entity)]
    } else {
        seq![]
    }
}

/// `dataAreaId eq '<legal entity>'`, quotes in the legal entity doubled.
pub open spec fn company_clause(legal_entity: Seq<char>) -> Seq<char> {
    "dataAreaId"@ + " eq '"@ + double_quotes(legal_entity) + "'"@
}

/// The OData query parameters of a read: `$select` when fields are named, `$filter`
/// when there is any clause, and always `$top`.
pub open spec fn odata_query_spec(
    fields: Seq<Seq<char>>,
    filters: Seq<Seq<char>>,
    legal_entity: Seq<char>,
    company_scoped: bool,
    max_rows: usize,
) -> Seq<(Seq<char>, Seq<char>)> {
    let clauses = query_clauses(filters, legal_entity, company_scoped);
    (if fields.len() > 0 {
        seq![("$select"@, join(fields, ","@))]
    } else {
        seq![]
    }) + (if clauses.len() > 0 {
        seq![("$filter"@, join(clauses, " and "@))]
    } else {
        seq![]
    }) + seq![("$top"@, decimal(max_rows as nat))]
}

pub open spec fn pairs_view(v: Seq<(String, String)>) -> Seq<(Seq<char>, Seq<char>)> {
    v.map_values(|p: (String, String)| (p.0@, p.1@))
}

/// The views joined with `sep`.
pub fn join_strings(parts: &Vec<String>, sep: &str) -> (r: String)
    ensures
        r@ == join(strings_view(parts@), sep@),
{
    let ghost pv = strings_view(parts@);
    let mut r = String::new();
    let mut i: usize = 0;
    while i < parts.len()
        invariant
            i <= parts.len(),
            pv == strings_view(parts@),
            r@ == join(pv.take(i as int), sep@),
        decreases parts.len() - i,
    {
        proof {
            assert(pv.take(i as int + 1).drop_last() =~= pv.take(i as int));
            assert(pv.take(i as int + 1).last() == parts@[i as int]@);
        }
        if i > 0 {
            r.append(sep);
        }
        r.append(parts[i].as_str());
        proof {
            if i == 0 {
                assert(r@ =~= join(pv.take(1), sep@));
            }
        }
        i = i + 1;
    }
    proof {
        assert(pv.take(pv.len() as int) =~= pv);
    }
    r
}

/// Whether a filter is a condition on the company field.
fn filter_names_company(f: &str) -> (b: bool)
    ensures
        b == names_company_field(f@),
{
    proof {
        reveal(names_company_field);
    }
    match parse_clause(f) {
        Some(c) => str_eq_ignore_case(c.field.as_str(), COMPANY_FIELD),
        None => false,
    }
}

/// Whether some filter is a condition on the company field.
fn filters_mention_company(filters: &Vec<String>) -> (b: bool)
    ensures
        b == mentions_company(strings_view(filters@)),
{
    let mut j: usize = 0;
    while j < filters.len()
        invariant
            j <= filters.len(),
            forall|k: int|
                0 <= k < j ==> !names_company_field(#[trigger] strings_view(filters@)[k]),
        decreases filters.len() - j,
    {
        proof {
            assert(strings_view(filters@)[j as int] == filters@[j as int]@);
        }
        if filter_names_company(filters[j].as_str()) {
            return true;
        }
        j = j + 1;
    }
    false
}

/// Build the OData v4 query parameters `$select`, `$filter` and `$top` of a read,
/// adding a `dataAreaId` clause for a company-scoped entity when no filter names it.
pub fn build_odata_query(req: &ReadEntityRequest, legal_entity: &str, company_scoped: bool) -> (q:
    Vec<(String, String)>)
    ensures
        pairs_view(q@) == odata_query_spec(
            strings_view(req.fields@),
            strings_view(req.filters@),
            legal_entity@,
            company_scoped,
            req.max_rows,
        ),
{
    let ghost fv = strings_view(req.filters@);
    let mut q: Vec<(String, String)> = Vec::new();
    if req.fields.len() > 0 {
        q.push((owned("$select"), join_strings(&req.fields, ",")));
    }
    let ghost sel = pairs_view(q@);
    let mut clauses: Vec<String> = Vec::new();
    let mut i: usize = 0;
    while i < req.filters.len()
        invariant
            i <= req.filters.len(),
            fv == strings_view(req.filters@),
            strings_view(clauses@) == fv.take(i as int).map_values(
                |f: Seq<char>| translate_spec(f),
            ),
        decreases req.filters.len() - i,
    {
        let ghost before = clauses@;
        clauses.push(translate_filter(req.filters[i].as_str()));
        proof {
            assert(fv[i as int] == req.filters@[i as int]@);
            assert(strings_view(clauses@) =~= strings_view(before).push(translate_spec(fv[i as int])));
            assert(fv.take(i as int + 1).map_values(|f: Seq<char>| translate_spec(f))
                =~= fv.take(i as int).map_values(|f: Seq<char>| translate_spec(f)).push(
                translate_spec(fv[i as int]),
            ));
        }
        i = i + 1;
    }
    proof {
        assert(fv.take(fv.len() as int) =~= fv);
    }
    if company_scoped && !filters_mention_company(&req.filters) {
        let ghost before = clauses@;
        let mut c = owned(COMPANY_FIELD);
        c.append(" eq '");
        c.append(escape_literal(legal_entity).as_str());
        c.append("'");
        clauses.push(c);
        proof {
            assert(strings_view(clauses@) =~= strings_view(before).push(company_clause(legal_entity@)));
        }
    }
    proof {
        assert(strings_view(clauses@) =~= query_clauses(fv, legal_entity@, company_scoped));
    }
    if clauses.len() > 0 {
        q.push((owned("$filter"), join_strings(&clauses, " and ")));
    }
    let ghost fil = pairs_view(q@);
    q.push((owned("$top"), decimal_text(req.max_rows as u64)));
    proof {
        assert(pairs_view(q@) =~= fil + seq![("$top"@, decimal(req.max_rows as nat))]);
        if req.fields@.len() > 0 {
            assert(sel =~= seq![("$select"@, join(strings_view(req.fields@), ","@))]);
        } else {
            assert(sel =~= Seq::<(Seq<char>, Seq<char>)>::empty());
        }
        if clauses@.len() > 0 {
            assert(fil =~= sel + seq![
                ("$filter"@, join(query_clauses(fv, legal_entity@, company_scoped), " and "@)),
            ]);
        } else {
            assert(fil =~= sel);
        }
    }
    q
}

/// A read of a company-scoped entity whose filters never name the company field
/// always carries a `$filter` ending in the connection's company clause; when a
/// filter does name it, no company clause is added.
pub proof fn law_query_scopes_company(
    fields: Seq<Seq<char>>,
    filters: Seq<Seq<char>>,
    legal_entity: Seq<char>,
    max_rows: usize,
)
    ensures
        !mentions_company(filters) ==> exists|k: int|
            0 <= k < odata_query_spec(fields, filters, legal_entity, true, max_rows).len()
                && #[trigger] odata_query_spec(fields, filters, legal_entity, true, max_rows)[k].0
                == "$filter"@ && has_suffix(
                odata_query_spec(fields, filters, legal_entity, true, max_rows)[k].1,
                company_clause(legal_entity),
            ),
        mentions_company(filters) ==> query_clauses(filters, legal_entity, true)
            == filters.map_values(|f: Seq<char>| translate_spec(f)),
{
    let cl = query_clauses(filters, legal_entity, true);
    if !mentions_company(filters) {
        let q = odata_query_spec(fields, filters, legal_entity, true, max_rows);
        let k: int = if fields.len() > 0 {
            1
        } else {
            0
        };
        assert(cl.len() > 0);
        assert(cl.last() == company_clause(legal_entity));
        let j = join(cl, " and "@);
        if cl.len() == 1 {
            assert(j == company_clause(legal_entity));
            assert(j.skip(j.len() - company_clause(legal_entity).len()) =~= j);
        } else {
            assert(j == join(cl.drop_last(), " and "@) + " and "@ + cl.last());
            assert(j.skip(j.len() - company_clause(legal_entity).len()) =~= cl.last());
        }
        assert(q[k].0 == "$filter"@);
    } else {
        assert(cl =~= filters.map_values(|f: Seq<char>| translate_spec(f)));
    }
}

// ---------------------------------------------------------------------------
// HTTP status mapping
// ---------------------------------------------------------------------------

/// The byte limit of a response body quoted in an error.
pub const BODY_QUOTE_LIMIT: usize = 300;

/// Whether a body can be cut at the quote limit: it is no longer than the limit,
/// or the limit falls on a character boundary.
pub open spec fn quotable(s: Seq<char>) -> bool {
    &&& encode_utf8(s).len() <= usize::MAX
    &&& encode_utf8(s).len() <= 300 || is_char_boundary(encode_utf8(s), 300)
}

/// A body as quoted in an error: whole when its UTF-8 form is at most 300 bytes,
/// otherwise its first 300 bytes followed by an ellipsis.
pub open spec fn quoted_body(s: Seq<char>) -> Seq<char> {
    if encode_utf8(s).len() <= 300 {
        s
    } else {
        decode_utf8(encode_utf8(s).subrange(0, 300)) + "\u{2026}"@
    }
}

/// Cut a response body to at most 300 bytes for an error message.
pub fn truncate(s: &str) -> (r: String)
    requires
        quotable(s@),
    ensures
        r@ == quoted_body(s@),
{
    if s.len() <= BODY_QUOTE_LIMIT {
        owned(s)
    } else {
        let (head, _tail) = s.split_at(BODY_QUOTE_LIMIT);
        proof {
            encode_utf8_decode_utf8(head@);
        }
        let mut r = owned(head);
        r.append("\u{2026}");
        r
    }
}

/// `<status>: <quoted body>`.
pub open spec fn status_reason(status: u16, body: Seq<char>) -> Seq<char> {
    decimal(status as nat) + ": "@ + quoted_body(body)
}

/// The error an HTTP failure status maps to.
pub open spec fn status_error_matches(status: u16, body: Seq<char>, e: D365Error) -> bool {
    let q = quoted_body(body);
    if status == 401 {
        e matches D365Error::AuthFailed(m) && m@ == q
    } else if status == 403 {
        e matches D365Error::PermissionDenied(m) && m@ == q
    } else if status == 404 {
        e matches D365Error::NotFound(m) && m@ == q
    } else if status == 408 {
        e matches D365Error::Timeout { timeout_ms } && timeout_ms == 0
    } else if status == 429 || status == 503 {
        e matches D365Error::EnvironmentDown { environment, reason } && environment@ == "live"@
            && reason@ == status_reason(status, body)
    } else if status == 400 || status == 422 {
        e matches D365Error::SchemaViolation(m) && m@ == q
    } else if status >= 500 {
        e matches D365Error::EnvironmentDown { environment, reason } && environment@ == "live"@
            && reason@ == status_reason(status, body)
    } else {
        e matches D365Error::Internal(m) && m@ == "unexpected status "@ + status_reason(
            status,
            body,
        )
    }
}

/// Whether the error of a failure status quotes the response body: every status
/// but 408.
pub open spec fn status_quotes_body(status: u16) -> bool {
    status != 408
}

/// Whether the error of a failure status quotes the response body.
pub fn quotes_body(status: u16) -> (b: bool)
    ensures
        b == status_quotes_body(status),
{
    status != 408
}

/// Map an HTTP failure status and its body to an error.
pub fn map_status(status: u16, body: &str) -> (e: D365Error)
    requires
        status_quotes_body(status) ==> quotable(body@),
    ensures
        status_error_matches(status, body@, e),
{
    if status == 401 {
        D365Error::AuthFailed(truncate(body))
    } else if status == 403 {
        D365Error::PermissionDenied(truncate(body))
    } else if status == 404 {
        D365Error::NotFound(truncate(body))
    } else if status == 408 {
        D365Error::Timeout { timeout_ms: 0 }
    } else if status == 429 || status == 503 || (status >= 500 && status != 400 && status != 422) {
        let mut reason = decimal_text(status as u64);
        reason.append(": ");
        reason.append(truncate(body).as_str());
        proof {
            assert(reason@ =~= status_reason(status, body@));
        }
        D365Error::EnvironmentDown { environment: owned("live"), reason }
    } else if status == 400 || status == 422 {
        D365Error::SchemaViolation(truncate(body))
    } else {
        let mut m = owned("unexpected status ");
        m.append(decimal_text(status as u64).as_str());
        m.append(": ");
        m.append(truncate(body).as_str());
        proof {
            assert(m@ =~= "unexpected status "@ + status_reason(status, body@));
        }
        D365Error::Internal(m)
    }
}

/// The error a failed HTTPS exchange maps to: a timeout, an unreachable
/// environment (the transport's description as the reason), or an internal error.
pub fn transport_error(is_timeout: bool, is_connect: bool, description: String) -> (e: D365Error)
    ensures
        is_timeout ==> (e matches D365Error::Timeout { timeout_ms } && timeout_ms == 0),
        !is_timeout && is_connect ==> (e matches D365Error::EnvironmentDown { environment, reason }
            && environment@ == "live"@ && reason@ == description@),
        !is_timeout && !is_connect ==> (e matches D365Error::Internal(m) && m@ == description@),
{
    if is_timeout {
        D365Error::Timeout { timeout_ms: 0 }
    } else if is_connect {
        D365Error::EnvironmentDown { environment: owned("live"), reason: description }
    } else {
        D365Error::Internal(description)
    }
}

} // verus!
