//! Entra ID (Azure AD) client credentials and the providers that supply them.
//!
//! A Dynamics 365 environment is reached with an app registration's
//! `client_id` + `client_secret` for a `tenant_id`, exchanged for a bearer token
//! scoped to the environment resource.  Providers are tried in order; the first
//! that yields credentials wins.

use vstd::prelude::*;
use crate::json::{Json, JsonV, owned};
use crate::odata::error::{D365Error, D365ErrorCode, D365Result, d365_error_code, d365_error_message};

verus! {

/// Where a credential came from (for audit logs).
#[derive(Debug, Clone, Copy, PartialEq, Eq, Structural)]
pub enum CredentialSource {
    Env,
    Keyring,
    EncryptedFile,
    DotEnv,
    Static,
    NoSource,
}

pub open spec fn source_name_spec(s: CredentialSource) -> Seq<char> {
    match s {
        CredentialSource::Env => "Env"@,
        CredentialSource::Keyring => "Keyring"@,
        CredentialSource::EncryptedFile => "EncryptedFile"@,
        CredentialSource::DotEnv => "DotEnv"@,
        CredentialSource::Static => "Static"@,
        CredentialSource::NoSource => "None"@,
    }
}

impl CredentialSource {
    /// The name audit records give the source (`NoSource` reads `None`).
    pub fn name(self) -> (r: String)
        ensures
            r@ == source_name_spec(self),
    {
        match self {
            CredentialSource::Env => owned("Env"),
            CredentialSource::Keyring => owned("Keyring"),
            CredentialSource::EncryptedFile => owned("EncryptedFile"),
            CredentialSource::DotEnv => owned("DotEnv"),
            CredentialSource::Static => owned("Static"),
            CredentialSource::NoSource => owned("None"),
        }
    }
}

/// Entra ID client-credentials for one Dynamics 365 environment.
#[derive(Debug)]
pub struct Credentials {
    /// e.g. `https://gt-prod.operations.dynamics.com`
    pub resource: String,
    /// Entra ID tenant (directory) id.
    pub tenant_id: String,
    /// App registration (client) id.
    pub client_id: String,
    /// App registration secret.  Kept for the process lifetime; never logged.
    pub client_secret: String,
    /// Default legal entity (DataAreaId), e.g. `USMF`.
    pub legal_entity: String,
    /// Where this credential came from.
    pub source: CredentialSource,
}

pub struct CredentialsView {
    pub resource: Seq<char>,
    pub tenant_id: Seq<char>,
    pub client_id: Seq<char>,
    pub client_secret: Seq<char>,
    pub legal_entity: Seq<char>,
    pub source: CredentialSource,
}

impl View for Credentials {
    type V = CredentialsView;

    open spec fn view(&self) -> CredentialsView {
        CredentialsView {
            resource: self.resource@,
            tenant_id: self.tenant_id@,
            client_id: self.client_id@,
            client_secret: self.client_secret@,
            legal_entity: self.legal_entity@,
            source: self.source,
        }
    }
}

/// The redacted summary of a credential: every field but the secret, which reads
/// `***`; members in key order.
pub open spec fn redacted_spec(c: CredentialsView) -> JsonV {
    JsonV::Object(
        seq![
            ("client_id"@, JsonV::Str(c.client_id)),
            ("client_secret"@, JsonV::Str("***"@)),
            ("legal_entity"@, JsonV::Str(c.legal_entity)),
            ("resource"@, JsonV::Str(c.resource)),
            ("source"@, JsonV::Str(source_name_spec(c.source))),
            ("tenant_id"@, JsonV::Str(c.tenant_id)),
        ],
    )
}

impl Credentials {
    /// A field-by-field copy.
    pub fn duplicate(&self) -> (r: Self)
        ensures
            r@ == self@,
    {
        Credentials {
            resource: self.resource.clone(),
            tenant_id: self.tenant_id.clone(),
            client_id: self.client_id.clone(),
            client_secret: self.client_secret.clone(),
            legal_entity: self.legal_entity.clone(),
            source: self.source,
        }
    }

    /// Authority URL for the OAuth2 token endpoint.
    pub fn token_endpoint(&self) -> (r: String)
        ensures
            r@ == "https://login.microsoftonline.com/"@ + self.tenant_id@ + "/oauth2/v2.0/token"@,
    {
        let mut r = owned("https://login.microsoftonline.com/");
        r.append(self.tenant_id.as_str());
        r.append("/oauth2/v2.0/token");
        r
    }

    /// Redacted summary safe for logs and the environment-info resource.
    pub fn redacted(&self) -> (r: Json)
        ensures
            r@ == redacted_spec(self@),
    {
        let mut m: Vec<(String, Json)> = Vec::new();
        m.push((owned("client_id"), Json::Str(self.client_id.clone())));
        m.push((owned("client_secret"), Json::Str(owned("***"))));
        m.push((owned("legal_entity"), Json::Str(self.legal_entity.clone())));
        m.push((owned("resource"), Json::Str(self.resource.clone())));
        m.push((owned("source"), Json::Str(self.source.name())));
        m.push((owned("tenant_id"), Json::Str(self.tenant_id.clone())));
        let r = Json::Object(m);
        proof {
            crate::json::lemma_members_view(m@);
            assert(crate::json::members_view(m@) =~= seq![
                ("client_id"@, JsonV::Str(self.client_id@)),
                ("client_secret"@, JsonV::Str("***"@)),
                ("legal_entity"@, JsonV::Str(self.legal_entity@)),
                ("resource"@, JsonV::Str(self.resource@)),
                ("source"@, JsonV::Str(source_name_spec(self.source))),
                ("tenant_id"@, JsonV::Str(self.tenant_id@)),
            ]);
        }
        r
    }
}

/// A source of credentials.  `Ok(None)` means "nothing configured here", so a
/// chain can move on to the next provider.
pub trait CredentialProvider {
    /// What `fetch` yields, in outline: `Ok(Some(c))` for credentials `c`,
    /// `Ok(None)` when nothing is configured, `Err` with the code and message of
    /// the error for a refusal.
    spec fn outline(&self) -> FetchOutline;

    fn fetch(&self) -> (r: D365Result<Option<Credentials>>)
        ensures
            fetch_outline(r) == self.outline(),
    ;
}

/// The outline of a fetch: the credentials' content, nothing, or an error's code
/// and message.
pub type FetchOutline = Result<Option<CredentialsView>, (D365ErrorCode, Seq<char>)>;

/// An error as an outline keeps it: its code and its message.
pub open spec fn error_outline(e: D365Error) -> (D365ErrorCode, Seq<char>) {
    (d365_error_code(e), d365_error_message(e))
}

pub open spec fn fetch_outline(r: D365Result<Option<Credentials>>) -> FetchOutline {
    match r {
        Ok(Some(c)) => Ok(Some(c@)),
        Ok(None) => Ok(None),
        Err(e) => Err(error_outline(e)),
    }
}

// ---------------------------------------------------------------------------
// Environment provider
// ---------------------------------------------------------------------------

/// The `D365_*` variables, as read from the process environment.
pub struct EnvVars {
    pub resource: Option<String>,
    pub tenant_id: Option<String>,
    pub client_id: Option<String>,
    pub client_secret: Option<String>,
    pub legal_entity: Option<String>,
}

/// The names of the variables a complete environment configuration needs.
pub open spec fn required_names() -> Seq<Seq<char>> {
    seq!["D365_RESOURCE"@, "D365_TENANT_ID"@, "D365_CLIENT_ID"@, "D365_CLIENT_SECRET"@]
}

pub open spec fn required_present(v: EnvVars) -> Seq<bool> {
    seq![v.resource is Some, v.tenant_id is Some, v.client_id is Some, v.client_secret is Some]
}

/// The names of the missing required variables, in order.
pub open spec fn missing_names(present: Seq<bool>, names: Seq<Seq<char>>) -> Seq<Seq<char>>
    decreases present.len(),
{
    if present.len() == 0 || names.len() == 0 {
        seq![]
    } else if present.last() {
        missing_names(present.drop_last(), names.drop_last())
    } else {
        missing_names(present.drop_last(), names.drop_last()).push(names.last())
    }
}

/// `["A", "B"]`: names quoted, separated by `, `, in brackets.
pub open spec fn quoted_list(names: Seq<Seq<char>>) -> Seq<char> {
    "["@ + quoted_items(names) + "]"@
}

pub open spec fn quoted_items(names: Seq<Seq<char>>) -> Seq<char>
    decreases names.len(),
{
    if names.len() == 0 {
        seq![]
    } else if names.len() == 1 {
        "\""@ + names[0] + "\""@
    } else {
        quoted_items(names.drop_last()) + ", "@ + "\""@ + names.last() + "\""@
    }
}

/// What the environment provider reports for a set of variables: nothing when no
/// required variable is set; a refusal naming the missing ones when only some are;
/// otherwise the credentials, with `USMF` as the default legal entity.
pub open spec fn env_outcome(v: EnvVars, r: D365Result<Option<Credentials>>) -> bool {
    let present = required_present(v);
    if !present[0] && !present[1] && !present[2] && !present[3] {
        r matches Ok(None)
    } else if !(present[0] && present[1] && present[2] && present[3]) {
        r matches Err(D365Error::AuthFailed(msg)) && msg@ == "partial Dynamics 365 env vars: missing "@
            + quoted_list(missing_names(present, required_names()))
    } else {
        r matches Ok(Some(c)) && c@ == CredentialsView {
            resource: v.resource.unwrap()@,
            tenant_id: v.tenant_id.unwrap()@,
            client_id: v.client_id.unwrap()@,
            client_secret: v.client_secret.unwrap()@,
            legal_entity: match v.legal_entity {
                Some(l) => l@,
                None => "USMF"@,
            },
            source: CredentialSource::Env,
        }
    }
}

/// The quoted list of the names whose variable is not present.
fn missing_list(present: &Vec<bool>, names: &Vec<&str>) -> (r: String)
    requires
        present@.len() == names@.len(),
    ensures
        r@ == quoted_list(missing_names(present@, names@.map_values(|s: &str| s@))),
{
    let ghost nv = names@.map_values(|s: &str| s@);
    let mut list = owned("[");
    let ghost mut shown: Seq<Seq<char>> = seq![];
    let mut any = false;
    let mut i: usize = 0;
    while i < present.len()
        invariant
            i <= present@.len(),
            present@.len() == names@.len(),
            nv == names@.map_values(|s: &str| s@),
            shown == missing_names(present@.take(i as int), nv.take(i as int)),
            list@ == "["@ + quoted_items(shown),
            any == (shown.len() > 0),
        decreases present.len() - i,
    {
        proof {
            assert(present@.take(i as int + 1).drop_last() =~= present@.take(i as int));
            assert(nv.take(i as int + 1).drop_last() =~= nv.take(i as int));
            assert(present@.take(i as int + 1).last() == present@[i as int]);
            assert(nv.take(i as int + 1).last() == names@[i as int]@);
        }
        if !present[i] {
            let ghost prev = shown;
            if any {
                list.append(", ");
            }
            any = true;
            list.append("\"");
            list.append(names[i]);
            list.append("\"");
            proof {
                shown = shown.push(names@[i as int]@);
                assert(shown.drop_last() =~= prev);
                if prev.len() == 0 {
                    assert(list@ =~= "["@ + quoted_items(shown));
                } else {
                    assert(list@ =~= "["@ + quoted_items(shown));
                }
            }
        }
        i = i + 1;
    }
    list.append("]");
    proof {
        assert(present@.take(present@.len() as int) =~= present@);
        assert(nv.take(nv.len() as int) =~= nv);
    }
    list
}

/// The outline of what the environment provider yields for `v`.
pub open spec fn env_outline(v: EnvVars) -> FetchOutline {
    let present = required_present(v);
    if !present[0] && !present[1] && !present[2] && !present[3] {
        Ok(None)
    } else if !(present[0] && present[1] && present[2] && present[3]) {
        Err(
            (
                D365ErrorCode::AuthFailed,
                "authentication failed: "@ + "partial Dynamics 365 env vars: missing "@
                    + quoted_list(missing_names(present, required_names())),
            ),
        )
    } else {
        Ok(
            Some(
                CredentialsView {
                    resource: v.resource.unwrap()@,
                    tenant_id: v.tenant_id.unwrap()@,
                    client_id: v.client_id.unwrap()@,
                    client_secret: v.client_secret.unwrap()@,
                    legal_entity: match v.legal_entity {
                        Some(l) => l@,
                        None => "USMF"@,
                    },
                    source: CredentialSource::Env,
                },
            ),
        )
    }
}

/// Yields the credentials held in `D365_RESOURCE`, `D365_TENANT_ID`,
/// `D365_CLIENT_ID`, `D365_CLIENT_SECRET` and the optional `D365_LEGAL_ENTITY`.
/// The variables are read from the process environment by the caller and handed
/// over at construction.
pub struct EnvCredentialProvider {
    vars: EnvVars,
}

impl EnvCredentialProvider {
    pub fn new(vars: EnvVars) -> (r: Self)
        ensures
            r.variables() == vars,
    {
        EnvCredentialProvider { vars }
    }

    pub closed spec fn variables(&self) -> EnvVars {
        self.vars
    }
}

impl CredentialProvider for EnvCredentialProvider {
    open spec fn outline(&self) -> FetchOutline {
        env_outline(self.variables())
    }

    fn fetch(&self) -> (r: D365Result<Option<Credentials>>)
        ensures
            env_outcome(self.variables(), r),
    {
        let vars = &self.vars;
        let ghost v = *vars;
        let p0 = vars.resource.is_some();
        let p1 = vars.tenant_id.is_some();
        let p2 = vars.client_id.is_some();
        let p3 = vars.client_secret.is_some();
        if !p0 && !p1 && !p2 && !p3 {
            return Ok(None);
        }
        if !(p0 && p1 && p2 && p3) {
            let mut present: Vec<bool> = Vec::new();
            present.push(p0);
            present.push(p1);
            present.push(p2);
            present.push(p3);
            let mut names: Vec<&str> = Vec::new();
            names.push("D365_RESOURCE");
            names.push("D365_TENANT_ID");
            names.push("D365_CLIENT_ID");
            names.push("D365_CLIENT_SECRET");
            proof {
                assert(present@ =~= required_present(v));
                assert(names@.map_values(|s: &str| s@) =~= required_names());
            }
            let list = missing_list(&present, &names);
            let mut msg = owned("partial Dynamics 365 env vars: missing ");
            msg.append(list.as_str());
            proof {
                let m = msg@;
                assert("authentication failed: "@ + m =~= "authentication failed: "@
                    + "partial Dynamics 365 env vars: missing "@ + quoted_list(
                    missing_names(required_present(v), required_names()),
                ));
            }
            return Err(D365Error::AuthFailed(msg));
        }
        let legal = match &vars.legal_entity {
            Some(l) => l.clone(),
            None => owned("USMF"),
        };
        match (&vars.resource, &vars.tenant_id, &vars.client_id, &vars.client_secret) {
            (Some(resource), Some(tenant_id), Some(client_id), Some(client_secret)) => Ok(
                Some(
                    Credentials {
                        resource: resource.clone(),
                        tenant_id: tenant_id.clone(),
                        client_id: client_id.clone(),
                        client_secret: client_secret.clone(),
                        legal_entity: legal,
                        source: CredentialSource::Env,
                    },
                ),
            ),
            _ => Ok(None),
        }
    }
}

// ---------------------------------------------------------------------------
// Static provider (tests, demos)
// ---------------------------------------------------------------------------

/// Always yields the credentials it was built with.
pub struct StaticCredentialProvider {
    creds: Credentials,
}

impl StaticCredentialProvider {
    pub fn new(creds: Credentials) -> (r: Self)
        ensures
            r.credentials() == creds@,
    {
        StaticCredentialProvider { creds }
    }

    pub closed spec fn credentials(&self) -> CredentialsView {
        self.creds@
    }
}

impl CredentialProvider for StaticCredentialProvider {
    open spec fn outline(&self) -> FetchOutline {
        Ok(Some(self.credentials()))
    }

    fn fetch(&self) -> (r: D365Result<Option<Credentials>>)
        ensures
            r matches Ok(Some(c)) && c@ == self.credentials(),
    {
        Ok(Some(self.creds.duplicate()))
    }
}

// ---------------------------------------------------------------------------
// Layered chain
// ---------------------------------------------------------------------------

/// Tries each provider in order; the first that yields credentials or refuses
/// decides.  Yields nothing only when every provider is empty.
pub struct LayeredCredentialProvider {
    providers: Vec<Box<dyn CredentialProvider>>,
}

impl LayeredCredentialProvider {
    /// The providers, in the order they are tried.
    pub closed spec fn provider_list(&self) -> Seq<Box<dyn CredentialProvider>> {
        self.providers@
    }

    pub fn new() -> (r: Self)
        ensures
            r.provider_list() == Seq::<Box<dyn CredentialProvider>>::empty(),
    {
        LayeredCredentialProvider { providers: Vec::new() }
    }

    /// The chain with `p` tried after every provider already in it.
    pub fn add(self, p: Box<dyn CredentialProvider>) -> (r: Self)
        ensures
            r.provider_list() == self.provider_list().push(p),
    {
        let mut providers = self.providers;
        providers.push(p);
        LayeredCredentialProvider { providers }
    }
}

pub open spec fn chain_outline(ps: Seq<Box<dyn CredentialProvider>>) -> FetchOutline
    decreases ps.len(),
{
    if ps.len() == 0 {
        Ok(None)
    } else if ps[0].outline() == empty_outline() {
        chain_outline(ps.drop_first())
    } else {
        ps[0].outline()
    }
}

/// The outline of a provider with nothing configured.
pub open spec fn empty_outline() -> FetchOutline {
    Ok(None)
}

/// A chain yields nothing exactly when every provider in it yields nothing;
/// otherwise it yields what the first provider that does not come up empty
/// yields (its credentials, or its refusal).
pub proof fn law_chain_first_wins(ps: Seq<Box<dyn CredentialProvider>>)
    ensures
        chain_outline(ps) == empty_outline() <==> forall|i: int|
            0 <= i < ps.len() ==> #[trigger] ps[i].outline() == empty_outline(),
        chain_outline(ps) != empty_outline() ==> exists|i: int|
            0 <= i < ps.len() && chain_outline(ps) == #[trigger] ps[i].outline() && forall|k: int|
                0 <= k < i ==> ps[k].outline() == empty_outline(),
    decreases ps.len(),
{
    if ps.len() > 0 {
        let rest = ps.drop_first();
        law_chain_first_wins(rest);
        assert forall|i: int| 0 <= i < rest.len() implies rest[i] == ps[i + 1] by {}
        if ps[0].outline() == empty_outline() {
            if chain_outline(ps) == empty_outline() {
                assert forall|i: int| 0 <= i < ps.len() implies #[trigger] ps[i].outline() == empty_outline() by {
                    if i > 0 {
                        assert(rest[i - 1].outline() == empty_outline());
                    }
                }
            } else {
                let j = choose|j: int|
                    0 <= j < rest.len() && chain_outline(rest) == #[trigger] rest[j].outline()
                        && forall|k: int| 0 <= k < j ==> rest[k].outline() == empty_outline();
                assert(chain_outline(ps) == ps[j + 1].outline());
                assert forall|k: int| 0 <= k < j + 1 implies ps[k].outline() == empty_outline() by {
                    if k > 0 {
                        assert(rest[k - 1].outline() == empty_outline());
                    }
                }
                assert(!(ps[j + 1].outline() == empty_outline()));
            }
        } else {
            assert(chain_outline(ps) == ps[0].outline());
        }
    }
}

impl CredentialProvider for LayeredCredentialProvider {
    open spec fn outline(&self) -> FetchOutline {
        chain_outline(self.provider_list())
    }

    fn fetch(&self) -> (r: D365Result<Option<Credentials>>)
    {
        let ghost ps = self.providers@;
        proof {
            assert(ps.skip(0) =~= ps);
        }
        let mut i: usize = 0;
        while i < self.providers.len()
            invariant
                i <= ps.len(),
                ps == self.providers@,
                chain_outline(ps) == chain_outline(ps.skip(i as int)),
            decreases self.providers.len() - i,
        {
            let r = self.providers[i].fetch();
            proof {
                assert(ps.skip(i as int)[0] == ps[i as int]);
                assert(ps.skip(i as int).drop_first() =~= ps.skip(i as int + 1));
            }
            match r {
                Ok(Some(c)) => {
                    return Ok(Some(c));
                },
                Ok(None) => {},
                Err(e) => {
                    return Err(e);
                },
            }
            i = i + 1;
        }
        proof {
            assert(ps.skip(i as int) =~= Seq::<Box<dyn CredentialProvider>>::empty());
        }
        Ok(None)
    }
}

} // verus!
