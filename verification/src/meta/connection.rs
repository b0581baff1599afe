//! Connection model: a named bundle of base URL, legal entity and auth method.

use vstd::prelude::*;
use crate::json::{Json, JsonV, owned, members_view, lemma_members_view};
use crate::text::chars_of;
use crate::meta::error::MetaError;

verus! {

/// One connection = one Dynamics 365 environment endpoint.  It has no derived
/// debug form: its auth may hold secrets (see `D365Auth::debug_string`).
pub struct D365Connection {
    /// Logical name (the lookup key the file is selected under always wins).
    pub name: String,
    /// e.g. `https://gt-prod.operations.dynamics.com`
    pub base_url: String,
    /// Default legal entity / DataAreaId, e.g. `USMF`.
    pub legal_entity: String,
    pub auth: D365Auth,
}

pub enum D365Auth {
    /// Microsoft Entra ID OAuth2 client-credentials (the standard F&O path).
    ClientCredentials { tenant_id: String, client_id: String, client_secret: String },
    /// Pre-acquired bearer token.
    Bearer { token: String },
    /// Entra ID certificate credential (cert + key PEM paths).
    Certificate { tenant_id: String, client_id: String, cert_path: String, key_path: String },
    /// Mock connection — no network at all.
    Mock,
}

/// The auth method's name, the only part of it ever printed.
pub open spec fn auth_label(a: D365Auth) -> Seq<char> {
    match a {
        D365Auth::ClientCredentials { .. } => "client_credentials"@,
        D365Auth::Bearer { .. } => "bearer"@,
        D365Auth::Certificate { .. } => "certificate"@,
        D365Auth::Mock => "mock"@,
    }
}

/// The name of an auth method.
pub fn auth_type_label(auth: &D365Auth) -> (r: &'static str)
    ensures
        r@ == auth_label(*auth),
{
    match auth {
        D365Auth::ClientCredentials { .. } => "client_credentials",
        D365Auth::Bearer { .. } => "bearer",
        D365Auth::Certificate { .. } => "certificate",
        D365Auth::Mock => "mock",
    }
}

impl D365Auth {
    /// The debug text of an auth method: its name only, never a secret.
    pub fn debug_string(&self) -> (r: String)
        ensures
            r@ == "D365Auth::"@ + auth_label(*self),
    {
        let mut r = owned("D365Auth::");
        r.append(auth_type_label(self));
        r
    }

    /// A copy.
    pub fn duplicate(&self) -> (r: Self)
        ensures
            r == *self,
    {
        match self {
            D365Auth::ClientCredentials { tenant_id, client_id, client_secret } => {
                D365Auth::ClientCredentials {
                    tenant_id: tenant_id.clone(),
                    client_id: client_id.clone(),
                    client_secret: client_secret.clone(),
                }
            },
            D365Auth::Bearer { token } => D365Auth::Bearer { token: token.clone() },
            D365Auth::Certificate { tenant_id, client_id, cert_path, key_path } => {
                D365Auth::Certificate {
                    tenant_id: tenant_id.clone(),
                    client_id: client_id.clone(),
                    cert_path: cert_path.clone(),
                    key_path: key_path.clone(),
                }
            },
            D365Auth::Mock => D365Auth::Mock,
        }
    }
}

/// The redacted summary of a connection: name, base URL, legal entity and the
/// auth method's name; members in key order.
pub open spec fn connection_redacted(
    name: Seq<char>,
    base_url: Seq<char>,
    legal_entity: Seq<char>,
    auth: D365Auth,
) -> JsonV {
    JsonV::Object(
        seq![
            ("auth_type"@, JsonV::Str(auth_label(auth))),
            ("base_url"@, JsonV::Str(base_url)),
            ("legal_entity"@, JsonV::Str(legal_entity)),
            ("name"@, JsonV::Str(name)),
        ],
    )
}

impl D365Connection {
    /// A connection to the offline mock environment.
    pub fn mock(name: &str) -> (r: Self)
        ensures
            r.name@ == name@,
            r.base_url@ == "https://gt-dev.operations.dynamics.com"@,
            r.legal_entity@ == "USMF"@,
            r.auth is Mock,
    {
        D365Connection {
            name: owned(name),
            base_url: owned("https://gt-dev.operations.dynamics.com"),
            legal_entity: owned("USMF"),
            auth: D365Auth::Mock,
        }
    }

    /// A field-by-field copy.
    pub fn duplicate(&self) -> (r: Self)
        ensures
            r == *self,
    {
        D365Connection {
            name: self.name.clone(),
            base_url: self.base_url.clone(),
            legal_entity: self.legal_entity.clone(),
            auth: self.auth.duplicate(),
        }
    }

    /// Redacted form for logs and the connection-info resource.
    pub fn redacted(&self) -> (r: Json)
        ensures
            r@ == connection_redacted(self.name@, self.base_url@, self.legal_entity@, self.auth),
    {
        let mut m: Vec<(String, Json)> = Vec::new();
        m.push((owned("auth_type"), Json::Str(owned(auth_type_label(&self.auth)))));
        m.push((owned("base_url"), Json::Str(self.base_url.clone())));
        m.push((owned("legal_entity"), Json::Str(self.legal_entity.clone())));
        m.push((owned("name"), Json::Str(self.name.clone())));
        proof {
            lemma_members_view(m@);
            assert(members_view(m@) =~= seq![
                ("auth_type"@, JsonV::Str(auth_label(self.auth))),
                ("base_url"@, JsonV::Str(self.base_url@)),
                ("legal_entity"@, JsonV::Str(self.legal_entity@)),
                ("name"@, JsonV::Str(self.name@)),
            ]);
        }
        Json::Object(m)
    }
}

/// Whatever secrets a connection holds, its redacted summary and the debug text of
/// its auth depend on the auth method's kind alone.
pub proof fn law_redaction_ignores_secrets(
    name: Seq<char>,
    base_url: Seq<char>,
    legal_entity: Seq<char>,
    a: D365Auth,
    b: D365Auth,
)
    requires
        auth_label(a) == auth_label(b),
    ensures
        connection_redacted(name, base_url, legal_entity, a) == connection_redacted(
            name,
            base_url,
            legal_entity,
            b,
        ),
{
}

// ---------------------------------------------------------------------------
// Where connection files are looked for
// ---------------------------------------------------------------------------

/// `rel` appended to the directory `base` as a path join does: `rel` alone when
/// it is absolute or `base` is empty, no separator added after a trailing `/`.
pub open spec fn join_path(base: Seq<char>, rel: Seq<char>) -> Seq<char> {
    if (rel.len() > 0 && rel[0] == '/') || base.len() == 0 {
        rel
    } else if base[base.len() - 1] == '/' {
        base + rel
    } else {
        base + "/"@ + rel
    }
}

/// Join a relative path onto a directory.
pub fn join_path_text(base: &str, rel: &str) -> (r: String)
    ensures
        r@ == join_path(base@, rel@),
{
    let b = chars_of(base);
    let r = chars_of(rel);
    if (r.len() > 0 && r[0] == '/') || b.len() == 0 {
        return owned(rel);
    }
    let mut out = owned(base);
    if b[b.len() - 1] != '/' {
        out.append("/");
    }
    out.append(rel);
    out
}

/// The directories searched for connection files, in order: the
/// `D365_AUTOMATE_CONNECTION_DIR` directory when set, the working directory's
/// `.d365-automate/connections`, then `.config/d365-automate/connections` under
/// the home directory when it is known.
pub open spec fn connection_dirs_spec(dir_var: Option<Seq<char>>, home: Option<Seq<char>>) -> Seq<
    Seq<char>,
> {
    (match dir_var {
        Some(d) => seq![d],
        None => seq![],
    }) + seq!["./.d365-automate/connections"@] + (match home {
        Some(h) => seq![join_path(h, ".config/d365-automate/connections"@)],
        None => seq![],
    })
}

pub open spec fn opt_chars(v: Option<String>) -> Option<Seq<char>> {
    match v {
        Some(s) => Some(s@),
        None => None,
    }
}

/// The files a connection named `name` is looked for in, in order:
/// `<name>.toml` in each connection directory.
pub fn connection_candidates(name: &str, dir_var: Option<String>, home: Option<String>) -> (r: Vec<
    String,
>)
    ensures
        r@.map_values(|s: String| s@) == connection_dirs_spec(opt_chars(dir_var), opt_chars(
            home,
        )).map_values(|d: Seq<char>| join_path(d, name@ + ".toml"@)),
{
    let ghost dirs = connection_dirs_spec(opt_chars(dir_var), opt_chars(home));
    let mut file = owned(name);
    file.append(".toml");
    let mut r: Vec<String> = Vec::new();
    match &dir_var {
        Some(d) => {
            r.push(join_path_text(d.as_str(), file.as_str()));
        },
        None => {},
    }
    r.push(join_path_text("./.d365-automate/connections", file.as_str()));
    match &home {
        Some(h) => {
            let dir = join_path_text(h.as_str(), ".config/d365-automate/connections");
            r.push(join_path_text(dir.as_str(), file.as_str()));
        },
        None => {},
    }
    proof {
        assert(r@.map_values(|s: String| s@) =~= dirs.map_values(
            |d: Seq<char>| join_path(d, name@ + ".toml"@),
        ));
    }
    r
}

impl D365Connection {
    /// The connection as selected under `name`: the lookup key always wins over
    /// the name written in the file.
    pub fn named(self, name: &str) -> (r: Self)
        ensures
            r.name@ == name@,
            r.base_url == self.base_url,
            r.legal_entity == self.legal_entity,
            r.auth == self.auth,
    {
        D365Connection { name: owned(name), ..self }
    }
}

/// The refusal when no connection file of that name exists.
pub fn connection_not_found(name: &str) -> (e: MetaError)
    ensures
        e matches MetaError::NotFound { kind, name: n } && kind@ == "Connection"@ && n@ == name@,
{
    MetaError::NotFound { kind: owned("Connection"), name: owned(name) }
}

/// The refusal when a connection file cannot be read or parsed:
/// `<action> <path>: <detail>`.
pub fn connection_file_error(action: &str, path: &str, detail: &str) -> (e: MetaError)
    ensures
        e matches MetaError::Internal(m) && m@ == action@ + " "@ + path@ + ": "@ + detail@,
{
    let mut m = owned(action);
    m.append(" ");
    m.append(path);
    m.append(": ");
    m.append(detail);
    MetaError::Internal(m)
}

} // verus!
