use d365_automate::odata::credentials::{
    CredentialProvider, CredentialSource, Credentials, EnvCredentialProvider, EnvVars,
    LayeredCredentialProvider, StaticCredentialProvider,
};
use d365_automate::odata::error::D365Error;

fn creds(source: CredentialSource, resource: &str) -> Credentials {
    Credentials {
        resource: resource.into(),
        tenant_id: "11111111-1111-1111-1111-111111111111".into(),
        client_id: "app-client-id".into(),
        client_secret: "x".into(),
        legal_entity: "USMF".into(),
        source,
    }
}

fn no_vars() -> EnvVars {
    EnvVars { resource: None, tenant_id: None, client_id: None, client_secret: None, legal_entity: None }
}

#[test]
fn static_provider_returns_credentials() {
    let p = StaticCredentialProvider::new(creds(CredentialSource::Static, "https://gt.operations.dynamics.com"));
    let c = p.fetch().unwrap().unwrap();
    assert_eq!(c.legal_entity, "USMF");
    let r = c.redacted();
    assert_eq!(r.get("client_secret").and_then(|v| v.as_str()).map(|s| s.as_str()), Some("***"));
    assert!(c.token_endpoint().contains("login.microsoftonline.com"));
}

#[test]
fn layered_falls_through() {
    let layered = LayeredCredentialProvider::new()
        .add(Box::new(EnvCredentialProvider::new(no_vars())))
        .add(Box::new(StaticCredentialProvider::new(creds(
            CredentialSource::Static,
            "https://fallback.operations.dynamics.com",
        ))));
    let c = layered.fetch().unwrap().unwrap();
    assert_eq!(c.resource, "https://fallback.operations.dynamics.com");
}

#[test]
fn partial_environment_names_missing_variables() {
    let p = EnvCredentialProvider::new(EnvVars {
        resource: Some("https://x.operations.dynamics.com".into()),
        tenant_id: None,
        client_id: Some("c".into()),
        client_secret: None,
        legal_entity: None,
    });
    match p.fetch().unwrap_err() {
        D365Error::AuthFailed(m) => assert_eq!(
            m,
            "partial Dynamics 365 env vars: missing [\"D365_TENANT_ID\", \"D365_CLIENT_SECRET\"]"
        ),
        other => panic!("got {other:?}"),
    }
}

#[test]
fn complete_environment_defaults_legal_entity() {
    let p = EnvCredentialProvider::new(EnvVars {
        resource: Some("r".into()),
        tenant_id: Some("t".into()),
        client_id: Some("c".into()),
        client_secret: Some("s".into()),
        legal_entity: None,
    });
    let c = p.fetch().unwrap().unwrap();
    assert_eq!(c.legal_entity, "USMF");
    assert_eq!(c.source, CredentialSource::Env);
    assert!(EnvCredentialProvider::new(no_vars()).fetch().unwrap().is_none());
}

#[test]
fn a_refusal_stops_the_chain() {
    let layered = LayeredCredentialProvider::new()
        .add(Box::new(EnvCredentialProvider::new(EnvVars {
            resource: Some("r".into()),
            tenant_id: None,
            client_id: None,
            client_secret: None,
            legal_entity: None,
        })))
        .add(Box::new(StaticCredentialProvider::new(creds(CredentialSource::Static, "later"))));
    assert!(matches!(layered.fetch(), Err(D365Error::AuthFailed(_))));
    assert!(LayeredCredentialProvider::new().fetch().unwrap().is_none());
}

#[test]
fn redacted_summary_masks_the_secret() {
    let c = creds(CredentialSource::DotEnv, "https://gt.operations.dynamics.com");
    let text = c.redacted().to_text();
    assert!(!text.contains("\"x\""));
    assert_eq!(
        text,
        "{\"client_id\":\"app-client-id\",\"client_secret\":\"***\",\"legal_entity\":\"USMF\",\"resource\":\"https://gt.operations.dynamics.com\",\"source\":\"DotEnv\",\"tenant_id\":\"11111111-1111-1111-1111-111111111111\"}"
    );
    assert_eq!(CredentialSource::NoSource.name(), "None");
}
