use d365_automate::json::Json;
use d365_automate::meta::client::{MetaCallContext, MetadataClient};
use d365_automate::meta::connection::{
    connection_candidates, connection_file_error, connection_not_found, join_path_text, D365Auth,
    D365Connection,
};
use d365_automate::meta::error::MetaError;
use d365_automate::meta::http::{map_status, token_failure, transport_error, object_from_json, HttpMetadataClient, TokenPlan};
use d365_automate::meta::mock::MockMetadataClient;
use d365_automate::meta::types::{
    CrossReferenceRequest, DeployRequest, MetaSearchRequest, XppObjectKind,
};
use std::sync::Arc;

fn client() -> Arc<MockMetadataClient> {
    MockMetadataClient::new(D365Connection::mock("dev"))
}

fn conn() -> D365Connection {
    D365Connection {
        name: "dev".into(),
        base_url: "https://gt-dev.operations.dynamics.com".into(),
        legal_entity: "USMF".into(),
        auth: D365Auth::ClientCredentials {
            tenant_id: "t".into(),
            client_id: "c".into(),
            client_secret: "s3cr3t".into(),
        },
    }
}

#[test]
fn redacted_hides_secrets() {
    let c = D365Connection {
        name: "prod".into(),
        base_url: "https://gt-prod.operations.dynamics.com".into(),
        legal_entity: "USMF".into(),
        auth: D365Auth::ClientCredentials {
            tenant_id: "t".into(),
            client_id: "c".into(),
            client_secret: "super-secret".into(),
        },
    };
    let r = c.redacted();
    assert_eq!(r.get("auth_type").and_then(|v| v.as_str()).map(|s| s.as_str()), Some("client_credentials"));
    assert!(!r.to_text().contains("super-secret"));
    assert!(!c.auth.debug_string().contains("super-secret"));
}

#[test]
fn mock_connection_defaults() {
    let c = D365Connection::mock("dev");
    assert!(matches!(c.auth, D365Auth::Mock));
    assert_eq!(c.legal_entity, "USMF");
}

#[test]
fn new_rejects_mock_connection() {
    assert!(HttpMetadataClient::new(D365Connection::mock("x")).is_err());
}

#[test]
fn metadata_urls_are_well_formed() {
    let c = HttpMetadataClient::new(conn()).ok().unwrap();
    assert_eq!(
        c.meta_url(XppObjectKind::Class, "GTFinJournalPoster"),
        "https://gt-dev.operations.dynamics.com/metadata/Classes('GTFinJournalPoster')"
    );
    assert_eq!(
        c.meta_url(XppObjectKind::DataEntity, "LedgerJournalLineEntity"),
        "https://gt-dev.operations.dynamics.com/metadata/DataEntities('LedgerJournalLineEntity')"
    );
    assert_eq!(c.data_url("CustomersV3"), "https://gt-dev.operations.dynamics.com/data/CustomersV3");
}

#[test]
fn object_from_json_maps_fields() {
    let v = Json::Object(vec![
        ("Label".to_string(), Json::Str("Helper".into())),
        ("Model".to_string(), Json::Str("GTFin".into())),
        ("SourceCode".to_string(), Json::Str("class X\n{\n}\n".into())),
    ]);
    let o = object_from_json(XppObjectKind::Class, "X", &v);
    assert_eq!(o.model.as_deref(), Some("GTFin"));
    assert_eq!(o.description.as_deref(), Some("Helper"));
    assert_eq!(o.line_count, 3);
    assert!(o.deployed);
}

#[test]
fn status_mapping() {
    assert!(matches!(map_status(401, ""), MetaError::AuthFailed(_)));
    assert!(matches!(map_status(403, ""), MetaError::Forbidden(_)));
    assert!(matches!(map_status(503, ""), MetaError::RateLimited { .. }));
    assert!(map_status(503, "").is_transient());
}

#[test]
fn token_plan_follows_the_auth_method() {
    let c = HttpMetadataClient::new(conn()).ok().unwrap();
    match c.token_plan().ok().unwrap() {
        TokenPlan::ClientCredentials { endpoint, client_id, scope, .. } => {
            assert_eq!(endpoint, "https://login.microsoftonline.com/t/oauth2/v2.0/token");
            assert_eq!(client_id, "c");
            assert_eq!(scope, "https://gt-dev.operations.dynamics.com/.default");
        }
        TokenPlan::Bearer(_) => panic!("expected the client-credentials grant"),
    }
    let mut bearer = conn();
    bearer.auth = D365Auth::Bearer { token: "abc".into() };
    let c = HttpMetadataClient::new(bearer).ok().unwrap();
    assert!(matches!(c.token_plan(), Ok(TokenPlan::Bearer(t)) if t == "abc"));
}

#[test]
fn reads_class_source() {
    let c = client();
    let cls = c.get_class("GTFinJournalPoster").unwrap();
    assert_eq!(cls.kind, XppObjectKind::Class);
    assert!(cls.source.contains("implements GTFinPostable"));
}

#[test]
fn search_finds_posting_objects() {
    let c = client();
    let hits = c
        .search(MetaSearchRequest { query: "post".into(), kind: None, max_results: 10 })
        .unwrap();
    assert!(hits.iter().any(|h| h.name == "GTFinPostJournal"));
}

#[test]
fn cross_reference_finds_implementers() {
    let c = client();
    let refs = c
        .cross_reference(CrossReferenceRequest { name: "GTFinPostable".into(), kind: XppObjectKind::Interface })
        .unwrap();
    assert!(refs.iter().any(|r| r.object == "GTFinJournalPoster" && r.usage == "implements"));
}

#[test]
fn deploy_is_blocked_in_read_only_mode() {
    let c = client();
    let err = c
        .deploy(
            DeployRequest { name: "GTFinJournalPoster".into(), kind: XppObjectKind::Class },
            MetaCallContext { read_only: true },
        )
        .unwrap_err();
    assert!(matches!(err, MetaError::PermissionDenied(_)), "got {err:?}");
}

#[test]
fn deploy_succeeds_in_write_mode() {
    let c = client();
    let outcome = c
        .deploy(
            DeployRequest { name: "GTFinJournalPoster".into(), kind: XppObjectKind::Class },
            MetaCallContext { read_only: false },
        )
        .unwrap();
    assert!(outcome.deployed);
    assert_eq!(outcome.messages, vec!["Class 'GTFinJournalPoster' built and synchronised (mock)".to_string()]);
}

#[test]
fn entity_contents_over_cap_is_blocked() {
    let c = client();
    let err = c.get_entity_contents("LedgerJournalLineEntity", 5000).unwrap_err();
    assert!(matches!(err, MetaError::EntityDataBlocked(_)), "got {err:?}");
}

#[test]
fn mock_lookups_report_missing_objects() {
    let c = client();
    match c.get_table("Nope").unwrap_err() {
        MetaError::NotFound { kind, name } => {
            assert_eq!(kind, "Table");
            assert_eq!(name, "Nope");
        }
        other => panic!("got {other:?}"),
    }
    assert_eq!(c.get_job("GTScmGrnCheck").unwrap().line_count, 7);
    assert_eq!(c.get_model_contents("GTFin").unwrap().members.len(), 5);
    assert_eq!(c.get_data_entity("LedgerJournalLineEntity").unwrap().public_entity_name, "LedgerJournalLines");
    assert_eq!(c.get_entity_contents("LedgerJournalLineEntity", 0).unwrap().len(), 0);
    assert_eq!(c.get_entity_contents("LedgerJournalLineEntity", 10).unwrap().len(), 1);
    assert!(c
        .cross_reference(CrossReferenceRequest { name: "GTFinPostable".into(), kind: XppObjectKind::Class })
        .unwrap()
        .is_empty());
    let err = c
        .deploy(
            DeployRequest { name: "GTFinJournalForm".into(), kind: XppObjectKind::Form },
            MetaCallContext { read_only: false },
        )
        .unwrap_err();
    assert!(matches!(err, MetaError::NotFound { .. }));
}

#[test]
fn search_respects_kind_and_limit() {
    let c = client();
    let hits = c
        .search(MetaSearchRequest { query: "GTFin".into(), kind: Some(XppObjectKind::Class), max_results: 2 })
        .unwrap();
    assert_eq!(hits.len(), 2);
    assert!(hits.iter().all(|h| h.kind == XppObjectKind::Class));
    let none = c
        .search(MetaSearchRequest { query: "qqqq".into(), kind: None, max_results: 5 })
        .unwrap();
    assert!(none.is_empty());
}

#[test]
fn kind_labels_and_paths() {
    assert_eq!(XppObjectKind::DataEntity.label(), "Data Entity");
    assert_eq!(XppObjectKind::Model.metadata_path("GTFin"), "/metadata/ModelInfos");
    assert_eq!(XppObjectKind::EnumType.metadata_path("NoYes"), "/metadata/Enums('NoYes')");
}

#[test]
fn connection_files_are_looked_for_in_order() {
    let c = connection_candidates("acme", Some("/etc/d365".into()), Some("/home/u".into()));
    assert_eq!(
        c,
        vec![
            "/etc/d365/acme.toml".to_string(),
            "./.d365-automate/connections/acme.toml".to_string(),
            "/home/u/.config/d365-automate/connections/acme.toml".to_string(),
        ]
    );
    let c = connection_candidates("acme", None, Some("/root/".into()));
    assert_eq!(c, vec!["./.d365-automate/connections/acme.toml".to_string(), "/root/.config/d365-automate/connections/acme.toml".to_string()]);
    assert_eq!(connection_candidates("x", None, None), vec!["./.d365-automate/connections/x.toml".to_string()]);
    assert_eq!(join_path_text("", "a.toml"), "a.toml");
    assert_eq!(join_path_text("/d", "/abs.toml"), "/abs.toml");
}

#[test]
fn lookup_key_wins_over_file_name() {
    let c = D365Connection {
        name: "from-file".into(),
        base_url: "https://acme.operations.dynamics.com".into(),
        legal_entity: "USMF".into(),
        auth: D365Auth::Bearer { token: "abc".into() },
    }
    .named("acme");
    assert_eq!(c.name, "acme");
    assert_eq!(c.base_url, "https://acme.operations.dynamics.com");
    assert!(matches!(c.auth, D365Auth::Bearer { .. }));
    match connection_not_found("ghost") {
        MetaError::NotFound { kind, name } => {
            assert_eq!(kind, "Connection");
            assert_eq!(name, "ghost");
        }
        other => panic!("unexpected {:?}", other),
    }
    match connection_file_error("parse", "/x/acme.toml", "bad key") {
        MetaError::Internal(m) => assert_eq!(m, "parse /x/acme.toml: bad key"),
        other => panic!("unexpected {:?}", other),
    }
}

#[test]
fn metadata_transport_and_token_failures() {
    assert!(matches!(transport_error(true, true, "t".into()), MetaError::Timeout { timeout_ms: 0 }));
    match transport_error(false, true, "refused".into()) {
        MetaError::EnvironmentDown { environment, reason } => {
            assert_eq!(environment, "live");
            assert_eq!(reason, "refused");
        }
        other => panic!("unexpected {:?}", other),
    }
    assert!(matches!(transport_error(false, false, "x".into()), MetaError::Internal(_)));
    match token_failure(401, "denied") {
        MetaError::AuthFailed(m) => assert_eq!(m, "token endpoint 401: denied"),
        other => panic!("unexpected {:?}", other),
    }
}

#[test]
fn seeded_jobs_keep_their_own_sources_and_models() {
    let c = client();
    let post = c.get_job("GTFinPostJournal").unwrap();
    assert!(post.source.contains("poster.post(GTFinConstants::defaultJournalName());"));
    assert_eq!(post.model.as_deref(), Some("GTFin"));
    let grn = c.get_job("GTScmGrnCheck").unwrap();
    assert!(grn.source.contains("reconcile product receipts against PO"));
    assert_eq!(grn.model.as_deref(), Some("GTScm"));
    let scm = c.get_model_contents("GTScm").unwrap();
    assert_eq!(scm.members[0].name, "GTScmGrnCheck");
    assert_eq!(scm.description.as_deref(), Some("GaussianTech Supply Chain customisations"));
}
