use d365_automate::odata::client::ReadEntityRequest;
use d365_automate::odata::credentials::{CredentialSource, Credentials};
use d365_automate::odata::error::D365Error;
use d365_automate::odata::credentials::EnvVars;
use d365_automate::odata::live::{config_from_env, token_failure, HttpD365Client};
use d365_automate::odata::token::TokenCache;
use d365_automate::odata::http::{
    build_odata_query, map_status, translate_filter, transport_error, truncate, HttpD365Config,
};

fn cfg() -> HttpD365Config {
    HttpD365Config {
        resource: "https://gt-test.operations.dynamics.com".into(),
        tenant_id: "tenant-123".into(),
        client_id: "client-abc".into(),
        client_secret: "s3cr3t-value".into(),
        legal_entity: "USMF".into(),
        authority_base: "https://login.microsoftonline.com".into(),
        timeout_secs: 5,
    }
}

#[test]
fn token_endpoint_and_scope() {
    let c = cfg();
    assert_eq!(c.token_endpoint(), "https://login.microsoftonline.com/tenant-123/oauth2/v2.0/token");
    assert_eq!(c.scope(), "https://gt-test.operations.dynamics.com/.default");
}

#[test]
fn debug_redacts_secret() {
    let dbg = cfg().debug_string();
    assert!(!dbg.contains("s3cr3t-value"), "secret value leaked: {dbg}");
    assert!(dbg.contains("***"));
}

#[test]
fn validate_rejects_empty() {
    let mut c = cfg();
    c.client_secret = String::new();
    assert!(c.validate().is_err());
}

#[test]
fn query_injects_company_scope_and_select_top() {
    let req = ReadEntityRequest {
        entity: "FiscalCalendarPeriod".into(),
        fields: vec!["FiscalCalendarPeriodName".into(), "Status".into()],
        filters: vec![],
        max_rows: 50,
    };
    let q = build_odata_query(&req, "USMF", true);
    assert!(q.contains(&("$select".into(), "FiscalCalendarPeriodName,Status".into())));
    assert!(q.contains(&("$filter".into(), "dataAreaId eq 'USMF'".into())));
    assert!(q.contains(&("$top".into(), "50".into())));
}

#[test]
fn query_respects_explicit_company_filter() {
    let req = ReadEntityRequest {
        entity: "FiscalCalendarPeriod".into(),
        fields: vec![],
        filters: vec!["dataAreaId eq 'GBSI'".into()],
        max_rows: 100,
    };
    let q = build_odata_query(&req, "USMF", true);
    let filter = q.iter().find(|(k, _)| k == "$filter").unwrap();
    assert_eq!(filter.1, "dataAreaId eq 'GBSI'");
    assert!(!filter.1.contains("USMF"));
}

#[test]
fn translate_like_to_contains() {
    assert_eq!(translate_filter("OrganizationName like '%Forest%'"), "contains(OrganizationName,'Forest')");
    assert_eq!(translate_filter("Name like 'Acme%'"), "startswith(Name,'Acme')");
    assert_eq!(translate_filter("CustomerAccount eq 'US-001'"), "CustomerAccount eq 'US-001'");
}

#[test]
fn translate_suffix_and_plain_like() {
    assert_eq!(translate_filter("Name LIKE '%corp'"), "endswith(Name,'corp')");
    assert_eq!(translate_filter("Name like 'O''Brien'"), "Name eq 'O''''Brien'");
    assert_eq!(translate_filter("Name like 'x'"), "Name eq 'x'");
}

#[test]
fn http_status_mapping() {
    assert!(matches!(map_status(401, ""), D365Error::AuthFailed(_)));
    assert!(matches!(map_status(403, ""), D365Error::PermissionDenied(_)));
    assert!(matches!(map_status(404, ""), D365Error::NotFound(_)));
    assert!(matches!(map_status(503, ""), D365Error::EnvironmentDown { .. }));
    assert!(map_status(503, "").is_transient());
    assert!(!map_status(404, "").is_transient());
}

#[test]
fn status_messages_quote_the_body() {
    match map_status(500, "boom") {
        D365Error::EnvironmentDown { environment, reason } => {
            assert_eq!(environment, "live");
            assert_eq!(reason, "500: boom");
        }
        other => panic!("got {other:?}"),
    }
    match map_status(418, "teapot") {
        D365Error::Internal(m) => assert_eq!(m, "unexpected status 418: teapot"),
        other => panic!("got {other:?}"),
    }
    assert!(matches!(map_status(422, "x"), D365Error::SchemaViolation(_)));
    assert!(matches!(map_status(408, "x"), D365Error::Timeout { timeout_ms: 0 }));
}

#[test]
fn long_bodies_are_cut_at_300_bytes() {
    let body = "a".repeat(400);
    let t = truncate(&body);
    assert_eq!(t.len(), 300 + '\u{2026}'.len_utf8());
    assert!(t.ends_with('\u{2026}'));
    assert_eq!(truncate("short"), "short");
}

#[test]
fn validate_names_the_first_blank_field() {
    let mut c = cfg();
    c.tenant_id = "   ".into();
    c.client_id = String::new();
    match c.validate().unwrap_err() {
        D365Error::AuthFailed(m) => assert_eq!(m, "tenant_id must not be empty"),
        other => panic!("got {other:?}"),
    }
    assert!(cfg().validate().is_ok());
}

#[test]
fn config_from_credentials_and_urls() {
    let creds = Credentials {
        resource: "https://gt-prod.operations.dynamics.com/".into(),
        tenant_id: "t-1".into(),
        client_id: "c-1".into(),
        client_secret: "x".into(),
        legal_entity: "USMF".into(),
        source: CredentialSource::Static,
    };
    let c = HttpD365Config::from_credentials(&creds);
    assert_eq!(c.authority_base, "https://login.microsoftonline.com");
    assert_eq!(c.timeout_secs, 30);
    assert_eq!(c.scope(), "https://gt-prod.operations.dynamics.com/.default");
    assert_eq!(c.data_url("CustomersV3"), "https://gt-prod.operations.dynamics.com/data/CustomersV3");
    let info = c.environment_info("PROD".into());
    assert_eq!(info.environment, "gt-prod");
    assert_eq!(info.environment_role, "PROD");
    assert_eq!(
        info.identity.to_text(),
        "{\"client_id\":\"c-1\",\"client_secret\":\"***\",\"legal_entity\":\"USMF\",\"resource\":\"https://gt-prod.operations.dynamics.com/\",\"source\":\"HttpD365Client\",\"tenant_id\":\"t-1\"}"
    );
}

fn read(entity: &str, filters: Vec<&str>, max_rows: usize) -> ReadEntityRequest {
    ReadEntityRequest {
        entity: entity.into(),
        fields: vec![],
        filters: filters.into_iter().map(String::from).collect(),
        max_rows,
    }
}

#[test]
fn config_from_env_needs_a_resource() {
    let none = EnvVars { resource: None, tenant_id: None, client_id: None, client_secret: None, legal_entity: None };
    assert!(config_from_env(none).is_none());
    let empty = EnvVars { resource: Some(String::new()), tenant_id: None, client_id: None, client_secret: None, legal_entity: None };
    assert!(config_from_env(empty).is_none());
    let vars = EnvVars {
        resource: Some("https://gt-prod.operations.dynamics.com".into()),
        tenant_id: Some("t".into()),
        client_id: None,
        client_secret: None,
        legal_entity: None,
    };
    let c = config_from_env(vars).unwrap();
    assert_eq!(c.resource, "https://gt-prod.operations.dynamics.com");
    assert_eq!(c.tenant_id, "t");
    assert_eq!(c.client_id, "");
    assert_eq!(c.legal_entity, "USMF");
    assert_eq!(c.authority_base, "https://login.microsoftonline.com");
    assert_eq!(c.timeout_secs, 30);
}

#[test]
fn live_client_refuses_blank_config() {
    let mut c = cfg();
    c.tenant_id = "  ".into();
    match HttpD365Client::new(c) {
        Err(D365Error::AuthFailed(m)) => assert_eq!(m, "tenant_id must not be empty"),
        _ => panic!("blank tenant must be refused"),
    }
}

#[test]
fn live_client_serves_catalogue_and_gates_calls() {
    let client = HttpD365Client::new(cfg()).ok().unwrap();
    let info = client.environment_info(None);
    assert_eq!(info.environment, "gt-test");
    assert_eq!(info.environment_role, "PROD");
    assert_eq!(client.environment_info(Some("UAT".into())).environment_role, "UAT");
    assert_eq!(client.service_metadata("EnvironmentInfo").ok().unwrap().operation, "EnvironmentInfo");
    assert!(matches!(client.service_metadata("Nope"), Err(D365Error::NotFound(_))));
    let bulk = client.bulk_service_metadata(&["EnvironmentInfo".to_string(), "Nope".to_string()], "en-us");
    assert_eq!(bulk.operations.len(), 1);
    assert_eq!(bulk.missing, vec!["Nope".to_string()]);
    assert!(client.search_service("ledger journal", 5).hits.iter().any(|h| h.operation == "LedgerGeneralJournalEntryPost"));
    assert!(client.entity_structure("CustomersV3").ok().unwrap().company_scoped);

    match client.call_target("LedgerGeneralJournalEntryPost", true) {
        Err(D365Error::PermissionDenied(m)) => assert_eq!(
            m,
            "operation 'LedgerGeneralJournalEntryPost' modifies state; not callable in read-only mode"
        ),
        _ => panic!("write operation must be refused in read-only mode"),
    }
    assert_eq!(
        client.call_target("LedgerGeneralJournalEntryPost", false).ok().unwrap(),
        "https://gt-test.operations.dynamics.com/data/LedgerGeneralJournalEntryPost"
    );
    match client.call_target("UnknownAction", true) {
        Err(D365Error::PermissionDenied(m)) => assert_eq!(
            m,
            "operation 'UnknownAction' is not declared read-only; not callable in read-only mode"
        ),
        _ => panic!("an undeclared operation must be refused in read-only mode"),
    }
    assert_eq!(
        client.call_target("UnknownAction", false).ok().unwrap(),
        "https://gt-test.operations.dynamics.com/data/UnknownAction"
    );
    assert_eq!(
        client.call_target("EnvironmentInfo", true).ok().unwrap(),
        "https://gt-test.operations.dynamics.com/data/EnvironmentInfo"
    );
}

#[test]
fn live_read_target_scopes_and_caps() {
    let client = HttpD365Client::new(cfg()).ok().unwrap();
    let (url, q) = client.read_target(&read("CustomersV3", vec![], 5)).ok().unwrap();
    assert_eq!(url, "https://gt-test.operations.dynamics.com/data/CustomersV3");
    assert!(q.contains(&("$filter".to_string(), "dataAreaId eq 'USMF'".to_string())));
    assert!(q.contains(&("$top".to_string(), "5".to_string())));
    let (_, q) = client.read_target(&read("CompaniesV2", vec![], 5)).ok().unwrap();
    assert!(!q.iter().any(|(k, _)| k == "$filter"));
    assert!(matches!(client.read_target(&read("CustomersV3", vec![], 0)), Err(D365Error::InvalidParameter { .. })));
    match client.read_target(&read("CustomersV3", vec![], 1001)) {
        Err(D365Error::QueryResultOverflow { entity, max_rows }) => {
            assert_eq!(entity, "CustomersV3");
            assert_eq!(max_rows, 1001);
        }
        _ => panic!("over-cap read must overflow"),
    }
}

#[test]
fn token_cache_reuses_until_expiry() {
    let mut c = TokenCache::new();
    assert!(c.fresh(0).is_none());
    c.store("tok".into(), Some(3600), 1_000);
    assert_eq!(c.fresh(1_000).as_deref(), Some("tok"));
    assert_eq!(c.fresh(1_000 + 3_539_999).as_deref(), Some("tok"));
    assert!(c.fresh(1_000 + 3_540_000).is_none());
    c.store("short".into(), Some(30), 0);
    assert_eq!(c.fresh(999).as_deref(), Some("short"));
    assert!(c.fresh(1_000).is_none());
    c.store("default".into(), None, 0);
    assert!(c.fresh(3_539_999).is_some());
    c.store("late".into(), Some(3600), u64::MAX - 10);
    assert_eq!(c.fresh(u64::MAX - 1).as_deref(), Some("late"));
}

#[test]
fn token_failures_quote_the_body() {
    match token_failure(400, "invalid_client") {
        D365Error::AuthFailed(m) => assert_eq!(m, "token endpoint 400: invalid_client"),
        other => panic!("unexpected {:?}", other),
    }
}

#[test]
fn transport_failures_are_classified() {
    assert!(matches!(transport_error(true, false, "t".into()), D365Error::Timeout { timeout_ms: 0 }));
    match transport_error(false, true, "connection refused".into()) {
        D365Error::EnvironmentDown { environment, reason } => {
            assert_eq!(environment, "live");
            assert_eq!(reason, "connection refused");
        }
        other => panic!("unexpected {:?}", other),
    }
    match transport_error(false, false, "builder".into()) {
        D365Error::Internal(m) => assert_eq!(m, "builder"),
        other => panic!("unexpected {:?}", other),
    }
}

#[test]
fn company_scope_ignores_value_mentions() {
    let client = HttpD365Client::new(cfg()).ok().unwrap();
    let (_, q) = client
        .read_target(&read("CustomersV3", vec!["OrganizationName eq 'dataAreaId'"], 5))
        .ok()
        .unwrap();
    assert!(q.contains(&(
        "$filter".to_string(),
        "OrganizationName eq 'dataAreaId' and dataAreaId eq 'USMF'".to_string()
    )));
    let (_, q) = client
        .read_target(&read("CustomersV3", vec![" DATAAREAID eq 'GBSI'"], 5))
        .ok()
        .unwrap();
    assert!(q.contains(&("$filter".to_string(), " DATAAREAID eq 'GBSI'".to_string())));
}
