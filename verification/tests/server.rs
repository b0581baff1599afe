use d365_automate::json::Json;
use d365_automate::meta::error::MetaError;
use d365_automate::odata::error::D365Error;
use d365_automate::odata::client::ServiceCallRequest;
use d365_automate::odata::mock::MockD365Client;
use d365_automate::odata::transaction::{execute_write_operation, WriteOutcome};
use d365_automate::server::catalogue::{exposed_tool_names, tool_catalogue};
use d365_automate::server::completion::{complete, complete_object_kind, complete_target_scope};
use d365_automate::server::options::{
    parse_transport, read_only_mode, server_instructions, ttl_ms_from_secs, TestServerOptions,
    TransportKind,
};
use d365_automate::connectors::{ConnectorError, XppConnector};
use d365_automate::server::prompts::{
    builtin_prompts, deploy_impact_analysis, review_cross_reference, review_parameters,
    review_service_call,
};
use d365_automate::server::resources::resource_catalogue;
use d365_automate::server::seed::{seed_documents, KbDomain};
use d365_automate::server::tools::{
    customer_get_request, customer_not_found, customer_search_request, d365_tool_error,
    default_lang, default_limit_20, default_max_hops, default_navigate_depth, infolog_report,
    service_call_commits,
    meta_tool_error,
    truncate, write_audit, AuditOutcome,
};
use d365_automate::server::workflows::{
    customer_after_pick, customer_pick_form, customer_reply, deploy_form, deploy_reply,
    purchase_order_form, purchase_order_reply, ElicitAction,
};

fn s(x: &str) -> Json {
    Json::Str(x.to_string())
}

/// An object with its members in ascending key order, as a parsed JSON object has them.
fn obj(mut members: Vec<(&str, Json)>) -> Json {
    members.sort_by(|a, b| a.0.cmp(b.0));
    Json::Object(members.into_iter().map(|(k, v)| (k.to_string(), v)).collect())
}

fn outcome(committed: bool, rolled_back: bool) -> WriteOutcome {
    WriteOutcome {
        operation: "LedgerJournalPost".into(),
        committed,
        rolled_back,
        messages: Vec::new(),
        result: Json::Null,
    }
}

#[test]
fn tool_argument_defaults() {
    assert_eq!(default_navigate_depth(), 1);
    assert_eq!(default_limit_20(), 20);
    assert_eq!(default_max_hops(), 4);
    assert_eq!(default_lang(), "en-us");
}

#[test]
fn truncate_keeps_short_text_and_marks_cuts() {
    assert_eq!(truncate("hello", 5), "hello");
    assert_eq!(truncate("hello", 10), "hello");
    assert_eq!(truncate("hello world", 5), "hello\u{2026}");
    assert_eq!(truncate("h\u{e9}llo", 2), "h\u{e9}\u{2026}");
    assert_eq!(truncate("abc", 0), "\u{2026}");
}

#[test]
fn tool_errors_name_the_tool_and_code() {
    let e = D365Error::NotFound("CustomersV3('X')".into());
    assert_eq!(d365_tool_error("d365.entity.read", &e), "d365.entity.read [NotFound]: not found: CustomersV3('X')");
    let e = D365Error::PoolExhausted { cap: 8 };
    assert_eq!(d365_tool_error("t", &e), "t [PoolExhausted]: connection pool exhausted (cap=8)");
    let m = MetaError::Locked("CustTable".into());
    assert_eq!(meta_tool_error("xpp.meta.read", &m), "xpp.meta.read [Locked]: object locked: CustTable");
}

#[test]
fn customer_requests_are_built_from_the_arguments() {
    let r = customer_search_request("Contoso", 5);
    assert_eq!(r.entity, "CustomersV3");
    assert!(r.fields.is_empty());
    assert_eq!(r.filters, vec!["OrganizationName like '%Contoso%'".to_string()]);
    assert_eq!(r.max_rows, 5);
    let r = customer_search_request("x", 5000);
    assert_eq!(r.max_rows, 1000);
    let r = customer_get_request("US-001");
    assert_eq!(r.filters, vec!["CustomerAccount eq 'US-001'".to_string()]);
    assert_eq!(r.max_rows, 1);
    assert_eq!(customer_not_found("US-404"), "d365.customer.get: customer 'US-404' not found");
}

#[test]
fn write_audit_records_each_outcome() {
    match write_audit(&Ok(outcome(true, false))) {
        AuditOutcome::Success(m) => assert_eq!(m, "LedgerJournalPost committed"),
        other => panic!("unexpected {:?}", other),
    }
    match write_audit(&Ok(outcome(false, true))) {
        AuditOutcome::Failed { code, message } => {
            assert_eq!(code, 0);
            assert_eq!(message, "LedgerJournalPost not committed (rolled_back=true)");
        }
        other => panic!("unexpected {:?}", other),
    }
    match write_audit(&Err(D365Error::PermissionDenied("read-only".into()))) {
        AuditOutcome::Denied(m) => assert_eq!(m, "read-only"),
        other => panic!("unexpected {:?}", other),
    }
    match write_audit(&Err(D365Error::Internal("boom".into()))) {
        AuditOutcome::Failed { code, message } => {
            assert_eq!(code, -32299);
            assert_eq!(message, "internal: boom");
        }
        other => panic!("unexpected {:?}", other),
    }
}

#[test]
fn prompts_fill_arguments_and_defaults() {
    let args = obj(vec![("object", s("CustTable")), ("kind", s("table"))]);
    let text = review_cross_reference(Some(&args));
    assert!(text.starts_with("Before changing or deploying table CustTable, run xpp.meta.cross_reference"));
    assert!(text.contains("with name=CustTable, kind=table to enumerate"));
    let text = review_cross_reference(None);
    assert!(text.starts_with("Before changing or deploying class <OBJECT>,"));

    let text = deploy_impact_analysis(Some(&obj(vec![("package", s("GTFin-2026.04"))])));
    assert!(text.starts_with("Analyse the impact of deploying package GTFin-2026.04 to the PRODUCTION environment."));

    let args = obj(vec![("operation", s("PostJournal")), ("parameters", obj(vec![("journal", s("J-1"))]))]);
    let params = review_parameters(Some(&args));
    assert_eq!(params.to_text(), "{\"journal\":\"J-1\"}");
    let text = review_service_call(Some(&args), "{\"journal\":\"J-1\"}");
    assert!(text.contains("Operation: PostJournal\nParameters:\n{\"journal\":\"J-1\"}\n\nIf safe"));
    assert_eq!(review_parameters(None).to_text(), "{}");
    assert!(review_service_call(None, "{}").contains("Operation: <UNKNOWN>\n"));
}

#[test]
fn completion_filters_by_prefix_ignoring_case() {
    assert_eq!(complete_object_kind("d"), vec!["data_entity".to_string()]);
    assert_eq!(complete_object_kind(""), vec!["class", "interface", "table", "data_entity", "job", "form"]);
    assert_eq!(complete_target_scope("u"), vec!["UAT".to_string()]);
    assert_eq!(complete_target_scope("p"), vec!["PRODUCTION".to_string()]);
    assert!(complete_target_scope("x").is_empty());
    assert_eq!(complete(&["Alpha", "alpine", "beta"], "AL"), vec!["Alpha", "alpine"]);
}

#[test]
fn test_server_options_default() {
    let o = TestServerOptions::default();
    assert!(o.read_only);
    assert_eq!(o.metadata_cache_ttl_ms, 300_000);
    assert!(!o.seed_kb);
    assert_eq!(o.embedding_dim, 64);
    assert!(o.agents_md.is_none());
}

#[test]
fn purchase_order_form_prefills_hints() {
    let f = purchase_order_form(Some("V-001".into()), None, Some(Json::Number("3".into())));
    assert_eq!(f.required, vec!["vendor", "item", "quantity", "legal_entity", "delivery_date"]);
    let text = f.properties.to_text();
    assert!(text.contains("\"vendor\":{\"default\":\"V-001\",\"description\":\"Vendor account, e.g. 'V-001'\",\"type\":\"string\"}"));
    assert!(text.contains("\"item\":{\"default\":\"\","));
    assert!(text.contains("\"quantity\":{\"default\":3,\"description\":\"Order quantity\",\"type\":\"number\"}"));
    assert!(text.contains("\"currency\":{\"default\":\"USD\",\"description\":\"Document currency\",\"enum\":[\"USD\",\"EUR\",\"GBP\",\"JPY\",\"SGD\"],\"type\":\"string\"}"));
    let f = purchase_order_form(None, None, None);
    assert!(f.properties.to_text().contains("\"quantity\":{\"default\":0.0,"));
}

#[test]
fn purchase_order_reply_per_action() {
    let r = purchase_order_reply(ElicitAction::Accept, "{\"vendor\":\"V-001\"}");
    assert!(!r.is_error);
    assert!(r.text.starts_with("Purchase order confirmed (mock; no real $batch submitted):\n\n{\"vendor\":\"V-001\"}"));
    assert!(matches!(r.audit, AuditOutcome::Success(_)));
    let r = purchase_order_reply(ElicitAction::Decline, "");
    assert!(!r.is_error);
    assert_eq!(r.text, "Purchase order cancelled by user (declined elicitation).");
    assert!(matches!(r.audit, AuditOutcome::Declined(_)));
    let r = purchase_order_reply(ElicitAction::Cancel, "");
    assert!(r.is_error);
    assert!(matches!(r.audit, AuditOutcome::Denied(_)));
}

#[test]
fn customer_maintenance_flows_through_two_forms() {
    let f = customer_pick_form(Some("US-001".into()));
    assert_eq!(f.required, vec!["scope", "legal_entity"]);
    let content = Some(obj(vec![("customer", s("US-001")), ("scope", s("credit_collections"))]));
    let choice = match customer_after_pick(ElicitAction::Accept, &content) {
        Ok(c) => c,
        Err(_) => panic!("accepted form must continue"),
    };
    assert_eq!(choice.customer, "US-001");
    assert_eq!(choice.scope, "credit_collections");
    assert_eq!(
        choice.form.message,
        "Enter new values for customer US-001 (credit_collections view). Leave fields blank to keep current values."
    );
    let fields = choice.form.properties.to_text();
    assert!(fields.starts_with("{\"credit_limit\":"));
    assert!(fields.contains("\"on_hold\":"));
    assert!(choice.form.required.is_empty());

    let defaulted = customer_after_pick(ElicitAction::Accept, &None).ok().unwrap();
    assert_eq!(defaulted.scope, "general");
    assert_eq!(defaulted.customer, "");

    match customer_after_pick(ElicitAction::Decline, &content) {
        Err(w) => {
            assert!(w.is_error);
            assert_eq!(w.text, "Customer maintenance cancelled at scope selection.");
        }
        Ok(_) => panic!("declined form must end the workflow"),
    }

    let r = customer_reply("US-001", "general", ElicitAction::Accept, "{}");
    assert_eq!(
        r.text,
        "Customer change confirmed (mock):\n  customer: US-001\n  scope:    general\n  changes:\n{}\n\nNext step (when --enable-writes): d365.service.call CustomerMaintain with commit=true."
    );
    match r.audit {
        AuditOutcome::Success(m) => assert_eq!(m, "customer US-001 change confirmed (mock)"),
        other => panic!("unexpected {:?}", other),
    }
    let r = customer_reply("US-001", "general", ElicitAction::Cancel, "{}");
    assert!(r.is_error);
    assert_eq!(r.text, "Customer maintenance cancelled.");
}

#[test]
fn deployment_requires_matching_confirmation_phrase() {
    let f = deploy_form(Some("GTFin-2026.04".into()));
    assert_eq!(f.required, vec!["package", "target_environment", "confirmation_phrase"]);

    let mismatch = Some(obj(vec![
        ("package", s("GTFin-2026.04")),
        ("confirmation_phrase", s("GTFin")),
        ("target_environment", s("PRODUCTION")),
    ]));
    let r = deploy_reply(ElicitAction::Accept, &mismatch);
    assert!(r.is_error);
    assert_eq!(r.text, "Confirmation phrase 'GTFin' does not match package 'GTFin-2026.04'. Deployment aborted.");
    assert!(matches!(r.audit, AuditOutcome::Denied(_)));

    let ok = Some(obj(vec![
        ("package", s("GTFin-2026.04")),
        ("confirmation_phrase", s("GTFin-2026.04")),
        ("target_environment", s("PRODUCTION")),
        ("run_db_sync", Json::Bool(false)),
    ]));
    let r = deploy_reply(ElicitAction::Accept, &ok);
    assert!(!r.is_error);
    assert_eq!(
        r.text,
        "Deployment plan confirmed (mock):\n  package:               GTFin-2026.04\n  target_environment:    PRODUCTION\n  run_db_sync:           false\n  skip_solution_checker: false\n\nNext step (when --enable-writes): apply the deployable package via LCS."
    );
    match r.audit {
        AuditOutcome::Success(m) => assert_eq!(m, "package GTFin-2026.04 deploy confirmed \u{2192} PRODUCTION (mock)"),
        other => panic!("unexpected {:?}", other),
    }

    let r = deploy_reply(ElicitAction::Decline, &ok);
    assert!(!r.is_error);
    assert!(matches!(r.audit, AuditOutcome::Declined(_)));
    let r = deploy_reply(ElicitAction::Cancel, &None);
    assert!(r.is_error);
    assert!(matches!(r.audit, AuditOutcome::Denied(_)));
}

#[test]
fn resource_catalogue_depends_on_cache_and_agents() {
    let uris = |v: Vec<d365_automate::server::resources::ResourceInfo>| v.into_iter().map(|r| r.uri).collect::<Vec<_>>();
    let base = resource_catalogue(false, false);
    assert_eq!(base.len(), 12);
    assert_eq!(base[0].uri, "d365-env://info");
    assert_eq!(base[1].uri, "d365-entity://CompaniesV2/structure");
    assert_eq!(base[1].name, "Structure of CompaniesV2");
    assert_eq!(base[1].description, "Field metadata for data entity CompaniesV2.");
    assert_eq!(base[5].uri, "d365-service://EnvironmentInfo");
    assert_eq!(base[5].name, "Service metadata: EnvironmentInfo");
    assert_eq!(base[11].uri, "d365-meta://info");
    let all = uris(resource_catalogue(true, true));
    assert_eq!(all.len(), 14);
    assert_eq!(all[12], "d365-cache://stats");
    assert_eq!(all[13], "agents://guardrails");
    let agents_only = resource_catalogue(false, true);
    assert_eq!(agents_only.len(), 13);
    assert_eq!(agents_only[12].mime_type, "text/markdown");
}

#[test]
fn builtin_prompts_are_listed_in_order() {
    let p = builtin_prompts();
    let names: Vec<&str> = p.iter().map(|x| x.name.as_str()).collect();
    assert_eq!(names, vec!["d365.review-service-call", "d365.deploy-impact-analysis", "xpp.review-cross-reference"]);
    assert_eq!(p[2].arguments[0].name, "object");
    assert!(p[2].arguments[0].required);
    assert_eq!(p[2].arguments[1].name, "kind");
    assert!(!p[2].arguments[1].required);
}

struct FixedXpp;

impl XppConnector for FixedXpp {
    fn read_object(&self, model: &str, name: &str) -> Result<String, ConnectorError> {
        if model == "ApplicationSuite" {
            Ok(format!("class {name} {{}}"))
        } else {
            Err(ConnectorError::NotFound(format!("{model}/{name}")))
        }
    }
}

#[test]
fn connector_errors_have_their_texts() {
    let c = FixedXpp;
    assert_eq!(c.read_object("ApplicationSuite", "CustTable").unwrap(), "class CustTable {}");
    let e = c.read_object("Other", "X").unwrap_err();
    assert_eq!(e.message(), "not found: Other/X");
    assert_eq!(ConnectorError::Upstream("502".into()).message(), "upstream error: 502");
    assert_eq!(ConnectorError::Auth("expired".into()).message(), "auth error: expired");
}

#[test]
fn writes_need_the_flag_or_the_variable() {
    assert!(read_only_mode(false, None));
    assert!(read_only_mode(false, Some("0")));
    assert!(read_only_mode(false, Some("true")));
    assert!(!read_only_mode(false, Some("1")));
    assert!(!read_only_mode(true, None));
    assert!(!read_only_mode(true, Some("0")));
    assert_eq!(ttl_ms_from_secs(300), 300_000);
    assert_eq!(ttl_ms_from_secs(0), 0);
    assert_eq!(ttl_ms_from_secs(u64::MAX), u64::MAX);
}

#[test]
fn seed_corpus_covers_four_domains() {
    let docs = seed_documents();
    assert_eq!(docs.len(), 8);
    for (d, dom) in docs.iter().zip([
        KbDomain::Xpp, KbDomain::Xpp, KbDomain::Flow, KbDomain::Flow,
        KbDomain::Solution, KbDomain::Solution, KbDomain::Learn, KbDomain::Learn,
    ]) {
        assert_eq!(d.domain, dom);
    }
    assert_eq!(docs[0].id, "xpp:GTFin/GTFinPostJournal");
    assert_eq!(docs[0].uri, "xpp-obj://GTFin/GTFinPostJournal");
    assert_eq!(docs[0].metadata, vec![("model".to_string(), "GTFin".to_string()), ("type".to_string(), "JOB".to_string())]);
    assert!(docs[0].text.starts_with("X++ job GTFinPostJournal posts general ledger journals via the LedgerGeneralJournalEntry OData service."));
    assert_eq!(docs[2].breadcrumbs, vec!["core".to_string()]);
    assert!(docs[2].text.contains("purchase requisition \u{2192} PO approval"));
    assert_eq!(docs[6].breadcrumbs, vec!["Finance".to_string(), "General Ledger".to_string()]);
    assert_eq!(docs[7].metadata, vec![("module".to_string(), "SupplyChain".to_string())]);
    assert!(docs[4].breadcrumbs.is_empty() && docs[4].metadata.is_empty());
}

#[test]
fn transport_and_instructions() {
    assert_eq!(parse_transport("stdio"), Ok(TransportKind::Stdio));
    assert_eq!(parse_transport("http"), Ok(TransportKind::Http));
    assert_eq!(parse_transport("ws"), Err("unknown --transport 'ws' (expected: stdio | http)".to_string()));
    assert_eq!(server_instructions(Some("Be careful.".into())), "Be careful.");
    assert_eq!(
        server_instructions(None),
        "D365-Automate MCP server. Read-only by default; cite every claim by source URI."
    );
}

#[test]
fn infolog_report_counts_and_flags_failures() {
    let payload = obj(vec![("error", obj(vec![("code", s("LedgerPeriodClosed")), ("message", s("Posting period is not open"))]))]);
    let r = infolog_report(&payload);
    assert_eq!(
        r.to_text(),
        "{\"count\":1,\"has_failure\":true,\"messages\":[{\"code\":\"LedgerPeriodClosed\",\"environment\":null,\"field\":null,\"severity\":\"Error\",\"text\":\"Posting period is not open\"}]}"
    );
    let rows = Json::Array(vec![
        obj(vec![("severity", s("Info")), ("message", s("Voucher posted"))]),
        obj(vec![("severity", s("?")), ("message", s("odd"))]),
    ]);
    let text = infolog_report(&rows).to_text();
    assert!(text.starts_with("{\"count\":2,\"has_failure\":true,"));
    assert!(text.contains("\"severity\":{\"Unknown\":\"?\"}"));
    assert_eq!(infolog_report(&Json::Null).to_text(), "{\"count\":0,\"has_failure\":false,\"messages\":[]}");
}

#[test]
fn read_only_hides_write_tools_but_shows_reads() {
    let names = exposed_tool_names(&tool_catalogue(), true);
    let names: Vec<&str> = names.iter().map(|n| n.as_str()).collect();
    assert!(names.contains(&"d365.entity.read"), "have: {names:?}");
    assert!(names.contains(&"d365.service.metadata"));
    assert!(names.contains(&"xpp.meta.get_class"));
    assert!(names.contains(&"xpp.meta.get_form"));
    assert!(names.contains(&"kb.multi_hop"));
    assert!(!names.contains(&"xpp.meta.deploy"), "deploy must be hidden in read-only mode");
    assert!(!names.contains(&"d365.workflow.create_purchase_order"));
}

#[test]
fn write_tools_appear_when_writes_enabled() {
    let names = exposed_tool_names(&tool_catalogue(), false);
    assert!(names.iter().any(|n| n == "xpp.meta.deploy"));
    assert!(names.iter().any(|n| n == "d365.workflow.deploy_package"));
    assert_eq!(names.len(), tool_catalogue().len());
    assert_eq!(exposed_tool_names(&tool_catalogue(), true).len(), tool_catalogue().len() - 4);
}

#[test]
fn infolog_parse_detects_failure() {
    let value = Json::Array(vec![obj(vec![("severity", s("Error")), ("code", s("X")), ("message", s("period closed"))])]);
    let text = infolog_report(&value).to_text();
    assert!(text.starts_with("{\"count\":1,\"has_failure\":true,"), "{text}");
}

#[test]
fn commit_write_is_denied_in_read_only_mode() {
    let client = MockD365Client::new(2, obj(vec![("legal_entity", s("USMF"))]));
    let request = ServiceCallRequest {
        operation: "LedgerGeneralJournalEntryPost".into(),
        parameters: obj(vec![("JournalBatchNumber", s("000123")), ("JournalLines", Json::Array(vec![]))]),
        timeout_ms: 30_000,
        require_read_only_safe: true,
    };
    let result = execute_write_operation(client.as_ref(), request, true);
    assert!(result.is_err(), "commit write must be denied in read-only mode");
    match write_audit(&result) {
        AuditOutcome::Denied(m) => assert_eq!(
            m,
            "write workflow for 'LedgerGeneralJournalEntryPost' requires write mode (--enable-writes)"
        ),
        other => panic!("unexpected {:?}", other),
    }
    let e = result.unwrap_err();
    assert!(d365_tool_error("d365.service.call", &e).starts_with("d365.service.call [PermissionDenied]: permission denied: "));
}

#[test]
fn resources_and_prompts_are_registered() {
    let resources = resource_catalogue(TestServerOptions::default().metadata_cache_ttl_ms > 0, false);
    let uris: Vec<&str> = resources.iter().map(|r| r.uri.as_str()).collect();
    assert!(uris.contains(&"d365-env://info"), "have: {uris:?}");
    assert!(uris.iter().any(|u| u.starts_with("d365-entity://")));
    assert!(uris.contains(&"d365-cache://stats"));
    let prompts = builtin_prompts();
    let pnames: Vec<&str> = prompts.iter().map(|p| p.name.as_str()).collect();
    assert!(pnames.contains(&"d365.review-service-call"), "have: {pnames:?}");
    assert!(pnames.contains(&"xpp.review-cross-reference"));
}

#[test]
fn service_call_commit_flag_selects_the_write_path() {
    assert!(service_call_commits(&obj(vec![("operation", s("PurchaseOrderCreate")), ("commit", Json::Bool(true))])));
    assert!(!service_call_commits(&obj(vec![("operation", s("PurchaseOrderCreate")), ("commit", Json::Bool(false))])));
    assert!(!service_call_commits(&obj(vec![("commit", s("true"))])));
    assert!(!service_call_commits(&obj(vec![("operation", s("X"))])));
    assert!(!service_call_commits(&Json::Null));
}
