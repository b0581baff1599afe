use d365_automate::json::Json;
use d365_automate::odata::client::{
    PoolStatus,
    BulkMetadata, D365Client, EntityRow, EntityStructure, EnvironmentInfo, ReadEntityRequest,
    ServiceCallRequest, ServiceOperationMeta, ServiceSearchResult,
};
use d365_automate::odata::error::{D365Error, D365Result};
use d365_automate::odata::mock::MockD365Client;
use d365_automate::odata::transaction::execute_write_operation;

fn s(x: &str) -> Json {
    Json::Str(x.to_string())
}

fn obj(mut members: Vec<(&str, Json)>) -> Json {
    members.sort_by(|a, b| a.0.cmp(b.0));
    Json::Object(members.into_iter().map(|(k, v)| (k.to_string(), v)).collect())
}

fn identity() -> Json {
    obj(vec![("legal_entity", s("USMF"))])
}

fn po_request() -> ServiceCallRequest {
    ServiceCallRequest {
        operation: "PurchaseOrderCreate".into(),
        parameters: obj(vec![
            ("OrderAccount", s("V-001")),
            ("dataAreaId", s("USMF")),
            ("PurchaseOrderLines", Json::Array(vec![])),
        ]),
        timeout_ms: 1000,
        require_read_only_safe: true,
    }
}

#[test]
fn refuses_in_read_only_mode() {
    let client = MockD365Client::new(2, identity());
    let err = execute_write_operation(client.as_ref(), po_request(), true).unwrap_err();
    assert!(matches!(err, D365Error::PermissionDenied(_)), "got {err:?}");
}

#[test]
fn rejects_direct_batch_call() {
    let client = MockD365Client::new(2, identity());
    let req = ServiceCallRequest {
        operation: "$batch".into(),
        parameters: Json::Null,
        timeout_ms: 1000,
        require_read_only_safe: false,
    };
    let err = execute_write_operation(client.as_ref(), req, false).unwrap_err();
    assert!(matches!(err, D365Error::InvalidParameter { .. }), "got {err:?}");
}

#[test]
fn empty_infolog_is_fail_closed_not_committed() {
    let client = MockD365Client::new(2, identity());
    let outcome = execute_write_operation(client.as_ref(), po_request(), false).unwrap();
    assert!(!outcome.committed, "empty Infolog must not commit");
    assert!(outcome.rolled_back);
    assert!(outcome.messages.iter().any(|m| m.text.contains("unconfirmed")));
}

/// A client answering every call with a canned Infolog.
struct ScriptedClient {
    infolog: Json,
}

impl D365Client for ScriptedClient {
    fn call_service(&self, _request: ServiceCallRequest, _ro: bool) -> D365Result<Json> {
        Ok(obj(vec![("outputs", obj(vec![("Infolog", self.infolog.duplicate())]))]))
    }
    fn environment_info(&self) -> D365Result<EnvironmentInfo> {
        Err(D365Error::Internal("unused".into()))
    }
    fn search_service(&self, _q: &str, _n: usize) -> D365Result<ServiceSearchResult> {
        Err(D365Error::Internal("unused".into()))
    }
    fn service_metadata(&self, _o: &str, _l: &str) -> D365Result<ServiceOperationMeta> {
        Err(D365Error::Internal("unused".into()))
    }
    fn bulk_service_metadata(&self, _o: &[String], _l: &str) -> D365Result<BulkMetadata> {
        Err(D365Error::Internal("unused".into()))
    }
    fn read_entity(&self, _r: ReadEntityRequest) -> D365Result<Vec<EntityRow>> {
        Err(D365Error::Internal("unused".into()))
    }
    fn entity_structure(&self, _e: &str) -> D365Result<EntityStructure> {
        Err(D365Error::Internal("unused".into()))
    }
    fn pool_status(&self) -> PoolStatus {
        PoolStatus { cap: 0, available: 0 }
    }
}

fn scripted(infolog: Json) -> ScriptedClient {
    ScriptedClient { infolog }
}

fn simple_po() -> ServiceCallRequest {
    ServiceCallRequest {
        operation: "PurchaseOrderCreate".into(),
        parameters: obj(vec![("OrderAccount", s("V-001"))]),
        timeout_ms: 1000,
        require_read_only_safe: true,
    }
}

#[test]
fn commits_on_explicit_success_row() {
    let client = scripted(Json::Array(vec![obj(vec![
        ("severity", s("Info")),
        ("code", s("PurchPosted")),
        ("message", s("Purchase order PO-000178 created")),
    ])]));
    let outcome = execute_write_operation(&client, simple_po(), false).unwrap();
    assert!(outcome.committed, "expected commit; messages={:?}", outcome.messages);
    assert!(!outcome.rolled_back);
}

#[test]
fn rolls_back_on_error_row() {
    let client = scripted(Json::Array(vec![obj(vec![
        ("severity", s("Error")),
        ("code", s("VendBlocked")),
        ("message", s("Vendor V-001 is on hold")),
    ])]));
    let outcome = execute_write_operation(&client, simple_po(), false).unwrap();
    assert!(!outcome.committed, "error row must not commit");
    assert!(outcome.rolled_back, "error row must roll back the change set");
}

#[test]
fn batch_name_is_refused_in_any_letter_case() {
    let client = scripted(Json::Array(vec![]));
    let req = ServiceCallRequest {
        operation: "$BATCH".into(),
        parameters: Json::Null,
        timeout_ms: 1000,
        require_read_only_safe: false,
    };
    let err = execute_write_operation(&client, req, false).unwrap_err();
    match err {
        D365Error::InvalidParameter { name, .. } => assert_eq!(name, "operation"),
        other => panic!("got {other:?}"),
    }
}

#[test]
fn read_only_refusal_names_the_operation() {
    let client = scripted(Json::Array(vec![]));
    match execute_write_operation(&client, simple_po(), true).unwrap_err() {
        D365Error::PermissionDenied(m) => assert_eq!(
            m,
            "write workflow for 'PurchaseOrderCreate' requires write mode (--enable-writes)"
        ),
        other => panic!("got {other:?}"),
    }
}
