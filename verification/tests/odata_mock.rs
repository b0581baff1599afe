use d365_automate::json::Json;
use d365_automate::odata::client::{
    D365Client, ParamDirection, ReadEntityRequest, ServiceCallRequest, COMPANY_FIELD,
};
use d365_automate::odata::error::D365Error;
use d365_automate::odata::fixtures::{seed_entities, seed_operations};
use d365_automate::odata::mock::MockD365Client;

fn s(x: &str) -> Json {
    Json::Str(x.to_string())
}

fn obj(mut members: Vec<(&str, Json)>) -> Json {
    members.sort_by(|a, b| a.0.cmp(b.0));
    Json::Object(members.into_iter().map(|(k, v)| (k.to_string(), v)).collect())
}

fn identity() -> Json {
    obj(vec![("legal_entity", s("USMF"))])
}

fn member<'a>(values: &'a [(String, Json)], key: &str) -> Option<&'a Json> {
    values.iter().find(|(k, _)| k == key).map(|(_, v)| v)
}

#[test]
fn environment_info_reports_legal_entity() {
    let c = MockD365Client::new(2, identity());
    let info = c.environment_info().unwrap();
    assert_eq!(info.legal_entity, "USMF");
    assert_eq!(info.platform, "Finance & Operations");
}

#[test]
fn search_finds_ledger_post() {
    let c = MockD365Client::new(2, identity());
    let res = c.search_service("ledger journal post", 5).unwrap();
    assert!(res.hits.iter().any(|h| h.operation == "LedgerGeneralJournalEntryPost"));
}

#[test]
fn read_entity_injects_company_scope() {
    let c = MockD365Client::new(2, identity());
    let rows = c
        .read_entity(ReadEntityRequest {
            entity: "FiscalCalendarPeriod".into(),
            fields: vec![],
            filters: vec![],
            max_rows: 100,
        })
        .unwrap();
    assert!(!rows.is_empty());
    assert!(rows
        .iter()
        .all(|r| member(&r.values, "dataAreaId").and_then(|v| v.as_str()).map(|v| v.as_str()) == Some("USMF")));
}

#[test]
fn read_only_mode_blocks_write_operation() {
    let c = MockD365Client::new(2, identity());
    let err = c
        .call_service(
            ServiceCallRequest {
                operation: "LedgerGeneralJournalEntryPost".into(),
                parameters: obj(vec![
                    ("JournalBatchNumber", s("000123")),
                    ("JournalLines", Json::Array(vec![])),
                ]),
                timeout_ms: 1000,
                require_read_only_safe: true,
            },
            true,
        )
        .unwrap_err();
    assert!(matches!(err, D365Error::PermissionDenied(_)), "got {err:?}");
}

#[test]
fn over_cap_read_is_query_overflow() {
    let c = MockD365Client::new(2, identity());
    let err = c
        .read_entity(ReadEntityRequest {
            entity: "CompaniesV2".into(),
            fields: vec![],
            filters: vec![],
            max_rows: 5000,
        })
        .unwrap_err();
    assert!(matches!(err, D365Error::QueryResultOverflow { .. }), "got {err:?}");
}

#[test]
fn zero_row_read_is_invalid() {
    let c = MockD365Client::new(2, identity());
    let err = c
        .read_entity(ReadEntityRequest {
            entity: "CompaniesV2".into(),
            fields: vec![],
            filters: vec![],
            max_rows: 0,
        })
        .unwrap_err();
    match err {
        D365Error::InvalidParameter { name, reason } => {
            assert_eq!(name, "max_rows");
            assert_eq!(reason, "must be >= 1");
        }
        other => panic!("got {other:?}"),
    }
}

#[test]
fn explicit_company_filter_overrides_scope() {
    let c = MockD365Client::new(2, identity());
    let rows = c
        .read_entity(ReadEntityRequest {
            entity: "FiscalCalendarPeriod".into(),
            fields: vec![],
            filters: vec!["dataAreaId eq 'GBSI'".into()],
            max_rows: 100,
        })
        .unwrap();
    assert!(rows
        .iter()
        .all(|r| member(&r.values, "dataAreaId").and_then(|v| v.as_str()).map(|v| v.as_str()) == Some("GBSI")));
}

#[test]
fn unknown_field_and_bad_clause_are_refused() {
    let c = MockD365Client::new(2, identity());
    let err = c
        .read_entity(ReadEntityRequest {
            entity: "CompaniesV2".into(),
            fields: vec!["NoSuchField".into()],
            filters: vec![],
            max_rows: 10,
        })
        .unwrap_err();
    match err {
        D365Error::InvalidParameter { name, reason } => {
            assert_eq!(name, "fields");
            assert_eq!(reason, "unknown field 'NoSuchField'");
        }
        other => panic!("got {other:?}"),
    }
    let err = c
        .read_entity(ReadEntityRequest {
            entity: "CompaniesV2".into(),
            fields: vec![],
            filters: vec!["just words".into()],
            max_rows: 10,
        })
        .unwrap_err();
    assert!(matches!(err, D365Error::InvalidParameter { .. }), "got {err:?}");
    let err = c
        .read_entity(ReadEntityRequest {
            entity: "NoSuchEntity".into(),
            fields: vec![],
            filters: vec![],
            max_rows: 10,
        })
        .unwrap_err();
    assert!(matches!(err, D365Error::NotFound(_)), "got {err:?}");
}

#[test]
fn metadata_lookup_and_bulk() {
    let c = MockD365Client::new(2, identity());
    let m = c.service_metadata("LedgerGeneralJournalEntryPost", "en-us").unwrap();
    assert!(m.uses_changeset);
    assert!(matches!(c.service_metadata("Nope", "en-us"), Err(D365Error::NotFound(_))));
    let bulk = c
        .bulk_service_metadata(&["LedgerGeneralJournalEntryPost".to_string(), "Nope".to_string()], "en-us")
        .unwrap();
    assert_eq!(bulk.operations.len(), 1);
    assert_eq!(bulk.missing, vec!["Nope".to_string()]);
    assert_eq!(bulk.language, "en-us");
}

#[test]
fn search_scores_count_term_occurrences() {
    let c = MockD365Client::new(2, identity());
    let res = c.search_service("zzzz-no-such-term", 5).unwrap();
    assert!(res.hits.is_empty());
    let res = c.search_service("ledger", 0).unwrap();
    assert_eq!(res.hits.len(), 1, "a limit of zero still returns the best hit");
    let all = c.search_service("a", 100).unwrap();
    for w in all.hits.windows(2) {
        assert!(w[0].score >= w[1].score);
    }
}

#[test]
fn pool_status_reports_the_cap() {
    let c = MockD365Client::new(0, identity());
    assert_eq!(c.pool_status().cap, 1);
    let c = MockD365Client::new(3, identity());
    assert_eq!(c.pool_status().cap, 3);
}

#[test]
fn every_write_operation_uses_changeset() {
    for op in seed_operations() {
        if !op.read_only {
            assert!(
                op.uses_changeset,
                "write operation '{}' must be submitted inside a $batch change set",
                op.operation
            );
        }
    }
}

#[test]
fn every_write_operation_returns_operation_status() {
    for op in seed_operations() {
        if !op.read_only {
            let has_status = op
                .parameters
                .iter()
                .any(|p| p.direction == ParamDirection::Out && p.name.eq_ignore_ascii_case("Infolog"));
            assert!(has_status, "write operation '{}' must return an Infolog status output", op.operation);
        }
    }
}

#[test]
fn every_operation_references_a_security_privilege() {
    for op in seed_operations() {
        assert!(
            !op.security.is_empty(),
            "operation '{}' must declare at least one security privilege",
            op.operation
        );
    }
}

#[test]
fn every_company_scoped_entity_has_dataareaid_key() {
    for e in seed_entities() {
        if e.structure.company_scoped {
            assert!(
                e.structure.key_fields.iter().any(|k| k == COMPANY_FIELD),
                "company-scoped entity '{}' must carry dataAreaId as a key field",
                e.structure.entity
            );
        }
    }
}

#[test]
fn item_number_follows_released_product_convention() {
    let rp = seed_entities()
        .into_iter()
        .find(|e| e.structure.entity == "ReleasedProductsV2")
        .unwrap();
    assert!(
        rp.structure.fields.iter().any(|f| f.name == "ItemNumber" && f.type_token == "ItemId"),
        "ReleasedProductsV2 must key on ItemNumber (ItemId)"
    );
}

#[test]
fn general_journal_account_entry_is_the_subledger_truth() {
    let gjae = seed_entities()
        .into_iter()
        .find(|e| e.structure.entity == "GeneralJournalAccountEntry");
    let gjae = gjae.expect("GeneralJournalAccountEntry must be present");
    assert!(
        gjae.structure.legacy_mapping.as_deref().unwrap_or("").contains("universal journal"),
        "GeneralJournalAccountEntry must be marked as the universal-journal source of truth"
    );
}

#[test]
fn legacy_tables_map_to_data_entities() {
    for name in ["LedgerJournalTrans", "GeneralJournalAccountEntry", "ReleasedProductsV2"] {
        let e = seed_entities().into_iter().find(|e| e.structure.entity == name).unwrap();
        assert!(
            e.structure.legacy_mapping.is_some(),
            "entity '{name}' should carry a legacy mapping note for migrating operators"
        );
    }
}

#[test]
fn every_catalogued_operation_carries_its_sap_mapping_note() {
    let ops = seed_operations();
    assert!(ops.iter().all(|o| o.d365_notes.is_some()));
    let env = ops.iter().find(|o| o.operation == "EnvironmentInfo").unwrap();
    assert!(env.d365_notes.as_ref().unwrap().contains("RFC_SYSTEM_INFO"));
    let po = ops.iter().find(|o| o.operation == "PurchaseOrderCreate").unwrap();
    assert_eq!(po.service_group, "Procurement");
    let inputs: Vec<&str> = po
        .parameters
        .iter()
        .filter(|p| p.direction == ParamDirection::In && !p.optional)
        .map(|p| p.name.as_str())
        .collect();
    assert_eq!(inputs, vec!["OrderAccount", "dataAreaId", "PurchaseOrderLines"]);
    assert_eq!(po.security[0].privilege, "PurchPurchaseOrderMaintain");
    assert_eq!(po.security[0].duty.as_deref(), Some("PurchPurchaseOrderProcess"));
}

#[test]
fn every_catalogued_entity_lists_the_legal_entity_field_first() {
    for e in seed_entities() {
        assert_eq!(e.structure.fields[0].name, "dataAreaId");
        assert_eq!(e.structure.fields[0].length, 4);
        assert!(e.structure.fields[0].key);
    }
    let es = seed_entities();
    let period = es.iter().find(|e| e.structure.entity == "FiscalCalendarPeriod").unwrap();
    let names: Vec<&str> = period.structure.fields.iter().map(|f| f.name.as_str()).collect();
    assert_eq!(names, vec!["dataAreaId", "FiscalCalendarPeriodName", "Status"]);
    assert_eq!(period.structure.security, "LedgerPeriodView");
}
