//! The curated catalogue of the in-memory backend: service operations and data
//! entities spanning General Ledger, Supply Chain, Procurement and Sales.
//!
//! Every write operation is submitted inside a `$batch` change set (a multi-step
//! write is never auto-committed) and returns an Infolog status output; every
//! operation names a security privilege; every company-scoped entity is keyed by
//! `dataAreaId`.

use vstd::prelude::*;
use crate::json::{Json, JsonV, owned, members_view, lemma_members_view};
use crate::odata::mock::rows_view;
use crate::text::{eq_ignore_case, contains_seq, occurs_at};
use crate::odata::infolog::opt_text;
use crate::odata::client::{
    EntityField, EntityStructure, ParamDirection, SecurityReference, ServiceOperationMeta,
    ServiceParameter,
};

verus! {

/// One data entity of the in-memory backend: its structure and its records.
/// Record members are kept in ascending order of their names.
#[derive(Debug)]
pub struct MockEntity {
    pub structure: EntityStructure,
    pub rows: Vec<Vec<(String, Json)>>,
}

/// The operation returns an Infolog status output.
pub open spec fn returns_infolog(params: Seq<ServiceParameter>) -> bool {
    exists|k: int|
        0 <= k < params.len() && params[k].direction == ParamDirection::Out && eq_ignore_case(
            #[trigger] params[k].name@,
            "Infolog"@,
        )
}

/// The invariants every catalogued operation keeps: a write goes through a change
/// set and returns an Infolog; every operation names a security privilege.
pub open spec fn operation_invariants(o: ServiceOperationMeta) -> bool {
    &&& !o.read_only ==> o.uses_changeset
    &&& !o.read_only ==> returns_infolog(o.parameters@)
    &&& o.security@.len() > 0
}

/// The key list names `dataAreaId`.
pub open spec fn keyed_by_company(keys: Seq<String>) -> bool {
    exists|k: int| 0 <= k < keys.len() && (#[trigger] keys[k])@ == "dataAreaId"@
}

/// The invariants every catalogued entity keeps: a company-scoped entity carries
/// `dataAreaId` as a key, and every entity notes which legacy table it replaces.
pub open spec fn entity_invariants(e: EntityStructure) -> bool {
    &&& e.company_scoped ==> keyed_by_company(e.key_fields@)
    &&& e.legacy_mapping.is_some()
}

/// Text as an optional description: none for empty text.
pub open spec fn described(s: Seq<char>) -> Option<Seq<char>> {
    if s.len() == 0 {
        None
    } else {
        Some(s)
    }
}

/// The plain content of a parameter: name, direction, type token, optional flag,
/// description and default value.
pub open spec fn param_content(p: ServiceParameter) -> (
    Seq<char>,
    ParamDirection,
    Seq<char>,
    bool,
    Option<Seq<char>>,
    Option<Seq<char>>,
) {
    (p.name@, p.direction, p.type_token@, p.optional, opt_text(p.description), opt_text(p.default_value))
}

/// A catalogued input parameter: no default value.
pub open spec fn in_param(name: Seq<char>, ty: Seq<char>, optional: bool, desc: Seq<char>) -> (
    Seq<char>,
    ParamDirection,
    Seq<char>,
    bool,
    Option<Seq<char>>,
    Option<Seq<char>>,
) {
    (name, ParamDirection::In, ty, optional, described(desc), None)
}

/// A catalogued output parameter: never optional, no default value.
pub open spec fn out_param(name: Seq<char>, ty: Seq<char>, desc: Seq<char>) -> (
    Seq<char>,
    ParamDirection,
    Seq<char>,
    bool,
    Option<Seq<char>>,
    Option<Seq<char>>,
) {
    (name, ParamDirection::Out, ty, false, described(desc), None)
}

/// The plain content of a security reference: privilege, duty and access level.
pub open spec fn security_content(r: SecurityReference) -> (Seq<char>, Option<Seq<char>>, Seq<char>) {
    (r.privilege@, opt_text(r.duty), r.access_level@)
}

/// The plain content of an operation's metadata.
pub struct OperationContent {
    pub operation: Seq<char>,
    pub description: Seq<char>,
    pub service_group: Seq<char>,
    pub model: Option<Seq<char>>,
    pub parameters: Seq<(Seq<char>, ParamDirection, Seq<char>, bool, Option<Seq<char>>, Option<Seq<char>>)>,
    pub deprecated: bool,
    pub read_only: bool,
    pub uses_changeset: bool,
    pub security: Seq<(Seq<char>, Option<Seq<char>>, Seq<char>)>,
    pub notes: Option<Seq<char>>,
}

pub open spec fn operation_content(o: ServiceOperationMeta) -> OperationContent {
    OperationContent {
        operation: o.operation@,
        description: o.description@,
        service_group: o.service_group@,
        model: opt_text(o.model),
        parameters: o.parameters@.map_values(|p: ServiceParameter| param_content(p)),
        deprecated: o.deprecated,
        read_only: o.read_only,
        uses_changeset: o.uses_changeset,
        security: o.security@.map_values(|r: SecurityReference| security_content(r)),
        notes: opt_text(o.d365_notes),
    }
}

/// The output every write operation returns: its Infolog status messages.
pub open spec fn infolog_param() -> (
    Seq<char>,
    ParamDirection,
    Seq<char>,
    bool,
    Option<Seq<char>>,
    Option<Seq<char>>,
) {
    out_param("Infolog"@, "Collection(Edm.String)"@, "Operation status messages"@)
}

/// A write operation of the catalogue: no longer deprecated, never read-only,
/// submitted inside a change set, gated by one update privilege inside a duty.
pub open spec fn write_content(
    operation: Seq<char>,
    description: Seq<char>,
    service_group: Seq<char>,
    model: Seq<char>,
    parameters: Seq<(Seq<char>, ParamDirection, Seq<char>, bool, Option<Seq<char>>, Option<Seq<char>>)>,
    privilege: Seq<char>,
    duty: Seq<char>,
    notes: Seq<char>,
) -> OperationContent {
    OperationContent {
        operation,
        description,
        service_group,
        model: Some(model),
        parameters,
        deprecated: false,
        read_only: false,
        uses_changeset: true,
        security: seq![(privilege, Some(duty), "Update"@)],
        notes: Some(notes),
    }
}

/// The catalogued service operations, in catalogue order: name, description,
/// service group, model, parameter signature, flags, security and the note on the
/// SAP call each one replaces.
pub open spec fn seed_operation_contents() -> Seq<OperationContent> {
    seq![
        OperationContent {
            operation: "EnvironmentInfo"@,
            description: "Retrieve environment identity (environment, legal entity, version, base URL)."@,
            service_group: "Platform"@,
            model: Some("ApplicationPlatform"@),
            parameters: seq![out_param("Info"@, "Edm.String"@, "Environment identity payload"@)],
            deprecated: false,
            read_only: true,
            uses_changeset: false,
            security: seq![("SystemAdministrationView"@, None, "Read"@)],
            notes: Some("Maps from the SAP system information call (RFC_SYSTEM_INFO)."@),
        },
        OperationContent {
            operation: "ReleasedProductGetDetail"@,
            description: "Read released product (item) master detail.  Read-only."@,
            service_group: "SupplyChain"@,
            model: Some("ApplicationSuite"@),
            parameters: seq![
                in_param("ItemNumber"@, "Edm.String"@, false, "Released product item number"@),
                in_param("dataAreaId"@, "Edm.String"@, true, "Legal entity (defaults to connection's)"@),
                out_param("Product"@, "Microsoft.Dynamics.DataEntities.ReleasedProductsV2"@, "Released product entity"@),
            ],
            deprecated: false,
            read_only: true,
            uses_changeset: false,
            security: seq![("EcoResProductView"@, None, "Read"@)],
            notes: Some("The SAP material master (MARA / BAPI_MATERIAL_GET_DETAIL) maps to the ReleasedProductsV2 data entity; the item number replaces MATNR."@),
        },
        write_content(
            "LedgerGeneralJournalEntryPost"@,
            "Post a general ledger journal entry.  Submitted inside a $batch change set; never auto-commits."@,
            "GeneralLedger"@,
            "GTFin"@,
            seq![
                in_param("JournalBatchNumber"@, "Edm.String"@, false, "Ledger journal header batch number"@),
                in_param("JournalLines"@, "Collection(Microsoft.Dynamics.DataEntities.LedgerJournalTrans)"@, false, "Journal lines"@),
                out_param("Voucher"@, "Edm.String"@, "Resulting voucher number"@),
                infolog_param(),
            ],
            "LedgerJournalEntryMaintain"@,
            "LedgerJournalEntryProcess"@,
            "The SAP accounting document post (BAPI_ACC_DOCUMENT_POST \u{2192} ACDOCA) maps to a ledger journal post writing GeneralJournalAccountEntry."@,
        ),
        write_content(
            "InventoryProductReceiptPost"@,
            "Post a product (goods) receipt against a purchase order."@,
            "SupplyChain"@,
            "ApplicationSuite"@,
            seq![
                in_param("PurchaseOrderNumber"@, "Edm.String"@, false, "Purchase order number"@),
                in_param("ProductReceiptNumber"@, "Edm.String"@, false, "Vendor product receipt number"@),
                out_param("Voucher"@, "Edm.String"@, "Resulting inventory voucher"@),
                infolog_param(),
            ],
            "VendProductReceiptMaintain"@,
            "VendProductReceiptProcess"@,
            "Maps from the SAP goods movement post (BAPI_GOODSMVT_CREATE)."@,
        ),
        write_content(
            "PurchaseOrderCreate"@,
            "Create a purchase order (header + lines).  Submitted inside a $batch change set."@,
            "Procurement"@,
            "ApplicationSuite"@,
            seq![
                in_param("OrderAccount"@, "Edm.String"@, false, "Vendor account"@),
                in_param("dataAreaId"@, "Edm.String"@, false, "Legal entity"@),
                in_param("PurchaseOrderLines"@, "Collection(Microsoft.Dynamics.DataEntities.PurchaseOrderLinesV2)"@, false, "Order lines"@),
                out_param("PurchaseOrderNumber"@, "Edm.String"@, "Resulting purchase order number"@),
                infolog_param(),
            ],
            "PurchPurchaseOrderMaintain"@,
            "PurchPurchaseOrderProcess"@,
            "Maps from the SAP purchase order create (BAPI_PO_CREATE1)."@,
        ),
        write_content(
            "SalesOrderCreate"@,
            "Create a sales order (header + lines).  Submitted inside a $batch change set."@,
            "Sales"@,
            "ApplicationSuite"@,
            seq![
                in_param("CustomerAccount"@, "Edm.String"@, false, "Customer account"@),
                in_param("dataAreaId"@, "Edm.String"@, false, "Legal entity"@),
                in_param("SalesOrderLines"@, "Collection(Microsoft.Dynamics.DataEntities.SalesOrderLinesV2)"@, false, "Order lines"@),
                out_param("SalesOrderNumber"@, "Edm.String"@, "Resulting sales order number"@),
                infolog_param(),
            ],
            "SalesSalesOrderMaintain"@,
            "SalesOrderProcess"@,
            "Maps from the SAP sales order create (BAPI_SALESORDER_CREATEFROMDAT2)."@,
        ),
        write_content(
            "CustomerMaintain"@,
            "Create or update a customer master record.  Submitted inside a $batch change set."@,
            "Sales"@,
            "ApplicationSuite"@,
            seq![
                in_param("CustomerAccount"@, "Edm.String"@, true, "Customer account (omit to create)"@),
                in_param("dataAreaId"@, "Edm.String"@, false, "Legal entity"@),
                in_param("OrganizationName"@, "Edm.String"@, false, "Customer organization name"@),
                out_param("CustomerAccount"@, "Edm.String"@, "Resulting customer account"@),
                infolog_param(),
            ],
            "CustCustomerMaintain"@,
            "CustCustomerMasterProcess"@,
            "Maps from the SAP customer master maintenance; the customer lives in CustomersV3 (Business Partner unification analog)."@,
        ),
    ]
}

/// The plain content of an entity field: name, EDM type, logical type, length,
/// description and key flag.
pub open spec fn field_content(f: EntityField) -> (Seq<char>, Seq<char>, Seq<char>, u32, Option<Seq<char>>, bool) {
    (f.name@, f.edm_type@, f.type_token@, f.length, opt_text(f.description), f.key)
}

/// A catalogued field.
pub open spec fn field_spec(
    name: Seq<char>,
    edm: Seq<char>,
    ty: Seq<char>,
    len: u32,
    key: bool,
    desc: Seq<char>,
) -> (Seq<char>, Seq<char>, Seq<char>, u32, Option<Seq<char>>, bool) {
    (name, edm, ty, len, described(desc), key)
}

/// The legal-entity key field that every catalogued entity starts with.
pub open spec fn legal_entity_field_spec() -> (Seq<char>, Seq<char>, Seq<char>, u32, Option<Seq<char>>, bool) {
    field_spec("dataAreaId"@, "Edm.String"@, "DataAreaId"@, 4, true, "Legal entity id"@)
}

/// The plain content of an entity structure.
pub struct StructureContent {
    pub entity: Seq<char>,
    pub description: Seq<char>,
    pub fields: Seq<(Seq<char>, Seq<char>, Seq<char>, u32, Option<Seq<char>>, bool)>,
    pub key_fields: Seq<Seq<char>>,
    pub security: Seq<char>,
    pub company_scoped: bool,
    pub legacy_mapping: Option<Seq<char>>,
}

pub open spec fn structure_content(e: EntityStructure) -> StructureContent {
    StructureContent {
        entity: e.entity@,
        description: e.description@,
        fields: e.fields@.map_values(|f: EntityField| field_content(f)),
        key_fields: e.key_fields@.map_values(|k: String| k@),
        security: e.security@,
        company_scoped: e.company_scoped,
        legacy_mapping: opt_text(e.legacy_mapping),
    }
}

fn text_opt(desc: &str) -> (r: Option<String>)
    ensures
        opt_text(r) == described(desc@),
{
    if desc.is_empty() {
        None
    } else {
        Some(owned(desc))
    }
}

fn p_in(name: &str, ty: &str, opt: bool, desc: &str) -> (p: ServiceParameter)
    ensures
        p.name@ == name@,
        p.direction == ParamDirection::In,
        p.type_token@ == ty@,
        p.optional == opt,
        p.default_value.is_none(),
        param_content(p) == in_param(name@, ty@, opt, desc@),
{
    ServiceParameter {
        name: owned(name),
        direction: ParamDirection::In,
        type_token: owned(ty),
        optional: opt,
        description: text_opt(desc),
        default_value: None,
    }
}

fn p_out(name: &str, ty: &str, desc: &str) -> (p: ServiceParameter)
    ensures
        p.name@ == name@,
        p.direction == ParamDirection::Out,
        p.type_token@ == ty@,
        !p.optional,
        p.default_value.is_none(),
        param_content(p) == out_param(name@, ty@, desc@),
{
    ServiceParameter {
        name: owned(name),
        direction: ParamDirection::Out,
        type_token: owned(ty),
        optional: false,
        description: text_opt(desc),
        default_value: None,
    }
}

fn infolog_out() -> (p: ServiceParameter)
    ensures
        p.name@ == "Infolog"@,
        p.direction == ParamDirection::Out,
        param_content(p) == infolog_param(),
{
    p_out("Infolog", "Collection(Edm.String)", "Operation status messages")
}

fn write_op(
    operation: &str,
    description: &str,
    service_group: &str,
    model: &str,
    parameters: Vec<ServiceParameter>,
    privilege: &str,
    duty: &str,
    notes: &str,
) -> (o: ServiceOperationMeta)
    requires
        returns_infolog(parameters@),
    ensures
        o.operation@ == operation@,
        !o.read_only,
        o.uses_changeset,
        operation_invariants(o),
        operation_content(o) == write_content(
            operation@,
            description@,
            service_group@,
            model@,
            parameters@.map_values(|p: ServiceParameter| param_content(p)),
            privilege@,
            duty@,
            notes@,
        ),
{
    let mut security: Vec<SecurityReference> = Vec::new();
    security.push(SecurityReference::maintain(privilege, duty));
    proof {
        assert(security@.map_values(|r: SecurityReference| security_content(r)) =~= seq![
            (privilege@, Some(duty@), "Update"@),
        ]);
    }
    ServiceOperationMeta {
        operation: owned(operation),
        description: owned(description),
        service_group: owned(service_group),
        model: Some(owned(model)),
        parameters,
        deprecated: false,
        read_only: false,
        uses_changeset: true,
        security,
        d365_notes: Some(owned(notes)),
    }
}

fn op_environment_info() -> (o: ServiceOperationMeta)
    ensures
        operation_content(o) == seed_operation_contents()[0],
        !o.uses_changeset,
        o.operation@ == "EnvironmentInfo"@,
        operation_invariants(o),
        o.read_only,
{
    let mut parameters: Vec<ServiceParameter> = Vec::new();
    parameters.push(p_out("Info", "Edm.String", "Environment identity payload"));
    let mut security: Vec<SecurityReference> = Vec::new();
    security.push(SecurityReference::read("SystemAdministrationView"));
    proof {
        assert(parameters@.map_values(|p: ServiceParameter| param_content(p)) =~= seed_operation_contents()[0].parameters);
        assert(security@.map_values(|r: SecurityReference| security_content(r)) =~= seed_operation_contents()[0].security);
    }
    ServiceOperationMeta {
        operation: owned("EnvironmentInfo"),
        description: owned(
            "Retrieve environment identity (environment, legal entity, version, base URL).",
        ),
        service_group: owned("Platform"),
        model: Some(owned("ApplicationPlatform")),
        parameters,
        deprecated: false,
        read_only: true,
        uses_changeset: false,
        security,
        d365_notes: Some(owned("Maps from the SAP system information call (RFC_SYSTEM_INFO).")),
    }
}

fn op_released_product_get_detail() -> (o: ServiceOperationMeta)
    ensures
        operation_content(o) == seed_operation_contents()[1],
        !o.uses_changeset,
        o.operation@ == "ReleasedProductGetDetail"@,
        operation_invariants(o),
        o.read_only,
{
    let mut parameters: Vec<ServiceParameter> = Vec::new();
    parameters.push(p_in("ItemNumber", "Edm.String", false, "Released product item number"));
    parameters.push(
        p_in("dataAreaId", "Edm.String", true, "Legal entity (defaults to connection's)"),
    );
    parameters.push(
        p_out(
            "Product",
            "Microsoft.Dynamics.DataEntities.ReleasedProductsV2",
            "Released product entity",
        ),
    );
    let mut security: Vec<SecurityReference> = Vec::new();
    security.push(SecurityReference::read("EcoResProductView"));
    proof {
        assert(parameters@.map_values(|p: ServiceParameter| param_content(p)) =~= seed_operation_contents()[1].parameters);
        assert(security@.map_values(|r: SecurityReference| security_content(r)) =~= seed_operation_contents()[1].security);
    }
    ServiceOperationMeta {
        operation: owned("ReleasedProductGetDetail"),
        description: owned("Read released product (item) master detail.  Read-only."),
        service_group: owned("SupplyChain"),
        model: Some(owned("ApplicationSuite")),
        parameters,
        deprecated: false,
        read_only: true,
        uses_changeset: false,
        security,
        d365_notes: Some(
            owned(
                "The SAP material master (MARA / BAPI_MATERIAL_GET_DETAIL) maps to the ReleasedProductsV2 data entity; the item number replaces MATNR.",
            ),
        ),
    }
}

fn op_ledger_post() -> (o: ServiceOperationMeta)
    ensures
        operation_content(o) == seed_operation_contents()[2],
        o.uses_changeset,
        o.operation@ == "LedgerGeneralJournalEntryPost"@,
        !o.read_only,
        operation_invariants(o),
{
    let mut parameters: Vec<ServiceParameter> = Vec::new();
    parameters.push(
        p_in("JournalBatchNumber", "Edm.String", false, "Ledger journal header batch number"),
    );
    parameters.push(
        p_in(
            "JournalLines",
            "Collection(Microsoft.Dynamics.DataEntities.LedgerJournalTrans)",
            false,
            "Journal lines",
        ),
    );
    parameters.push(p_out("Voucher", "Edm.String", "Resulting voucher number"));
    parameters.push(infolog_out());
    proof {
        assert(parameters@[3].name@ == "Infolog"@);
    }
    proof {
        assert(parameters@.map_values(|p: ServiceParameter| param_content(p)) =~= seed_operation_contents()[2].parameters);
    }
    write_op(
        "LedgerGeneralJournalEntryPost",
        "Post a general ledger journal entry.  Submitted inside a $batch change set; never auto-commits.",
        "GeneralLedger",
        "GTFin",
        parameters,
        "LedgerJournalEntryMaintain",
        "LedgerJournalEntryProcess",
        "The SAP accounting document post (BAPI_ACC_DOCUMENT_POST \u{2192} ACDOCA) maps to a ledger journal post writing GeneralJournalAccountEntry.",
    )
}

fn op_product_receipt_post() -> (o: ServiceOperationMeta)
    ensures
        operation_content(o) == seed_operation_contents()[3],
        o.uses_changeset,
        o.operation@ == "InventoryProductReceiptPost"@,
        !o.read_only,
        operation_invariants(o),
{
    let mut parameters: Vec<ServiceParameter> = Vec::new();
    parameters.push(p_in("PurchaseOrderNumber", "Edm.String", false, "Purchase order number"));
    parameters.push(
        p_in("ProductReceiptNumber", "Edm.String", false, "Vendor product receipt number"),
    );
    parameters.push(p_out("Voucher", "Edm.String", "Resulting inventory voucher"));
    parameters.push(infolog_out());
    proof {
        assert(parameters@[3].name@ == "Infolog"@);
    }
    proof {
        assert(parameters@.map_values(|p: ServiceParameter| param_content(p)) =~= seed_operation_contents()[3].parameters);
    }
    write_op(
        "InventoryProductReceiptPost",
        "Post a product (goods) receipt against a purchase order.",
        "SupplyChain",
        "ApplicationSuite",
        parameters,
        "VendProductReceiptMaintain",
        "VendProductReceiptProcess",
        "Maps from the SAP goods movement post (BAPI_GOODSMVT_CREATE).",
    )
}

fn op_purchase_order_create() -> (o: ServiceOperationMeta)
    ensures
        operation_content(o) == seed_operation_contents()[4],
        o.uses_changeset,
        o.operation@ == "PurchaseOrderCreate"@,
        !o.read_only,
        operation_invariants(o),
{
    let mut parameters: Vec<ServiceParameter> = Vec::new();
    parameters.push(p_in("OrderAccount", "Edm.String", false, "Vendor account"));
    parameters.push(p_in("dataAreaId", "Edm.String", false, "Legal entity"));
    parameters.push(
        p_in(
            "PurchaseOrderLines",
            "Collection(Microsoft.Dynamics.DataEntities.PurchaseOrderLinesV2)",
            false,
            "Order lines",
        ),
    );
    parameters.push(p_out("PurchaseOrderNumber", "Edm.String", "Resulting purchase order number"));
    parameters.push(infolog_out());
    proof {
        assert(parameters@[4].name@ == "Infolog"@);
    }
    proof {
        assert(parameters@.map_values(|p: ServiceParameter| param_content(p)) =~= seed_operation_contents()[4].parameters);
    }
    write_op(
        "PurchaseOrderCreate",
        "Create a purchase order (header + lines).  Submitted inside a $batch change set.",
        "Procurement",
        "ApplicationSuite",
        parameters,
        "PurchPurchaseOrderMaintain",
        "PurchPurchaseOrderProcess",
        "Maps from the SAP purchase order create (BAPI_PO_CREATE1).",
    )
}

fn op_sales_order_create() -> (o: ServiceOperationMeta)
    ensures
        operation_content(o) == seed_operation_contents()[5],
        o.uses_changeset,
        o.operation@ == "SalesOrderCreate"@,
        !o.read_only,
        operation_invariants(o),
{
    let mut parameters: Vec<ServiceParameter> = Vec::new();
    parameters.push(p_in("CustomerAccount", "Edm.String", false, "Customer account"));
    parameters.push(p_in("dataAreaId", "Edm.String", false, "Legal entity"));
    parameters.push(
        p_in(
            "SalesOrderLines",
            "Collection(Microsoft.Dynamics.DataEntities.SalesOrderLinesV2)",
            false,
            "Order lines",
        ),
    );
    parameters.push(p_out("SalesOrderNumber", "Edm.String", "Resulting sales order number"));
    parameters.push(infolog_out());
    proof {
        assert(parameters@[4].name@ == "Infolog"@);
    }
    proof {
        assert(parameters@.map_values(|p: ServiceParameter| param_content(p)) =~= seed_operation_contents()[5].parameters);
    }
    write_op(
        "SalesOrderCreate",
        "Create a sales order (header + lines).  Submitted inside a $batch change set.",
        "Sales",
        "ApplicationSuite",
        parameters,
        "SalesSalesOrderMaintain",
        "SalesOrderProcess",
        "Maps from the SAP sales order create (BAPI_SALESORDER_CREATEFROMDAT2).",
    )
}

fn op_customer_maintain() -> (o: ServiceOperationMeta)
    ensures
        operation_content(o) == seed_operation_contents()[6],
        o.uses_changeset,
        o.operation@ == "CustomerMaintain"@,
        !o.read_only,
        operation_invariants(o),
{
    let mut parameters: Vec<ServiceParameter> = Vec::new();
    parameters.push(
        p_in("CustomerAccount", "Edm.String", true, "Customer account (omit to create)"),
    );
    parameters.push(p_in("dataAreaId", "Edm.String", false, "Legal entity"));
    parameters.push(p_in("OrganizationName", "Edm.String", false, "Customer organization name"));
    parameters.push(p_out("CustomerAccount", "Edm.String", "Resulting customer account"));
    parameters.push(infolog_out());
    proof {
        assert(parameters@[4].name@ == "Infolog"@);
    }
    proof {
        assert(parameters@.map_values(|p: ServiceParameter| param_content(p)) =~= seed_operation_contents()[6].parameters);
    }
    write_op(
        "CustomerMaintain",
        "Create or update a customer master record.  Submitted inside a $batch change set.",
        "Sales",
        "ApplicationSuite",
        parameters,
        "CustCustomerMaintain",
        "CustCustomerMasterProcess",
        "Maps from the SAP customer master maintenance; the customer lives in CustomersV3 (Business Partner unification analog).",
    )
}

/// The catalogued service operations.
pub fn seed_operations() -> (ops: Vec<ServiceOperationMeta>)
    ensures
        ops@.len() == 7,
        ops@.map_values(|o: ServiceOperationMeta| o.operation@) == seq!["EnvironmentInfo"@, "ReleasedProductGetDetail"@, "LedgerGeneralJournalEntryPost"@, "InventoryProductReceiptPost"@, "PurchaseOrderCreate"@, "SalesOrderCreate"@, "CustomerMaintain"@],
        ops@.map_values(|o: ServiceOperationMeta| o.read_only) == seq![true, true, false, false, false, false, false],
        ops@.map_values(|o: ServiceOperationMeta| o.uses_changeset) == seq![false, false, true, true, true, true, true],
        forall|i: int| 0 <= i < ops@.len() ==> operation_invariants(#[trigger] ops@[i]),
        ops@.map_values(|o: ServiceOperationMeta| operation_content(o)) == seed_operation_contents(),
{
    let mut ops: Vec<ServiceOperationMeta> = Vec::new();
    ops.push(op_environment_info());
    ops.push(op_released_product_get_detail());
    ops.push(op_ledger_post());
    ops.push(op_product_receipt_post());
    ops.push(op_purchase_order_create());
    ops.push(op_sales_order_create());
    ops.push(op_customer_maintain());
    proof {
        assert(ops@.map_values(|o: ServiceOperationMeta| o.operation@) =~= seq!["EnvironmentInfo"@, "ReleasedProductGetDetail"@, "LedgerGeneralJournalEntryPost"@, "InventoryProductReceiptPost"@, "PurchaseOrderCreate"@, "SalesOrderCreate"@, "CustomerMaintain"@]);
        assert(ops@.map_values(|o: ServiceOperationMeta| o.read_only) =~= seq![true, true, false, false, false, false, false]);
        assert(ops@.map_values(|o: ServiceOperationMeta| o.uses_changeset) =~= seq![false, false, true, true, true, true, true]);
        assert(ops@.map_values(|o: ServiceOperationMeta| operation_content(o)) =~= seed_operation_contents());
    }
    ops
}

// ---------------------------------------------------------------------------
// Data entities
// ---------------------------------------------------------------------------

fn field(name: &str, edm: &str, ty: &str, len: u32, key: bool, desc: &str) -> (f: EntityField)
    ensures
        f.name@ == name@,
        f.edm_type@ == edm@,
        f.type_token@ == ty@,
        f.length == len,
        f.key == key,
        field_content(f) == field_spec(name@, edm@, ty@, len, key, desc@),
{
    EntityField {
        name: owned(name),
        edm_type: owned(edm),
        type_token: owned(ty),
        length: len,
        description: text_opt(desc),
        key,
    }
}

fn jstr(s: &str) -> (j: Json)
    ensures
        j is Str,
        j@ == crate::json::JsonV::Str(s@),
{
    Json::Str(owned(s))
}

fn jnum(s: &str) -> (j: Json)
    ensures
        j@ == crate::json::JsonV::Number(s@),
{
    Json::Number(owned(s))
}

fn member(key: &str, value: Json) -> (m: (String, Json))
    ensures
        m.0@ == key@,
        m.1 == value,
{
    (owned(key), value)
}

fn company_key() -> (k: String)
    ensures
        k@ == "dataAreaId"@,
{
    owned("dataAreaId")
}

fn legal_entity_field() -> (f: EntityField)
    ensures
        f.name@ == "dataAreaId"@,
        f.key,
        field_content(f) == legal_entity_field_spec(),
{
    field("dataAreaId", "Edm.String", "DataAreaId", 4, true, "Legal entity id")
}

fn structure(
    entity: &str,
    description: &str,
    fields: Vec<EntityField>,
    key_fields: Vec<String>,
    security: &str,
    company_scoped: bool,
    legacy: &str,
) -> (s: EntityStructure)
    requires
        company_scoped ==> keyed_by_company(key_fields@),
    ensures
        s.entity@ == entity@,
        s.fields@ == fields@,
        s.key_fields@ == key_fields@,
        s.company_scoped == company_scoped,
        s.legacy_mapping.is_some() && s.legacy_mapping.unwrap()@ == legacy@,
        entity_invariants(s),
        structure_content(s) == (StructureContent {
            entity: entity@,
            description: description@,
            fields: fields@.map_values(|f: EntityField| field_content(f)),
            key_fields: key_fields@.map_values(|k: String| k@),
            security: security@,
            company_scoped,
            legacy_mapping: Some(legacy@),
        }),
{
    EntityStructure {
        entity: owned(entity),
        description: owned(description),
        fields,
        key_fields,
        security: owned(security),
        company_scoped,
        legacy_mapping: Some(owned(legacy)),
    }
}

fn companies() -> (e: MockEntity)
    ensures
        structure_content(e.structure) == seed_structures()[0],
        e.structure.key_fields@.map_values(|k: String| k@) == seed_keys()[0],
        rows_view(e.rows@) == seed_rows()[0],
        entity_invariants(e.structure),
        e.structure.entity@ == "CompaniesV2"@,
        !e.structure.company_scoped,
{
    let mut fields: Vec<EntityField> = Vec::new();
    fields.push(legal_entity_field());
    fields.push(field("CompanyName", "Edm.String", "Name", 60, false, "Legal entity name"));
    fields.push(field("CurrencyCode", "Edm.String", "CurrencyCode", 3, false, "Accounting currency"));
    let mut keys: Vec<String> = Vec::new();
    keys.push(company_key());
    let mut rows: Vec<Vec<(String, Json)>> = Vec::new();
    let mut r1: Vec<(String, Json)> = Vec::new();
    r1.push(member("CompanyName", jstr("Contoso Entertainment US")));
    r1.push(member("CurrencyCode", jstr("USD")));
    r1.push(member("dataAreaId", jstr("USMF")));
    proof {
        lemma_members_view(r1@);
        assert(members_view(r1@) =~= seq![("CompanyName"@, JsonV::Str("Contoso Entertainment US"@)), ("CurrencyCode"@, JsonV::Str("USD"@)), ("dataAreaId"@, JsonV::Str("USMF"@))]);
    }
    rows.push(r1);
    let mut r2: Vec<(String, Json)> = Vec::new();
    r2.push(member("CompanyName", jstr("Contoso UK")));
    r2.push(member("CurrencyCode", jstr("GBP")));
    r2.push(member("dataAreaId", jstr("GBSI")));
    proof {
        lemma_members_view(r2@);
        assert(members_view(r2@) =~= seq![("CompanyName"@, JsonV::Str("Contoso UK"@)), ("CurrencyCode"@, JsonV::Str("GBP"@)), ("dataAreaId"@, JsonV::Str("GBSI"@))]);
    }
    rows.push(r2);
    proof {
        assert(rows_view(rows@) =~= seed_rows()[0]);
        assert(keys@.map_values(|k: String| k@) =~= seed_keys()[0]);
    }
    proof {
        assert(fields@.map_values(|f: EntityField| field_content(f)) =~= seed_structures()[0].fields);
        assert(keys@.map_values(|k: String| k@) =~= seed_structures()[0].key_fields);
    }
    MockEntity {
        structure: structure(
            "CompaniesV2",
            "Legal entities / companies.",
            fields,
            keys,
            "CompanyView",
            false,
            "SAP T001 (company codes).",
        ),
        rows,
    }
}

fn fiscal_calendar_period() -> (e: MockEntity)
    ensures
        structure_content(e.structure) == seed_structures()[1],
        e.structure.key_fields@.map_values(|k: String| k@) == seed_keys()[1],
        rows_view(e.rows@) == seed_rows()[1],
        entity_invariants(e.structure),
        e.structure.entity@ == "FiscalCalendarPeriod"@,
        e.structure.company_scoped,
{
    let mut fields: Vec<EntityField> = Vec::new();
    fields.push(legal_entity_field());
    fields.push(field("FiscalCalendarPeriodName", "Edm.String", "Name", 30, true, "Period name"));
    fields.push(field("Status", "Edm.String", "PeriodStatus", 12, false, "Open / OnHold / Closed"));
    let mut keys: Vec<String> = Vec::new();
    keys.push(company_key());
    keys.push(owned("FiscalCalendarPeriodName"));
    proof {
        assert(keys@[0]@ == "dataAreaId"@);
    }
    let mut rows: Vec<Vec<(String, Json)>> = Vec::new();
    let mut r1: Vec<(String, Json)> = Vec::new();
    r1.push(member("FiscalCalendarPeriodName", jstr("2026-M03")));
    r1.push(member("Status", jstr("Closed")));
    r1.push(member("dataAreaId", jstr("USMF")));
    proof {
        lemma_members_view(r1@);
        assert(members_view(r1@) =~= seq![("FiscalCalendarPeriodName"@, JsonV::Str("2026-M03"@)), ("Status"@, JsonV::Str("Closed"@)), ("dataAreaId"@, JsonV::Str("USMF"@))]);
    }
    rows.push(r1);
    let mut r2: Vec<(String, Json)> = Vec::new();
    r2.push(member("FiscalCalendarPeriodName", jstr("2026-M04")));
    r2.push(member("Status", jstr("Open")));
    r2.push(member("dataAreaId", jstr("USMF")));
    proof {
        lemma_members_view(r2@);
        assert(members_view(r2@) =~= seq![("FiscalCalendarPeriodName"@, JsonV::Str("2026-M04"@)), ("Status"@, JsonV::Str("Open"@)), ("dataAreaId"@, JsonV::Str("USMF"@))]);
    }
    rows.push(r2);
    proof {
        assert(rows_view(rows@) =~= seed_rows()[1]);
        assert(keys@.map_values(|k: String| k@) =~= seed_keys()[1]);
    }
    proof {
        assert(fields@.map_values(|f: EntityField| field_content(f)) =~= seed_structures()[1].fields);
        assert(keys@.map_values(|k: String| k@) =~= seed_structures()[1].key_fields);
    }
    MockEntity {
        structure: structure(
            "FiscalCalendarPeriod",
            "Ledger fiscal calendar periods.",
            fields,
            keys,
            "LedgerPeriodView",
            true,
            "SAP T001B (posting periods).",
        ),
        rows,
    }
}

fn released_products() -> (e: MockEntity)
    ensures
        structure_content(e.structure) == seed_structures()[2],
        e.structure.key_fields@.map_values(|k: String| k@) == seed_keys()[2],
        rows_view(e.rows@) == seed_rows()[2],
        entity_invariants(e.structure),
        e.structure.entity@ == "ReleasedProductsV2"@,
        e.structure.company_scoped,
        exists|k: int|
            0 <= k < e.structure.fields@.len() && (#[trigger] e.structure.fields@[k]).name@
                == "ItemNumber"@ && e.structure.fields@[k].type_token@ == "ItemId"@,
{
    let mut fields: Vec<EntityField> = Vec::new();
    fields.push(legal_entity_field());
    fields.push(
        field("ItemNumber", "Edm.String", "ItemId", 20, true, "Released product item number"),
    );
    fields.push(field("ProductName", "Edm.String", "Name", 60, false, "Product name"));
    fields.push(
        field("ItemModelGroupId", "Edm.String", "ItemModelGroupId", 10, false, "Item model group"),
    );
    let mut keys: Vec<String> = Vec::new();
    keys.push(company_key());
    keys.push(owned("ItemNumber"));
    proof {
        assert(keys@[0]@ == "dataAreaId"@);
    }
    let mut rows: Vec<Vec<(String, Json)>> = Vec::new();
    let mut r1: Vec<(String, Json)> = Vec::new();
    r1.push(member("ItemModelGroupId", jstr("FIFO")));
    r1.push(member("ItemNumber", jstr("D0001")));
    r1.push(member("ProductName", jstr("Mid-Range Speaker")));
    r1.push(member("dataAreaId", jstr("USMF")));
    proof {
        lemma_members_view(r1@);
        assert(members_view(r1@) =~= seq![("ItemModelGroupId"@, JsonV::Str("FIFO"@)), ("ItemNumber"@, JsonV::Str("D0001"@)), ("ProductName"@, JsonV::Str("Mid-Range Speaker"@)), ("dataAreaId"@, JsonV::Str("USMF"@))]);
    }
    rows.push(r1);
    proof {
        assert(fields@.map_values(|f: EntityField| field_content(f)) =~= seed_structures()[2].fields);
        assert(keys@.map_values(|k: String| k@) =~= seed_structures()[2].key_fields);
    }
    let e = MockEntity {
        structure: structure(
            "ReleasedProductsV2",
            "Released products (item master).",
            fields,
            keys,
            "EcoResProductView",
            true,
            "SAP MARA (general material data); ItemNumber replaces MATNR.",
        ),
        rows,
    };
    proof {
        assert(e.structure.fields@[1].name@ == "ItemNumber"@);
    }
    e
}

fn ledger_journal_trans() -> (e: MockEntity)
    ensures
        structure_content(e.structure) == seed_structures()[3],
        e.structure.key_fields@.map_values(|k: String| k@) == seed_keys()[3],
        rows_view(e.rows@) == seed_rows()[3],
        entity_invariants(e.structure),
        e.structure.entity@ == "LedgerJournalTrans"@,
        e.structure.company_scoped,
{
    let mut fields: Vec<EntityField> = Vec::new();
    fields.push(legal_entity_field());
    fields.push(
        field(
            "JournalBatchNumber",
            "Edm.String",
            "JournalNum",
            20,
            true,
            "Journal header batch number",
        ),
    );
    fields.push(field("LineNumber", "Edm.Int64", "LineNum", 0, true, "Line number"));
    fields.push(
        field(
            "AccountDisplayValue",
            "Edm.String",
            "LedgerDimension",
            40,
            false,
            "Main account + dimensions",
        ),
    );
    fields.push(
        field("AmountCurrencyDebit", "Edm.Decimal", "AmountCurDebit", 0, false, "Debit amount"),
    );
    fields.push(
        field("AmountCurrencyCredit", "Edm.Decimal", "AmountCurCredit", 0, false, "Credit amount"),
    );
    let mut keys: Vec<String> = Vec::new();
    keys.push(company_key());
    keys.push(owned("JournalBatchNumber"));
    keys.push(owned("LineNumber"));
    proof {
        assert(keys@[0]@ == "dataAreaId"@);
    }
    let mut rows: Vec<Vec<(String, Json)>> = Vec::new();
    let mut r1: Vec<(String, Json)> = Vec::new();
    r1.push(member("AccountDisplayValue", jstr("110180")));
    r1.push(member("AmountCurrencyCredit", jstr("0.00")));
    r1.push(member("AmountCurrencyDebit", jstr("1000.00")));
    r1.push(member("JournalBatchNumber", jstr("000123")));
    r1.push(member("LineNumber", jnum("1")));
    r1.push(member("dataAreaId", jstr("USMF")));
    proof {
        lemma_members_view(r1@);
        assert(members_view(r1@) =~= seq![("AccountDisplayValue"@, JsonV::Str("110180"@)), ("AmountCurrencyCredit"@, JsonV::Str("0.00"@)), ("AmountCurrencyDebit"@, JsonV::Str("1000.00"@)), ("JournalBatchNumber"@, JsonV::Str("000123"@)), ("LineNumber"@, JsonV::Number("1"@)), ("dataAreaId"@, JsonV::Str("USMF"@))]);
    }
    rows.push(r1);
    proof {
        assert(rows_view(rows@) =~= seed_rows()[3]);
        assert(keys@.map_values(|k: String| k@) =~= seed_keys()[3]);
    }
    proof {
        assert(fields@.map_values(|f: EntityField| field_content(f)) =~= seed_structures()[3].fields);
        assert(keys@.map_values(|k: String| k@) =~= seed_structures()[3].key_fields);
    }
    MockEntity {
        structure: structure(
            "LedgerJournalTrans",
            "General journal lines.",
            fields,
            keys,
            "LedgerJournalView",
            true,
            "SAP BSEG (accounting document segment).",
        ),
        rows,
    }
}

fn general_journal_account_entry() -> (e: MockEntity)
    ensures
        structure_content(e.structure) == seed_structures()[4],
        e.structure.key_fields@.map_values(|k: String| k@) == seed_keys()[4],
        rows_view(e.rows@) == seed_rows()[4],
        entity_invariants(e.structure),
        e.structure.entity@ == "GeneralJournalAccountEntry"@,
        e.structure.company_scoped,
        contains_seq(e.structure.legacy_mapping.unwrap()@, "universal journal"@),
{
    let mut fields: Vec<EntityField> = Vec::new();
    fields.push(legal_entity_field());
    fields.push(
        field("GeneralJournalAccountEntryRecId", "Edm.Int64", "RecId", 0, true, "Record id"),
    );
    fields.push(field("MainAccount", "Edm.String", "MainAccount", 25, false, "Main account"));
    fields.push(
        field(
            "AccountingCurrencyAmount",
            "Edm.Decimal",
            "AmountMST",
            0,
            false,
            "Accounting currency amount",
        ),
    );
    fields.push(field("PostingType", "Edm.String", "PostingType", 30, false, "Posting type"));
    let mut keys: Vec<String> = Vec::new();
    keys.push(company_key());
    keys.push(owned("GeneralJournalAccountEntryRecId"));
    proof {
        assert(keys@[0]@ == "dataAreaId"@);
    }
    let mut rows: Vec<Vec<(String, Json)>> = Vec::new();
    let mut r1: Vec<(String, Json)> = Vec::new();
    r1.push(member("AccountingCurrencyAmount", jstr("1000.00")));
    r1.push(member("GeneralJournalAccountEntryRecId", jnum("5637144576")));
    r1.push(member("MainAccount", jstr("110180")));
    r1.push(member("PostingType", jstr("LedgerJournal")));
    r1.push(member("dataAreaId", jstr("USMF")));
    proof {
        lemma_members_view(r1@);
        assert(members_view(r1@) =~= seq![("AccountingCurrencyAmount"@, JsonV::Str("1000.00"@)), ("GeneralJournalAccountEntryRecId"@, JsonV::Number("5637144576"@)), ("MainAccount"@, JsonV::Str("110180"@)), ("PostingType"@, JsonV::Str("LedgerJournal"@)), ("dataAreaId"@, JsonV::Str("USMF"@))]);
    }
    rows.push(r1);
    proof {
        assert(fields@.map_values(|f: EntityField| field_content(f)) =~= seed_structures()[4].fields);
        assert(keys@.map_values(|k: String| k@) =~= seed_structures()[4].key_fields);
    }
    let e = MockEntity {
        structure: structure(
            "GeneralJournalAccountEntry",
            "Subledger general journal account entries \u{2014} the universal accounting truth.",
            fields,
            keys,
            "LedgerTransView",
            true,
            "SAP ACDOCA / FAGLFLEXA (universal journal); this is the Dynamics 365 single source of accounting truth.",
        ),
        rows,
    };
    proof {
        reveal_strlit(
            "SAP ACDOCA / FAGLFLEXA (universal journal); this is the Dynamics 365 single source of accounting truth.",
        );
        reveal_strlit("universal journal");
        let m = e.structure.legacy_mapping.unwrap()@;
        assert(m.subrange(24, 41) =~= "universal journal"@);
        assert(occurs_at(m, "universal journal"@, 24));
    }
    e
}

fn customers() -> (e: MockEntity)
    ensures
        structure_content(e.structure) == seed_structures()[5],
        e.structure.key_fields@.map_values(|k: String| k@) == seed_keys()[5],
        rows_view(e.rows@) == seed_rows()[5],
        entity_invariants(e.structure),
        e.structure.entity@ == "CustomersV3"@,
        e.structure.company_scoped,
{
    let mut fields: Vec<EntityField> = Vec::new();
    fields.push(legal_entity_field());
    fields.push(field("CustomerAccount", "Edm.String", "AccountNum", 20, true, "Customer account"));
    fields.push(field("OrganizationName", "Edm.String", "Name", 100, false, "Customer name"));
    fields.push(field("CustomerGroupId", "Edm.String", "CustGroup", 10, false, "Customer group"));
    let mut keys: Vec<String> = Vec::new();
    keys.push(company_key());
    keys.push(owned("CustomerAccount"));
    proof {
        assert(keys@[0]@ == "dataAreaId"@);
    }
    let mut rows: Vec<Vec<(String, Json)>> = Vec::new();
    let mut r1: Vec<(String, Json)> = Vec::new();
    r1.push(member("CustomerAccount", jstr("US-001")));
    r1.push(member("CustomerGroupId", jstr("10")));
    r1.push(member("OrganizationName", jstr("Forest Wholesales")));
    r1.push(member("dataAreaId", jstr("USMF")));
    proof {
        lemma_members_view(r1@);
        assert(members_view(r1@) =~= seq![("CustomerAccount"@, JsonV::Str("US-001"@)), ("CustomerGroupId"@, JsonV::Str("10"@)), ("OrganizationName"@, JsonV::Str("Forest Wholesales"@)), ("dataAreaId"@, JsonV::Str("USMF"@))]);
    }
    rows.push(r1);
    proof {
        assert(rows_view(rows@) =~= seed_rows()[5]);
        assert(keys@.map_values(|k: String| k@) =~= seed_keys()[5]);
    }
    proof {
        assert(fields@.map_values(|f: EntityField| field_content(f)) =~= seed_structures()[5].fields);
        assert(keys@.map_values(|k: String| k@) =~= seed_structures()[5].key_fields);
    }
    MockEntity {
        structure: structure(
            "CustomersV3",
            "Customer master records.",
            fields,
            keys,
            "CustCustomerView",
            true,
            "SAP customer master (Business Partner unification analog).",
        ),
        rows,
    }
}

fn sales_order_headers() -> (e: MockEntity)
    ensures
        structure_content(e.structure) == seed_structures()[6],
        e.structure.key_fields@.map_values(|k: String| k@) == seed_keys()[6],
        rows_view(e.rows@) == seed_rows()[6],
        entity_invariants(e.structure),
        e.structure.entity@ == "SalesOrderHeadersV2"@,
        e.structure.company_scoped,
{
    let mut fields: Vec<EntityField> = Vec::new();
    fields.push(legal_entity_field());
    fields.push(field("SalesOrderNumber", "Edm.String", "SalesId", 20, true, "Sales order number"));
    fields.push(
        field(
            "OrderingCustomerAccountNumber",
            "Edm.String",
            "CustAccount",
            20,
            false,
            "Customer account",
        ),
    );
    fields.push(field("SalesOrderStatus", "Edm.String", "SalesStatus", 20, false, "Order status"));
    let mut keys: Vec<String> = Vec::new();
    keys.push(company_key());
    keys.push(owned("SalesOrderNumber"));
    proof {
        assert(keys@[0]@ == "dataAreaId"@);
    }
    let mut rows: Vec<Vec<(String, Json)>> = Vec::new();
    let mut r1: Vec<(String, Json)> = Vec::new();
    r1.push(member("OrderingCustomerAccountNumber", jstr("US-001")));
    r1.push(member("SalesOrderNumber", jstr("SO-000178")));
    r1.push(member("SalesOrderStatus", jstr("Backorder")));
    r1.push(member("dataAreaId", jstr("USMF")));
    proof {
        lemma_members_view(r1@);
        assert(members_view(r1@) =~= seq![("OrderingCustomerAccountNumber"@, JsonV::Str("US-001"@)), ("SalesOrderNumber"@, JsonV::Str("SO-000178"@)), ("SalesOrderStatus"@, JsonV::Str("Backorder"@)), ("dataAreaId"@, JsonV::Str("USMF"@))]);
    }
    rows.push(r1);
    proof {
        assert(rows_view(rows@) =~= seed_rows()[6]);
        assert(keys@.map_values(|k: String| k@) =~= seed_keys()[6]);
    }
    proof {
        assert(fields@.map_values(|f: EntityField| field_content(f)) =~= seed_structures()[6].fields);
        assert(keys@.map_values(|k: String| k@) =~= seed_structures()[6].key_fields);
    }
    MockEntity {
        structure: structure(
            "SalesOrderHeadersV2",
            "Sales order headers.",
            fields,
            keys,
            "SalesOrderView",
            true,
            "SAP VBAK (sales document header).",
        ),
        rows,
    }
}

/// The key fields of the catalogued entities, in catalogue order.
pub open spec fn seed_keys() -> Seq<Seq<Seq<char>>> {
    seq![
        seq!["dataAreaId"@],
        seq!["dataAreaId"@, "FiscalCalendarPeriodName"@],
        seq!["dataAreaId"@, "ItemNumber"@],
        seq!["dataAreaId"@, "JournalBatchNumber"@, "LineNumber"@],
        seq!["dataAreaId"@, "GeneralJournalAccountEntryRecId"@],
        seq!["dataAreaId"@, "CustomerAccount"@],
        seq!["dataAreaId"@, "SalesOrderNumber"@],
    ]
}

/// The records of the catalogued entities, in catalogue order; each record's
/// members in the order they are stored.
pub open spec fn seed_rows() -> Seq<Seq<Seq<(Seq<char>, JsonV)>>> {
    seq![
        seq![seq![("CompanyName"@, JsonV::Str("Contoso Entertainment US"@)), ("CurrencyCode"@, JsonV::Str("USD"@)), ("dataAreaId"@, JsonV::Str("USMF"@))], seq![("CompanyName"@, JsonV::Str("Contoso UK"@)), ("CurrencyCode"@, JsonV::Str("GBP"@)), ("dataAreaId"@, JsonV::Str("GBSI"@))]],
        seq![seq![("FiscalCalendarPeriodName"@, JsonV::Str("2026-M03"@)), ("Status"@, JsonV::Str("Closed"@)), ("dataAreaId"@, JsonV::Str("USMF"@))], seq![("FiscalCalendarPeriodName"@, JsonV::Str("2026-M04"@)), ("Status"@, JsonV::Str("Open"@)), ("dataAreaId"@, JsonV::Str("USMF"@))]],
        seq![seq![("ItemModelGroupId"@, JsonV::Str("FIFO"@)), ("ItemNumber"@, JsonV::Str("D0001"@)), ("ProductName"@, JsonV::Str("Mid-Range Speaker"@)), ("dataAreaId"@, JsonV::Str("USMF"@))]],
        seq![seq![("AccountDisplayValue"@, JsonV::Str("110180"@)), ("AmountCurrencyCredit"@, JsonV::Str("0.00"@)), ("AmountCurrencyDebit"@, JsonV::Str("1000.00"@)), ("JournalBatchNumber"@, JsonV::Str("000123"@)), ("LineNumber"@, JsonV::Number("1"@)), ("dataAreaId"@, JsonV::Str("USMF"@))]],
        seq![seq![("AccountingCurrencyAmount"@, JsonV::Str("1000.00"@)), ("GeneralJournalAccountEntryRecId"@, JsonV::Number("5637144576"@)), ("MainAccount"@, JsonV::Str("110180"@)), ("PostingType"@, JsonV::Str("LedgerJournal"@)), ("dataAreaId"@, JsonV::Str("USMF"@))]],
        seq![seq![("CustomerAccount"@, JsonV::Str("US-001"@)), ("CustomerGroupId"@, JsonV::Str("10"@)), ("OrganizationName"@, JsonV::Str("Forest Wholesales"@)), ("dataAreaId"@, JsonV::Str("USMF"@))]],
        seq![seq![("OrderingCustomerAccountNumber"@, JsonV::Str("US-001"@)), ("SalesOrderNumber"@, JsonV::Str("SO-000178"@)), ("SalesOrderStatus"@, JsonV::Str("Backorder"@)), ("dataAreaId"@, JsonV::Str("USMF"@))]],
    ]
}

/// The structures of the catalogued entities, in catalogue order: name,
/// description, fields, keys, security, company scope and the legacy table each
/// one replaces.
pub open spec fn seed_structures() -> Seq<StructureContent> {
    seq![
        StructureContent {
            entity: "CompaniesV2"@,
            description: "Legal entities / companies."@,
            fields: seq![
                legal_entity_field_spec(),
                field_spec("CompanyName"@, "Edm.String"@, "Name"@, 60, false, "Legal entity name"@),
                field_spec("CurrencyCode"@, "Edm.String"@, "CurrencyCode"@, 3, false, "Accounting currency"@),
            ],
            key_fields: seq!["dataAreaId"@],
            security: "CompanyView"@,
            company_scoped: false,
            legacy_mapping: Some("SAP T001 (company codes)."@),
        },
        StructureContent {
            entity: "FiscalCalendarPeriod"@,
            description: "Ledger fiscal calendar periods."@,
            fields: seq![
                legal_entity_field_spec(),
                field_spec("FiscalCalendarPeriodName"@, "Edm.String"@, "Name"@, 30, true, "Period name"@),
                field_spec("Status"@, "Edm.String"@, "PeriodStatus"@, 12, false, "Open / OnHold / Closed"@),
            ],
            key_fields: seq!["dataAreaId"@, "FiscalCalendarPeriodName"@],
            security: "LedgerPeriodView"@,
            company_scoped: true,
            legacy_mapping: Some("SAP T001B (posting periods)."@),
        },
        StructureContent {
            entity: "ReleasedProductsV2"@,
            description: "Released products (item master)."@,
            fields: seq![
                legal_entity_field_spec(),
                field_spec("ItemNumber"@, "Edm.String"@, "ItemId"@, 20, true, "Released product item number"@),
                field_spec("ProductName"@, "Edm.String"@, "Name"@, 60, false, "Product name"@),
                field_spec("ItemModelGroupId"@, "Edm.String"@, "ItemModelGroupId"@, 10, false, "Item model group"@),
            ],
            key_fields: seq!["dataAreaId"@, "ItemNumber"@],
            security: "EcoResProductView"@,
            company_scoped: true,
            legacy_mapping: Some("SAP MARA (general material data); ItemNumber replaces MATNR."@),
        },
        StructureContent {
            entity: "LedgerJournalTrans"@,
            description: "General journal lines."@,
            fields: seq![
                legal_entity_field_spec(),
                field_spec("JournalBatchNumber"@, "Edm.String"@, "JournalNum"@, 20, true, "Journal header batch number"@),
                field_spec("LineNumber"@, "Edm.Int64"@, "LineNum"@, 0, true, "Line number"@),
                field_spec("AccountDisplayValue"@, "Edm.String"@, "LedgerDimension"@, 40, false, "Main account + dimensions"@),
                field_spec("AmountCurrencyDebit"@, "Edm.Decimal"@, "AmountCurDebit"@, 0, false, "Debit amount"@),
                field_spec("AmountCurrencyCredit"@, "Edm.Decimal"@, "AmountCurCredit"@, 0, false, "Credit amount"@),
            ],
            key_fields: seq!["dataAreaId"@, "JournalBatchNumber"@, "LineNumber"@],
            security: "LedgerJournalView"@,
            company_scoped: true,
            legacy_mapping: Some("SAP BSEG (accounting document segment)."@),
        },
        StructureContent {
            entity: "GeneralJournalAccountEntry"@,
            description: "Subledger general journal account entries \u{2014} the universal accounting truth."@,
            fields: seq![
                legal_entity_field_spec(),
                field_spec("GeneralJournalAccountEntryRecId"@, "Edm.Int64"@, "RecId"@, 0, true, "Record id"@),
                field_spec("MainAccount"@, "Edm.String"@, "MainAccount"@, 25, false, "Main account"@),
                field_spec("AccountingCurrencyAmount"@, "Edm.Decimal"@, "AmountMST"@, 0, false, "Accounting currency amount"@),
                field_spec("PostingType"@, "Edm.String"@, "PostingType"@, 30, false, "Posting type"@),
            ],
            key_fields: seq!["dataAreaId"@, "GeneralJournalAccountEntryRecId"@],
            security: "LedgerTransView"@,
            company_scoped: true,
            legacy_mapping: Some("SAP ACDOCA / FAGLFLEXA (universal journal); this is the Dynamics 365 single source of accounting truth."@),
        },
        StructureContent {
            entity: "CustomersV3"@,
            description: "Customer master records."@,
            fields: seq![
                legal_entity_field_spec(),
                field_spec("CustomerAccount"@, "Edm.String"@, "AccountNum"@, 20, true, "Customer account"@),
                field_spec("OrganizationName"@, "Edm.String"@, "Name"@, 100, false, "Customer name"@),
                field_spec("CustomerGroupId"@, "Edm.String"@, "CustGroup"@, 10, false, "Customer group"@),
            ],
            key_fields: seq!["dataAreaId"@, "CustomerAccount"@],
            security: "CustCustomerView"@,
            company_scoped: true,
            legacy_mapping: Some("SAP customer master (Business Partner unification analog)."@),
        },
        StructureContent {
            entity: "SalesOrderHeadersV2"@,
            description: "Sales order headers."@,
            fields: seq![
                legal_entity_field_spec(),
                field_spec("SalesOrderNumber"@, "Edm.String"@, "SalesId"@, 20, true, "Sales order number"@),
                field_spec("OrderingCustomerAccountNumber"@, "Edm.String"@, "CustAccount"@, 20, false, "Customer account"@),
                field_spec("SalesOrderStatus"@, "Edm.String"@, "SalesStatus"@, 20, false, "Order status"@),
            ],
            key_fields: seq!["dataAreaId"@, "SalesOrderNumber"@],
            security: "SalesOrderView"@,
            company_scoped: true,
            legacy_mapping: Some("SAP VBAK (sales document header)."@),
        },
    ]
}
/// The catalogued data entities with their records.
pub fn seed_entities() -> (es: Vec<MockEntity>)
    ensures
        es@.len() == 7,
        es@.map_values(|e: MockEntity| e.structure.entity@) == seq!["CompaniesV2"@, "FiscalCalendarPeriod"@, "ReleasedProductsV2"@, "LedgerJournalTrans"@, "GeneralJournalAccountEntry"@, "CustomersV3"@, "SalesOrderHeadersV2"@],
        es@.map_values(|e: MockEntity| e.structure.company_scoped) == seq![false, true, true, true, true, true, true],
        es@.map_values(|e: MockEntity| e.structure.key_fields@.map_values(|k: String| k@)) == seed_keys(),
        es@.map_values(|e: MockEntity| rows_view(e.rows@)) == seed_rows(),
        es@.map_values(|e: MockEntity| structure_content(e.structure)) == seed_structures(),
        forall|i: int| 0 <= i < es@.len() ==> entity_invariants(#[trigger] es@[i].structure),
        es@[2].structure.entity@ == "ReleasedProductsV2"@,
        exists|k: int|
            0 <= k < es@[2].structure.fields@.len() && (#[trigger] es@[2].structure.fields@[k]).name@
                == "ItemNumber"@ && es@[2].structure.fields@[k].type_token@ == "ItemId"@,
        es@[4].structure.entity@ == "GeneralJournalAccountEntry"@,
        contains_seq(es@[4].structure.legacy_mapping.unwrap()@, "universal journal"@),
{
    let mut es: Vec<MockEntity> = Vec::new();
    es.push(companies());
    es.push(fiscal_calendar_period());
    es.push(released_products());
    es.push(ledger_journal_trans());
    es.push(general_journal_account_entry());
    es.push(customers());
    es.push(sales_order_headers());
    proof {
        assert(es@.map_values(|e: MockEntity| e.structure.entity@) =~= seq!["CompaniesV2"@, "FiscalCalendarPeriod"@, "ReleasedProductsV2"@, "LedgerJournalTrans"@, "GeneralJournalAccountEntry"@, "CustomersV3"@, "SalesOrderHeadersV2"@]);
        assert(es@.map_values(|e: MockEntity| e.structure.company_scoped) =~= seq![false, true, true, true, true, true, true]);
        assert(es@.map_values(|e: MockEntity| e.structure.key_fields@.map_values(|k: String| k@)) =~= seed_keys());
        assert(es@.map_values(|e: MockEntity| rows_view(e.rows@)) =~= seed_rows());
        assert(es@.map_values(|e: MockEntity| structure_content(e.structure)) =~= seed_structures());
    }
    es
}

/// The structures of the catalogued data entities, without their records.
pub fn seed_entity_structures() -> (es: Vec<EntityStructure>)
    ensures
        es@.len() == 7,
        es@.map_values(|e: EntityStructure| e.entity@) == seq!["CompaniesV2"@, "FiscalCalendarPeriod"@, "ReleasedProductsV2"@, "LedgerJournalTrans"@, "GeneralJournalAccountEntry"@, "CustomersV3"@, "SalesOrderHeadersV2"@],
        es@.map_values(|e: EntityStructure| e.company_scoped) == seq![false, true, true, true, true, true, true],
        es@.map_values(|e: EntityStructure| e.key_fields@.map_values(|k: String| k@)) == seed_keys(),
        es@.map_values(|e: EntityStructure| structure_content(e)) == seed_structures(),
        forall|i: int| 0 <= i < es@.len() ==> entity_invariants(#[trigger] es@[i]),
{
    let all = seed_entities();
    let mut out: Vec<EntityStructure> = Vec::new();
    let mut i: usize = 0;
    while i < all.len()
        invariant
            i <= all@.len(),
            all@.len() == 7,
            out@.len() == i,
            forall|q: int| 0 <= q < all@.len() ==> entity_invariants(#[trigger] all@[q].structure),
            forall|q: int| 0 <= q < i ==> (#[trigger] out@[q])@ == all@[q].structure@,
            forall|q: int| 0 <= q < i ==> entity_invariants(#[trigger] out@[q]),
        decreases all.len() - i,
    {
        let e = all[i].structure.duplicate();
        proof {
            assert(entity_invariants(all@[i as int].structure));
            assert(e.key_fields@ == all@[i as int].structure.key_fields@);
        }
        out.push(e);
        i = i + 1;
    }
    proof {
        assert(out@.map_values(|e: EntityStructure| e.entity@) =~= all@.map_values(
            |e: MockEntity| e.structure.entity@,
        ));
        assert(out@.map_values(|e: EntityStructure| e.company_scoped) =~= all@.map_values(
            |e: MockEntity| e.structure.company_scoped,
        ));
        assert(out@.map_values(|e: EntityStructure| e.key_fields@.map_values(|k: String| k@))
            =~= all@.map_values(|e: MockEntity| e.structure.key_fields@.map_values(|k: String| k@)));
        assert(out@.map_values(|e: EntityStructure| structure_content(e)) =~= all@.map_values(
            |e: MockEntity| structure_content(e.structure),
        ));
    }
    out
}

} // verus!
