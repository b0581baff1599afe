//! Guided write workflows.  Each asks the user to confirm details through one or
//! two forms; the transport shows the form and hands back the user's answer, and
//! the decisions here say what the next form is, what the user is told, and
//! what the audit log records.  Declining or cancelling never confirms a write.

use vstd::prelude::*;
use crate::json::{Json, JsonV, json_view, owned, str_of, members_view, lemma_members_view, items_view,
    lemma_items_view};
use crate::server::tools::AuditOutcome;

verus! {

/// What the user did with a form.
#[derive(Debug, Clone, Copy, PartialEq, Eq, Structural)]
pub enum ElicitAction {
    Accept,
    Decline,
    Cancel,
}

/// A form to show: the message, the properties of its fields (a JSON object of
/// JSON schemas) and the names of the fields it requires.
#[derive(Debug)]
pub struct FormRequest {
    pub message: String,
    pub properties: Json,
    pub required: Vec<String>,
}

/// How a workflow ends: the audit record, the text for the user, and whether the
/// text reports an error.
#[derive(Debug)]
pub struct WorkflowReply {
    pub audit: AuditOutcome,
    pub text: String,
    pub is_error: bool,
}

pub open spec fn audit_success(a: AuditOutcome, m: Seq<char>) -> bool {
    a matches AuditOutcome::Success(x) && x@ == m
}

pub open spec fn audit_declined(a: AuditOutcome, m: Seq<char>) -> bool {
    a matches AuditOutcome::Declined(x) && x@ == m
}

pub open spec fn audit_denied(a: AuditOutcome, m: Seq<char>) -> bool {
    a matches AuditOutcome::Denied(x) && x@ == m
}

// ---------------------------------------------------------------------------
// Form fields
// ---------------------------------------------------------------------------

pub open spec fn strs_json(o: Seq<Seq<char>>) -> JsonV {
    JsonV::Array(o.map_values(|s: Seq<char>| JsonV::Str(s)))
}

/// The schema of one field: its default if any, its description, its allowed
/// values if restricted, and its type; members in key order.
pub open spec fn prop_spec(
    default: Option<JsonV>,
    description: Seq<char>,
    options: Option<Seq<Seq<char>>>,
    ty: Seq<char>,
) -> JsonV {
    JsonV::Object(
        (match default {
            Some(d) => seq![("default"@, d)],
            None => seq![],
        }) + seq![("description"@, JsonV::Str(description))] + (match options {
            Some(o) => seq![("enum"@, strs_json(o))],
            None => seq![],
        }) + seq![("type"@, JsonV::Str(ty))],
    )
}

pub open spec fn opt_json(d: Option<Json>) -> Option<JsonV> {
    match d {
        Some(j) => Some(j@),
        None => None,
    }
}

pub open spec fn opt_strs(o: Option<&[&str]>) -> Option<Seq<Seq<char>>> {
    match o {
        Some(v) => Some(v@.map_values(|s: &str| s@)),
        None => None,
    }
}

fn str_array(v: &[&str]) -> (r: Json)
    ensures
        r@ == strs_json(v@.map_values(|s: &str| s@)),
{
    let mut items: Vec<Json> = Vec::new();
    let mut i: usize = 0;
    while i < v.len()
        invariant
            i <= v.len(),
            items@.len() == i,
            forall|k: int| 0 <= k < i ==> json_view(#[trigger] items@[k]) == JsonV::Str(v@[k]@),
        decreases v.len() - i,
    {
        items.push(Json::Str(owned(v[i])));
        i = i + 1;
    }
    proof {
        lemma_items_view(items@);
        assert(items_view(items@) =~= v@.map_values(|s: &str| s@).map_values(
            |s: Seq<char>| JsonV::Str(s),
        )) by {
            assert forall|k: int| 0 <= k < items@.len() implies items_view(items@)[k]
                == JsonV::Str(v@[k]@) by {
                assert(json_view(items@[k]) == JsonV::Str(v@[k]@));
            }
        }
    }
    Json::Array(items)
}

/// `{"default"?, "description", "enum"?, "type"}` built in order.
fn prop(default: Option<Json>, description: &str, options: Option<&[&str]>, ty: &str) -> (r: Json)
    ensures
        r@ == prop_spec(opt_json(default), description@, opt_strs(options), ty@),
{
    let ghost dv = opt_json(default);
    let ghost ov = opt_strs(options);
    let mut m: Vec<(String, Json)> = Vec::new();
    match default {
        Some(d) => {
            m.push((owned("default"), d));
        },
        None => {},
    }
    m.push((owned("description"), Json::Str(owned(description))));
    match options {
        Some(o) => {
            m.push((owned("enum"), str_array(o)));
        },
        None => {},
    }
    m.push((owned("type"), Json::Str(owned(ty))));
    proof {
        lemma_members_view(m@);
        let want = (match dv {
            Some(d) => seq![("default"@, d)],
            None => Seq::<(Seq<char>, JsonV)>::empty(),
        }) + seq![("description"@, JsonV::Str(description@))] + (match ov {
            Some(o) => seq![("enum"@, strs_json(o))],
            None => Seq::<(Seq<char>, JsonV)>::empty(),
        }) + seq![("type"@, JsonV::Str(ty@))];
        assert(members_view(m@) =~= want);
    }
    Json::Object(m)
}

fn names(v: &[&str]) -> (r: Vec<String>)
    ensures
        r@.map_values(|s: String| s@) == v@.map_values(|s: &str| s@),
{
    let mut r: Vec<String> = Vec::new();
    let mut i: usize = 0;
    while i < v.len()
        invariant
            i <= v.len(),
            r@.map_values(|s: String| s@) == v@.take(i as int).map_values(|s: &str| s@),
        decreases v.len() - i,
    {
        let ghost before = r@;
        r.push(owned(v[i]));
        proof {
            assert(r@.map_values(|s: String| s@) =~= before.map_values(|s: String| s@).push(
                v@[i as int]@,
            ));
            assert(v@.take(i as int + 1).map_values(|s: &str| s@) =~= v@.take(i as int).map_values(
                |s: &str| s@,
            ).push(v@[i as int]@));
        }
        i = i + 1;
    }
    proof {
        assert(v@.take(v@.len() as int) =~= v@);
    }
    r
}

/// The text of the string member `key` of `v`, or `default`.
pub open spec fn str_field(v: Option<JsonV>, key: Seq<char>, default: Seq<char>) -> Seq<char> {
    match v {
        Some(j) => match j.get_spec(key) {
            Some(x) => match str_of(x) {
                Some(s) => s,
                None => default,
            },
            None => default,
        },
        None => default,
    }
}

/// The boolean member `key` of `v`, or `default`.
pub open spec fn bool_field(v: Option<JsonV>, key: Seq<char>, default: bool) -> bool {
    match v {
        Some(j) => match j.get_spec(key) {
            Some(JsonV::Bool(b)) => b,
            _ => default,
        },
        None => default,
    }
}

pub open spec fn content_view(c: &Option<Json>) -> Option<JsonV> {
    match c {
        Some(j) => Some(j@),
        None => None,
    }
}

fn field_text(c: &Option<Json>, key: &str, default: &str) -> (r: String)
    ensures
        r@ == str_field(content_view(c), key@, default@),
{
    match c {
        Some(j) => match j.get(key) {
            Some(x) => match x.as_str() {
                Some(s) => s.clone(),
                None => owned(default),
            },
            None => owned(default),
        },
        None => owned(default),
    }
}

fn field_bool(c: &Option<Json>, key: &str, default: bool) -> (r: bool)
    ensures
        r == bool_field(content_view(c), key@, default),
{
    match c {
        Some(j) => match j.get(key) {
            Some(Json::Bool(b)) => *b,
            _ => default,
        },
        None => default,
    }
}

fn opt_or_empty(s: Option<String>) -> (r: String)
    ensures
        r@ == match s {
            Some(t) => t@,
            None => Seq::<char>::empty(),
        },
{
    match s {
        Some(t) => t,
        None => String::new(),
    }
}

pub open spec fn or_empty(s: Option<String>) -> Seq<char> {
    match s {
        Some(t) => t@,
        None => Seq::<char>::empty(),
    }
}

// ---------------------------------------------------------------------------
// Purchase order
// ---------------------------------------------------------------------------

pub open spec fn purchase_order_properties(
    vendor: Seq<char>,
    item: Seq<char>,
    quantity: JsonV,
) -> JsonV {
    JsonV::Object(
        seq![
            ("currency"@, prop_spec(
                Some(JsonV::Str("USD"@)),
                "Document currency"@,
                Some(seq!["USD"@, "EUR"@, "GBP"@, "JPY"@, "SGD"@]),
                "string"@,
            )),
            ("delivery_date"@, prop_spec(
                None,
                "Requested delivery date (YYYY-MM-DD)"@,
                None,
                "string"@,
            )),
            ("item"@, prop_spec(
                Some(JsonV::Str(item)),
                "Released product item number"@,
                None,
                "string"@,
            )),
            ("legal_entity"@, prop_spec(
                Some(JsonV::Str("USMF"@)),
                "Legal entity (DataAreaId)"@,
                Some(seq!["USMF"@, "GBSI"@, "DEMF"@]),
                "string"@,
            )),
            ("quantity"@, prop_spec(Some(quantity), "Order quantity"@, None, "number"@)),
            ("vendor"@, prop_spec(
                Some(JsonV::Str(vendor)),
                "Vendor account, e.g. 'V-001'"@,
                None,
                "string"@,
            )),
        ],
    )
}

/// The purchase-order form, pre-filled with the hints (empty text and a quantity
/// of `0.0` when absent).
pub fn purchase_order_form(vendor: Option<String>, item: Option<String>, quantity: Option<Json>) -> (f:
    FormRequest)
    ensures
        f.message@
            == "Confirm purchase-order details before posting. Legal entity + delivery date are mandatory."@,
        f.properties@ == purchase_order_properties(
            or_empty(vendor),
            or_empty(item),
            match opt_json(quantity) {
                Some(q) => q,
                None => JsonV::Number("0.0"@),
            },
        ),
        f.required@.map_values(|s: String| s@) == seq![
            "vendor"@,
            "item"@,
            "quantity"@,
            "legal_entity"@,
            "delivery_date"@,
        ],
{
    let ghost qv = match opt_json(quantity) {
        Some(q) => q,
        None => JsonV::Number("0.0"@),
    };
    let vendor = opt_or_empty(vendor);
    let item = opt_or_empty(item);
    let quantity = match quantity {
        Some(q) => q,
        None => Json::Number(owned("0.0")),
    };
    let currencies: [&str; 5] = ["USD", "EUR", "GBP", "JPY", "SGD"];
    let entities: [&str; 3] = ["USMF", "GBSI", "DEMF"];
    let mut m: Vec<(String, Json)> = Vec::new();
    m.push(
        (
            owned("currency"),
            prop(Some(Json::Str(owned("USD"))), "Document currency", Some(&currencies), "string"),
        ),
    );
    m.push(
        (
            owned("delivery_date"),
            prop(None, "Requested delivery date (YYYY-MM-DD)", None, "string"),
        ),
    );
    m.push(
        (
            owned("item"),
            prop(Some(Json::Str(item)), "Released product item number", None, "string"),
        ),
    );
    m.push(
        (
            owned("legal_entity"),
            prop(
                Some(Json::Str(owned("USMF"))),
                "Legal entity (DataAreaId)",
                Some(&entities),
                "string",
            ),
        ),
    );
    m.push((owned("quantity"), prop(Some(quantity), "Order quantity", None, "number")));
    m.push(
        (
            owned("vendor"),
            prop(Some(Json::Str(vendor)), "Vendor account, e.g. 'V-001'", None, "string"),
        ),
    );
    let required: [&str; 5] = ["vendor", "item", "quantity", "legal_entity", "delivery_date"];
    proof {
        assert(currencies@.map_values(|s: &str| s@) =~= seq![
            "USD"@,
            "EUR"@,
            "GBP"@,
            "JPY"@,
            "SGD"@,
        ]);
        assert(entities@.map_values(|s: &str| s@) =~= seq!["USMF"@, "GBSI"@, "DEMF"@]);
        assert(required@.map_values(|s: &str| s@) =~= seq![
            "vendor"@,
            "item"@,
            "quantity"@,
            "legal_entity"@,
            "delivery_date"@,
        ]);
        lemma_members_view(m@);
        assert(members_view(m@) =~= seq![
            ("currency"@, prop_spec(
                Some(JsonV::Str("USD"@)),
                "Document currency"@,
                Some(seq!["USD"@, "EUR"@, "GBP"@, "JPY"@, "SGD"@]),
                "string"@,
            )),
            ("delivery_date"@, prop_spec(
                None,
                "Requested delivery date (YYYY-MM-DD)"@,
                None,
                "string"@,
            )),
            ("item"@, prop_spec(
                Some(JsonV::Str(item@)),
                "Released product item number"@,
                None,
                "string"@,
            )),
            ("legal_entity"@, prop_spec(
                Some(JsonV::Str("USMF"@)),
                "Legal entity (DataAreaId)"@,
                Some(seq!["USMF"@, "GBSI"@, "DEMF"@]),
                "string"@,
            )),
            ("quantity"@, prop_spec(Some(qv), "Order quantity"@, None, "number"@)),
            ("vendor"@, prop_spec(
                Some(JsonV::Str(vendor@)),
                "Vendor account, e.g. 'V-001'"@,
                None,
                "string"@,
            )),
        ]);
    }
    FormRequest {
        message: owned(
            "Confirm purchase-order details before posting. Legal entity + delivery date are mandatory.",
        ),
        properties: Json::Object(m),
        required: names(&required),
    }
}

/// How the purchase-order workflow ends for the user's answer; `rendered` is the
/// printed form of the confirmed details.
pub open spec fn purchase_order_reply_matches(
    action: ElicitAction,
    rendered: Seq<char>,
    r: WorkflowReply,
) -> bool {
    match action {
        ElicitAction::Accept => !r.is_error && audit_success(r.audit, "purchase order confirmed (mock)"@) && r.text@
            == "Purchase order confirmed (mock; no real $batch submitted):\n\n"@ + rendered
            + "\n\nNext step (when --enable-writes): d365.service.call PurchaseOrderCreate with commit=true."@,
        ElicitAction::Decline => !r.is_error && audit_declined(r.audit, "user declined elicitation"@) && r.text@
            == "Purchase order cancelled by user (declined elicitation)."@,
        ElicitAction::Cancel => r.is_error && audit_denied(r.audit, "user aborted or elicitation unavailable"@) && r.text@
            == "Purchase order cancelled (user aborted or elicitation unavailable). No action taken."@,
    }
}

/// The end of the purchase-order workflow.
pub fn purchase_order_reply(action: ElicitAction, rendered: &str) -> (r: WorkflowReply)
    ensures
        purchase_order_reply_matches(action, rendered@, r),
{
    match action {
        ElicitAction::Accept => {
            let mut text = owned("Purchase order confirmed (mock; no real $batch submitted):\n\n");
            text.append(rendered);
            text.append(
                "\n\nNext step (when --enable-writes): d365.service.call PurchaseOrderCreate with commit=true.",
            );
            WorkflowReply {
                audit: AuditOutcome::Success(owned("purchase order confirmed (mock)")),
                text,
                is_error: false,
            }
        },
        ElicitAction::Decline => WorkflowReply {
            audit: AuditOutcome::Declined(owned("user declined elicitation")),
            text: owned("Purchase order cancelled by user (declined elicitation)."),
            is_error: false,
        },
        ElicitAction::Cancel => WorkflowReply {
            audit: AuditOutcome::Denied(owned("user aborted or elicitation unavailable")),
            text: owned(
                "Purchase order cancelled (user aborted or elicitation unavailable). No action taken.",
            ),
            is_error: true,
        },
    }
}

// ---------------------------------------------------------------------------
// Customer maintenance
// ---------------------------------------------------------------------------

pub open spec fn customer_pick_properties(customer: Seq<char>) -> JsonV {
    JsonV::Object(
        seq![
            ("customer"@, prop_spec(
                Some(JsonV::Str(customer)),
                "Customer account (omit to create)"@,
                None,
                "string"@,
            )),
            ("legal_entity"@, prop_spec(
                Some(JsonV::Str("USMF"@)),
                "Legal entity (DataAreaId)"@,
                Some(seq!["USMF"@, "GBSI"@, "DEMF"@]),
                "string"@,
            )),
            ("scope"@, prop_spec(
                Some(JsonV::Str("general"@)),
                "Which view to maintain"@,
                Some(seq!["general"@, "credit_collections"@, "sales_demographics"@]),
                "string"@,
            )),
        ],
    )
}

/// The first form of customer maintenance: which customer, which data view, which
/// legal entity.
pub fn customer_pick_form(customer: Option<String>) -> (f: FormRequest)
    ensures
        f.message@ == "Select customer and which data view to maintain."@,
        f.properties@ == customer_pick_properties(or_empty(customer)),
        f.required@.map_values(|s: String| s@) == seq!["scope"@, "legal_entity"@],
{
    let customer = opt_or_empty(customer);
    let entities: [&str; 3] = ["USMF", "GBSI", "DEMF"];
    let scopes: [&str; 3] = ["general", "credit_collections", "sales_demographics"];
    let mut m: Vec<(String, Json)> = Vec::new();
    m.push(
        (
            owned("customer"),
            prop(Some(Json::Str(customer)), "Customer account (omit to create)", None, "string"),
        ),
    );
    m.push(
        (
            owned("legal_entity"),
            prop(
                Some(Json::Str(owned("USMF"))),
                "Legal entity (DataAreaId)",
                Some(&entities),
                "string",
            ),
        ),
    );
    m.push(
        (
            owned("scope"),
            prop(
                Some(Json::Str(owned("general"))),
                "Which view to maintain",
                Some(&scopes),
                "string",
            ),
        ),
    );
    let required: [&str; 2] = ["scope", "legal_entity"];
    proof {
        assert(entities@.map_values(|s: &str| s@) =~= seq!["USMF"@, "GBSI"@, "DEMF"@]);
        assert(scopes@.map_values(|s: &str| s@) =~= seq![
            "general"@,
            "credit_collections"@,
            "sales_demographics"@,
        ]);
        assert(required@.map_values(|s: &str| s@) =~= seq!["scope"@, "legal_entity"@]);
        lemma_members_view(m@);
        assert(members_view(m@) =~= seq![
            ("customer"@, prop_spec(
                Some(JsonV::Str(customer@)),
                "Customer account (omit to create)"@,
                None,
                "string"@,
            )),
            ("legal_entity"@, prop_spec(
                Some(JsonV::Str("USMF"@)),
                "Legal entity (DataAreaId)"@,
                Some(seq!["USMF"@, "GBSI"@, "DEMF"@]),
                "string"@,
            )),
            ("scope"@, prop_spec(
                Some(JsonV::Str("general"@)),
                "Which view to maintain"@,
                Some(seq!["general"@, "credit_collections"@, "sales_demographics"@]),
                "string"@,
            )),
        ]);
    }
    FormRequest {
        message: owned("Select customer and which data view to maintain."),
        properties: Json::Object(m),
        required: names(&required),
    }
}

/// The fields of a customer data view; no fields for an unknown view.
pub open spec fn scope_fields(scope: Seq<char>) -> JsonV {
    if scope == "general"@ {
        JsonV::Object(
            seq![
                ("country"@, prop_spec(
                    None,
                    "Country/region (ISO-2)"@,
                    Some(seq!["US"@, "GB"@, "DE"@, "JP"@, "SG"@]),
                    "string"@,
                )),
                ("customer_group"@, prop_spec(None, "Customer group"@, None, "string"@)),
                ("organization_name"@, prop_spec(
                    None,
                    "Customer organization name"@,
                    None,
                    "string"@,
                )),
            ],
        )
    } else if scope == "credit_collections"@ {
        JsonV::Object(
            seq![
                ("credit_limit"@, prop_spec(None, "Credit limit"@, None, "number"@)),
                ("on_hold"@, prop_spec(
                    None,
                    "Hold status"@,
                    Some(seq!["No"@, "Invoice"@, "All"@, "Payment"@]),
                    "string"@,
                )),
                ("payment_terms"@, prop_spec(None, "Terms of payment"@, None, "string"@)),
            ],
        )
    } else if scope == "sales_demographics"@ {
        JsonV::Object(
            seq![
                ("mode_of_delivery"@, prop_spec(None, "Mode of delivery"@, None, "string"@)),
                ("sales_currency"@, prop_spec(None, "Sales currency"@, None, "string"@)),
                ("site"@, prop_spec(None, "Default site"@, None, "string"@)),
            ],
        )
    } else {
        JsonV::Object(seq![])
    }
}

fn fields_of_scope(scope: &str) -> (r: Json)
    ensures
        r@ == scope_fields(scope@),
{
    let mut m: Vec<(String, Json)> = Vec::new();
    if crate::json::str_eq(scope, "general") {
        let countries: [&str; 5] = ["US", "GB", "DE", "JP", "SG"];
        m.push(
            (owned("country"), prop(None, "Country/region (ISO-2)", Some(&countries), "string")),
        );
        m.push((owned("customer_group"), prop(None, "Customer group", None, "string")));
        m.push(
            (owned("organization_name"), prop(None, "Customer organization name", None, "string")),
        );
        proof {
            assert(countries@.map_values(|s: &str| s@) =~= seq![
                "US"@,
                "GB"@,
                "DE"@,
                "JP"@,
                "SG"@,
            ]);
            lemma_members_view(m@);
            assert(members_view(m@) =~= seq![
                ("country"@, prop_spec(
                    None,
                    "Country/region (ISO-2)"@,
                    Some(seq!["US"@, "GB"@, "DE"@, "JP"@, "SG"@]),
                    "string"@,
                )),
                ("customer_group"@, prop_spec(None, "Customer group"@, None, "string"@)),
                ("organization_name"@, prop_spec(
                    None,
                    "Customer organization name"@,
                    None,
                    "string"@,
                )),
            ]);
        }
    } else if crate::json::str_eq(scope, "credit_collections") {
        let holds: [&str; 4] = ["No", "Invoice", "All", "Payment"];
        m.push((owned("credit_limit"), prop(None, "Credit limit", None, "number")));
        m.push((owned("on_hold"), prop(None, "Hold status", Some(&holds), "string")));
        m.push((owned("payment_terms"), prop(None, "Terms of payment", None, "string")));
        proof {
            assert(holds@.map_values(|s: &str| s@) =~= seq![
                "No"@,
                "Invoice"@,
                "All"@,
                "Payment"@,
            ]);
            lemma_members_view(m@);
            assert(members_view(m@) =~= seq![
                ("credit_limit"@, prop_spec(None, "Credit limit"@, None, "number"@)),
                ("on_hold"@, prop_spec(
                    None,
                    "Hold status"@,
                    Some(seq!["No"@, "Invoice"@, "All"@, "Payment"@]),
                    "string"@,
                )),
                ("payment_terms"@, prop_spec(None, "Terms of payment"@, None, "string"@)),
            ]);
        }
    } else if crate::json::str_eq(scope, "sales_demographics") {
        m.push((owned("mode_of_delivery"), prop(None, "Mode of delivery", None, "string")));
        m.push((owned("sales_currency"), prop(None, "Sales currency", None, "string")));
        m.push((owned("site"), prop(None, "Default site", None, "string")));
        proof {
            lemma_members_view(m@);
            assert(members_view(m@) =~= seq![
                ("mode_of_delivery"@, prop_spec(None, "Mode of delivery"@, None, "string"@)),
                ("sales_currency"@, prop_spec(None, "Sales currency"@, None, "string"@)),
                ("site"@, prop_spec(None, "Default site"@, None, "string"@)),
            ]);
        }
    } else {
        proof {
            assert(members_view(m@) =~= Seq::<(Seq<char>, JsonV)>::empty());
        }
    }
    Json::Object(m)
}

/// The customer and data view chosen in the first form, and the second form.
pub struct CustomerChoice {
    pub customer: String,
    pub scope: String,
    pub form: FormRequest,
}

/// What follows the first form: anything but acceptance ends the workflow;
/// acceptance asks for the fields of the chosen view (`general` when none was
/// chosen) of the chosen customer (none named: empty).
pub fn customer_after_pick(action: ElicitAction, content: &Option<Json>) -> (r: Result<
    CustomerChoice,
    WorkflowReply,
>)
    ensures
        action != ElicitAction::Accept ==> (r matches Err(w) && w.is_error && audit_declined(w.audit, "cancelled at scope selection"@) && w.text@
            == "Customer maintenance cancelled at scope selection."@),
        action == ElicitAction::Accept ==> (r matches Ok(c) && c.customer@ == str_field(
            content_view(content),
            "customer"@,
            Seq::<char>::empty(),
        ) && c.scope@ == str_field(content_view(content), "scope"@, "general"@)
            && c.form.message@ == "Enter new values for customer "@ + c.customer@ + " ("@
            + c.scope@ + " view). Leave fields blank to keep current values."@
            && c.form.properties@ == scope_fields(c.scope@) && c.form.required@.len() == 0),
{
    if action != ElicitAction::Accept {
        return Err(
            WorkflowReply {
                audit: AuditOutcome::Declined(owned("cancelled at scope selection")),
                text: owned("Customer maintenance cancelled at scope selection."),
                is_error: true,
            },
        );
    }
    let customer = field_text(content, "customer", "");
    proof {
        reveal_strlit("");
        assert(""@ =~= Seq::<char>::empty());
    }
    let scope = field_text(content, "scope", "general");
    let mut message = owned("Enter new values for customer ");
    message.append(customer.as_str());
    message.append(" (");
    message.append(scope.as_str());
    message.append(" view). Leave fields blank to keep current values.");
    let properties = fields_of_scope(scope.as_str());
    Ok(
        CustomerChoice {
            customer,
            scope,
            form: FormRequest { message, properties, required: Vec::new() },
        },
    )
}

/// How customer maintenance ends for the answer to the second form; `rendered` is
/// the printed form of the entered changes.
pub open spec fn customer_reply_matches(
    customer: Seq<char>,
    scope: Seq<char>,
    action: ElicitAction,
    rendered: Seq<char>,
    r: WorkflowReply,
) -> bool {
    match action {
        ElicitAction::Accept => !r.is_error && audit_success(r.audit, "customer "@ + customer + " change confirmed (mock)"@) && r.text@
            == "Customer change confirmed (mock):\n  customer: "@ + customer + "\n  scope:    "@
            + scope + "\n  changes:\n"@ + rendered
            + "\n\nNext step (when --enable-writes): d365.service.call CustomerMaintain with commit=true."@,
        ElicitAction::Decline => !r.is_error && audit_declined(r.audit, "user declined field entry"@) && r.text@
            == "Customer change declined; no action taken."@,
        ElicitAction::Cancel => r.is_error && audit_denied(r.audit, "cancelled"@) && r.text@ == "Customer maintenance cancelled."@,
    }
}

/// The end of customer maintenance.
pub fn customer_reply(customer: &str, scope: &str, action: ElicitAction, rendered: &str) -> (r:
    WorkflowReply)
    ensures
        customer_reply_matches(customer@, scope@, action, rendered@, r),
{
    match action {
        ElicitAction::Accept => {
            let mut m = owned("customer ");
            m.append(customer);
            m.append(" change confirmed (mock)");
            let mut text = owned("Customer change confirmed (mock):\n  customer: ");
            text.append(customer);
            text.append("\n  scope:    ");
            text.append(scope);
            text.append("\n  changes:\n");
            text.append(rendered);
            text.append(
                "\n\nNext step (when --enable-writes): d365.service.call CustomerMaintain with commit=true.",
            );
            WorkflowReply { audit: AuditOutcome::Success(m), text, is_error: false }
        },
        ElicitAction::Decline => WorkflowReply {
            audit: AuditOutcome::Declined(owned("user declined field entry")),
            text: owned("Customer change declined; no action taken."),
            is_error: false,
        },
        ElicitAction::Cancel => WorkflowReply {
            audit: AuditOutcome::Denied(owned("cancelled")),
            text: owned("Customer maintenance cancelled."),
            is_error: true,
        },
    }
}

// ---------------------------------------------------------------------------
// Package deployment
// ---------------------------------------------------------------------------

pub open spec fn deploy_properties(package: Seq<char>) -> JsonV {
    JsonV::Object(
        seq![
            ("confirmation_phrase"@, prop_spec(
                None,
                "Type the package name again to confirm"@,
                None,
                "string"@,
            )),
            ("package"@, prop_spec(
                Some(JsonV::Str(package)),
                "Deployable package name, e.g. 'GTFin-2026.04'"@,
                None,
                "string"@,
            )),
            ("run_db_sync"@, prop_spec(
                Some(JsonV::Bool(true)),
                "Run database synchronize?"@,
                None,
                "boolean"@,
            )),
            ("skip_solution_checker"@, prop_spec(
                Some(JsonV::Bool(false)),
                "Skip Solution Checker (dangerous)"@,
                None,
                "boolean"@,
            )),
            ("target_environment"@, prop_spec(
                Some(JsonV::Str("UAT"@)),
                "Target environment"@,
                Some(seq!["DEV"@, "UAT"@, "PRODUCTION"@]),
                "string"@,
            )),
        ],
    )
}

/// The deployment form, pre-filled with the package hint.
pub fn deploy_form(package: Option<String>) -> (f: FormRequest)
    ensures
        f.message@
            == "Package deployment is irreversible in production. Confirm details and re-enter the package name to proceed."@,
        f.properties@ == deploy_properties(or_empty(package)),
        f.required@.map_values(|s: String| s@) == seq![
            "package"@,
            "target_environment"@,
            "confirmation_phrase"@,
        ],
{
    let package = opt_or_empty(package);
    let targets: [&str; 3] = ["DEV", "UAT", "PRODUCTION"];
    let mut m: Vec<(String, Json)> = Vec::new();
    m.push(
        (
            owned("confirmation_phrase"),
            prop(None, "Type the package name again to confirm", None, "string"),
        ),
    );
    m.push(
        (
            owned("package"),
            prop(
                Some(Json::Str(package)),
                "Deployable package name, e.g. 'GTFin-2026.04'",
                None,
                "string",
            ),
        ),
    );
    m.push(
        (
            owned("run_db_sync"),
            prop(Some(Json::Bool(true)), "Run database synchronize?", None, "boolean"),
        ),
    );
    m.push(
        (
            owned("skip_solution_checker"),
            prop(Some(Json::Bool(false)), "Skip Solution Checker (dangerous)", None, "boolean"),
        ),
    );
    m.push(
        (
            owned("target_environment"),
            prop(Some(Json::Str(owned("UAT"))), "Target environment", Some(&targets), "string"),
        ),
    );
    let required: [&str; 3] = ["package", "target_environment", "confirmation_phrase"];
    proof {
        assert(targets@.map_values(|s: &str| s@) =~= seq!["DEV"@, "UAT"@, "PRODUCTION"@]);
        assert(required@.map_values(|s: &str| s@) =~= seq![
            "package"@,
            "target_environment"@,
            "confirmation_phrase"@,
        ]);
        lemma_members_view(m@);
        assert(members_view(m@) =~= seq![
            ("confirmation_phrase"@, prop_spec(
                None,
                "Type the package name again to confirm"@,
                None,
                "string"@,
            )),
            ("package"@, prop_spec(
                Some(JsonV::Str(package@)),
                "Deployable package name, e.g. 'GTFin-2026.04'"@,
                None,
                "string"@,
            )),
            ("run_db_sync"@, prop_spec(
                Some(JsonV::Bool(true)),
                "Run database synchronize?"@,
                None,
                "boolean"@,
            )),
            ("skip_solution_checker"@, prop_spec(
                Some(JsonV::Bool(false)),
                "Skip Solution Checker (dangerous)"@,
                None,
                "boolean"@,
            )),
            ("target_environment"@, prop_spec(
                Some(JsonV::Str("UAT"@)),
                "Target environment"@,
                Some(seq!["DEV"@, "UAT"@, "PRODUCTION"@]),
                "string"@,
            )),
        ]);
    }
    FormRequest {
        message: owned(
            "Package deployment is irreversible in production. Confirm details and re-enter the package name to proceed.",
        ),
        properties: Json::Object(m),
        required: names(&required),
    }
}

pub open spec fn bool_text(b: bool) -> Seq<char> {
    if b {
        "true"@
    } else {
        "false"@
    }
}

/// How the deployment workflow ends for the user's answer and the form's content:
/// an accepted form whose confirmation phrase differs from the package is refused;
/// otherwise the plan is confirmed with the chosen (or default) settings.
pub open spec fn deploy_reply_matches(action: ElicitAction, content: Option<JsonV>, r: WorkflowReply) -> bool {
    let pkg = str_field(content, "package"@, Seq::<char>::empty());
    let phrase = str_field(content, "confirmation_phrase"@, Seq::<char>::empty());
    let target = str_field(content, "target_environment"@, "UAT"@);
    match action {
        ElicitAction::Accept => if pkg != phrase {
            r.is_error && audit_denied(r.audit, "confirmation phrase mismatch"@) && r.text@ == "Confirmation phrase '"@ + phrase
                + "' does not match package '"@ + pkg + "'. Deployment aborted."@
        } else {
            !r.is_error && audit_success(r.audit, "package "@ + pkg
                + " deploy confirmed \u{2192} "@ + target + " (mock)"@) && r.text@
                == "Deployment plan confirmed (mock):\n  package:               "@ + pkg
                + "\n  target_environment:    "@ + target + "\n  run_db_sync:           "@
                + bool_text(bool_field(content, "run_db_sync"@, true))
                + "\n  skip_solution_checker: "@ + bool_text(
                bool_field(content, "skip_solution_checker"@, false),
            ) + "\n\nNext step (when --enable-writes): apply the deployable package via LCS."@
        },
        ElicitAction::Decline => !r.is_error && audit_declined(r.audit, "user declined deployment"@) && r.text@
            == "Package deployment declined; no action taken."@,
        ElicitAction::Cancel => r.is_error && audit_denied(r.audit, "elicitation unavailable"@) && r.text@
            == "Package deployment cancelled (client lacks elicitation capability \u{2014} refusing to proceed without confirmation)."@,
    }
}

fn bool_str(b: bool) -> (r: &'static str)
    ensures
        r@ == bool_text(b),
{
    if b {
        "true"
    } else {
        "false"
    }
}

/// The end of the deployment workflow.
pub fn deploy_reply(action: ElicitAction, content: &Option<Json>) -> (r: WorkflowReply)
    ensures
        deploy_reply_matches(action, content_view(content), r),
{
    match action {
        ElicitAction::Accept => {
            let pkg = field_text(content, "package", "");
            let phrase = field_text(content, "confirmation_phrase", "");
            let target = field_text(content, "target_environment", "UAT");
            proof {
                reveal_strlit("");
                assert(""@ =~= Seq::<char>::empty());
            }
            if !crate::json::str_eq(pkg.as_str(), phrase.as_str()) {
                let mut text = owned("Confirmation phrase '");
                text.append(phrase.as_str());
                text.append("' does not match package '");
                text.append(pkg.as_str());
                text.append("'. Deployment aborted.");
                return WorkflowReply {
                    audit: AuditOutcome::Denied(owned("confirmation phrase mismatch")),
                    text,
                    is_error: true,
                };
            }
            let mut m = owned("package ");
            m.append(pkg.as_str());
            m.append(" deploy confirmed \u{2192} ");
            m.append(target.as_str());
            m.append(" (mock)");
            let mut text = owned("Deployment plan confirmed (mock):\n  package:               ");
            text.append(pkg.as_str());
            text.append("\n  target_environment:    ");
            text.append(target.as_str());
            text.append("\n  run_db_sync:           ");
            text.append(bool_str(field_bool(content, "run_db_sync", true)));
            text.append("\n  skip_solution_checker: ");
            text.append(bool_str(field_bool(content, "skip_solution_checker", false)));
            text.append("\n\nNext step (when --enable-writes): apply the deployable package via LCS.");
            WorkflowReply { audit: AuditOutcome::Success(m), text, is_error: false }
        },
        ElicitAction::Decline => WorkflowReply {
            audit: AuditOutcome::Declined(owned("user declined deployment")),
            text: owned("Package deployment declined; no action taken."),
            is_error: false,
        },
        ElicitAction::Cancel => WorkflowReply {
            audit: AuditOutcome::Denied(owned("elicitation unavailable")),
            text: owned(
                "Package deployment cancelled (client lacks elicitation capability \u{2014} refusing to proceed without confirmation).",
            ),
            is_error: true,
        },
    }
}

/// No workflow reports success unless the user accepted its form; a deployment is
/// confirmed only when the confirmation phrase repeats the package name.
pub proof fn law_only_acceptance_confirms(
    action: ElicitAction,
    rendered: Seq<char>,
    customer: Seq<char>,
    scope: Seq<char>,
    content: Option<JsonV>,
    r: WorkflowReply,
)
    ensures
        purchase_order_reply_matches(action, rendered, r) && r.audit is Success ==> action
            == ElicitAction::Accept,
        customer_reply_matches(customer, scope, action, rendered, r) && r.audit is Success ==> action
            == ElicitAction::Accept,
        deploy_reply_matches(action, content, r) && r.audit is Success ==> action
            == ElicitAction::Accept && str_field(content, "package"@, Seq::<char>::empty())
            == str_field(content, "confirmation_phrase"@, Seq::<char>::empty()),
{
}

} // verus!
