//! The decisions of the server's tools that do not depend on the transport: the
//! defaults of tool arguments, the requests the convenience tools send, how an
//! error is reported, what the audit log records of a write, and how long texts
//! are shortened.

use vstd::prelude::*;
use crate::json::{Json, JsonV, owned, items_view, lemma_items_view, members_view, lemma_members_view, json_view};
use crate::text::{decimal, decimal_text};
use crate::odata::infolog::{
    InfologMessage, InfologMessageView, InfologSeverity, infolog_spec, messages_view, parse_infolog,
};
use crate::odata::transaction::{any_failure, has_failure};
use crate::text::{chars_of, string_of};
use crate::odata::client::{ReadEntityRequest, MAX_ROWS_HARD_CAP};
use crate::odata::error::{
    D365Error, D365Result, d365_code_name, d365_error_message, d365_error_code, d365_code_value,
};
use crate::odata::transaction::WriteOutcome;
use crate::meta::error::{MetaError, meta_code_name, meta_error_message, meta_error_code};

verus! {

// ---------------------------------------------------------------------------
// Argument defaults
// ---------------------------------------------------------------------------

/// Depth of a knowledge-base navigation that names none.
pub fn default_navigate_depth() -> (r: u32)
    ensures
        r == 1,
{
    1
}

/// Hits of a knowledge-base search that names no count.
pub fn default_top_k() -> (r: usize)
    ensures
        r == 5,
{
    5
}

/// Results of a service or customer search that names no limit.
pub fn default_limit_20() -> (r: usize)
    ensures
        r == 20,
{
    20
}

/// Language of a metadata request that names none.
pub fn default_lang() -> (r: String)
    ensures
        r@ == "en-us"@,
{
    owned("en-us")
}

/// Rows of a metadata-path entity read that names no count.
pub fn default_max_rows_100() -> (r: usize)
    ensures
        r == 100,
{
    100
}

/// Hops of a graph traversal that names none.
pub fn default_max_hops() -> (r: u32)
    ensures
        r == 4,
{
    4
}

/// Results of a graph traversal that names no count.
pub fn default_top_k_graph() -> (r: usize)
    ensures
        r == 8,
{
    8
}

/// Seeds of a multi-hop traversal that names no count.
pub fn default_max_seeds() -> (r: usize)
    ensures
        r == 3,
{
    3
}

/// Communities of a global query that names no count.
pub fn default_top_k_3() -> (r: usize)
    ensures
        r == 3,
{
    3
}

/// Level of a hierarchical summary that names none.
pub fn default_level_2() -> (r: u32)
    ensures
        r == 2,
{
    2
}

/// Entries of a hierarchical summary that names no count.
pub fn default_top_k_10() -> (r: usize)
    ensures
        r == 10,
{
    10
}

// ---------------------------------------------------------------------------
// Text
// ---------------------------------------------------------------------------

/// `s` when it has at most `n` characters, else its first `n` followed by an ellipsis.
pub open spec fn truncated_chars(s: Seq<char>, n: usize) -> Seq<char> {
    if s.len() <= n {
        s
    } else {
        s.take(n as int).push('\u{2026}')
    }
}

/// Shorten `s` to `n` characters, marking the cut with an ellipsis.
pub fn truncate(s: &str, n: usize) -> (r: String)
    ensures
        r@ == truncated_chars(s@, n),
{
    let v = chars_of(s);
    if v.len() <= n {
        return owned(s);
    }
    let mut out: Vec<char> = Vec::new();
    let mut i: usize = 0;
    while i < n
        invariant
            i <= n,
            n < v@.len(),
            out@ == v@.take(i as int),
        decreases n - i,
    {
        out.push(v[i]);
        proof {
            assert(v@.take(i as int + 1) =~= v@.take(i as int).push(v@[i as int]));
        }
        i = i + 1;
    }
    out.push('\u{2026}');
    string_of(out.as_slice())
}

/// `<tool> [<code>]: <message>`, the error text of a failed OData tool call.
pub open spec fn d365_tool_error_spec(tool: Seq<char>, e: D365Error) -> Seq<char> {
    tool + " ["@ + d365_code_name(d365_error_code(e)) + "]: "@ + d365_error_message(e)
}

/// The error text of a failed OData tool call.
pub fn d365_tool_error(tool: &str, e: &D365Error) -> (r: String)
    ensures
        r@ == d365_tool_error_spec(tool@, *e),
{
    let mut r = owned(tool);
    r.append(" [");
    r.append(e.code().name());
    r.append("]: ");
    r.append(e.message().as_str());
    r
}

/// `<tool> [<code>]: <message>`, the error text of a failed Metadata tool call.
pub open spec fn meta_tool_error_spec(tool: Seq<char>, e: MetaError) -> Seq<char> {
    tool + " ["@ + meta_code_name(meta_error_code(e)) + "]: "@ + meta_error_message(e)
}

/// The error text of a failed Metadata tool call.
pub fn meta_tool_error(tool: &str, e: &MetaError) -> (r: String)
    ensures
        r@ == meta_tool_error_spec(tool@, *e),
{
    let mut r = owned(tool);
    r.append(" [");
    r.append(e.code().name());
    r.append("]: ");
    r.append(e.message().as_str());
    r
}

// ---------------------------------------------------------------------------
// Convenience reads over CustomersV3
// ---------------------------------------------------------------------------

/// The read behind a customer search: customers whose organization name contains
/// the query, at most `limit` of them within the row cap.
pub fn customer_search_request(query: &str, limit: usize) -> (r: ReadEntityRequest)
    ensures
        r.entity@ == "CustomersV3"@,
        r.fields@.len() == 0,
        r.filters@.len() == 1,
        r.filters@[0]@ == "OrganizationName like '%"@ + query@ + "%'"@,
        r.max_rows == if limit < MAX_ROWS_HARD_CAP {
            limit
        } else {
            MAX_ROWS_HARD_CAP
        },
{
    let mut f = owned("OrganizationName like '%");
    f.append(query);
    f.append("%'");
    let mut filters: Vec<String> = Vec::new();
    filters.push(f);
    ReadEntityRequest {
        entity: owned("CustomersV3"),
        fields: Vec::new(),
        filters,
        max_rows: if limit < MAX_ROWS_HARD_CAP {
            limit
        } else {
            MAX_ROWS_HARD_CAP
        },
    }
}

/// The read behind a customer lookup: the one customer with the account number.
pub fn customer_get_request(customer_account: &str) -> (r: ReadEntityRequest)
    ensures
        r.entity@ == "CustomersV3"@,
        r.fields@.len() == 0,
        r.filters@.len() == 1,
        r.filters@[0]@ == "CustomerAccount eq '"@ + customer_account@ + "'"@,
        r.max_rows == 1,
{
    let mut f = owned("CustomerAccount eq '");
    f.append(customer_account);
    f.append("'");
    let mut filters: Vec<String> = Vec::new();
    filters.push(f);
    ReadEntityRequest { entity: owned("CustomersV3"), fields: Vec::new(), filters, max_rows: 1 }
}

/// The answer to a customer lookup that found nothing.
pub fn customer_not_found(customer_account: &str) -> (r: String)
    ensures
        r@ == "d365.customer.get: customer '"@ + customer_account@ + "' not found"@,
{
    let mut r = owned("d365.customer.get: customer '");
    r.append(customer_account);
    r.append("' not found");
    r
}

// ---------------------------------------------------------------------------
// Audit of writes
// ---------------------------------------------------------------------------

/// What the audit log records of a state-changing call.
#[derive(Debug)]
pub enum AuditOutcome {
    /// The write went through (or, for a guided workflow, was confirmed).
    Success(String),
    /// The write was attempted and failed with an error code.
    Failed { code: i32, message: String },
    /// The write was refused by a gate.
    Denied(String),
    /// The user declined.
    Declined(String),
}

/// What the audit log records of a transactional service call: a commit, a write
/// that did not commit, a read-only refusal, or the error it failed with.
pub open spec fn write_audit_matches(r: D365Result<WriteOutcome>, a: AuditOutcome) -> bool {
    match r {
        Ok(o) => if o.committed {
            a matches AuditOutcome::Success(m) && m@ == o.operation@ + " committed"@
        } else {
            a matches AuditOutcome::Failed { code, message } && code == 0 && message@
                == o.operation@ + " not committed (rolled_back="@ + (if o.rolled_back {
                "true"@
            } else {
                "false"@
            }) + ")"@
        },
        Err(e) => match e {
            D365Error::PermissionDenied(reason) => a matches AuditOutcome::Denied(m) && m@
                == reason@,
            _ => a matches AuditOutcome::Failed { code, message } && code == d365_code_value(
                d365_error_code(e),
            ) && message@ == d365_error_message(e),
        },
    }
}

/// The audit record of a transactional service call.
pub fn write_audit(r: &D365Result<WriteOutcome>) -> (a: AuditOutcome)
    ensures
        write_audit_matches(*r, a),
{
    match r {
        Ok(o) => {
            if o.committed {
                let mut m = o.operation.clone();
                m.append(" committed");
                AuditOutcome::Success(m)
            } else {
                let mut m = o.operation.clone();
                m.append(" not committed (rolled_back=");
                m.append(
                    if o.rolled_back {
                        "true"
                    } else {
                        "false"
                    },
                );
                m.append(")");
                AuditOutcome::Failed { code: 0, message: m }
            }
        },
        Err(e) => match e {
            D365Error::PermissionDenied(reason) => AuditOutcome::Denied(reason.clone()),
            _ => AuditOutcome::Failed { code: e.code().as_i32(), message: e.message() },
        },
    }
}

// ---------------------------------------------------------------------------
// Infolog report
// ---------------------------------------------------------------------------

/// A severity as the report writes it: its name, or `{"Unknown": "<c>"}`.
pub open spec fn severity_json(s: InfologSeverity) -> JsonV {
    match s {
        InfologSeverity::Success => JsonV::Str("Success"@),
        InfologSeverity::Error => JsonV::Str("Error"@),
        InfologSeverity::Warning => JsonV::Str("Warning"@),
        InfologSeverity::Info => JsonV::Str("Info"@),
        InfologSeverity::Unknown(c) => JsonV::Object(seq![("Unknown"@, JsonV::Str(seq![c]))]),
    }
}

pub open spec fn opt_str_json(o: Option<Seq<char>>) -> JsonV {
    match o {
        Some(t) => JsonV::Str(t),
        None => JsonV::Null,
    }
}

/// A message as the report writes it, members in key order.
pub open spec fn message_json(m: InfologMessageView) -> JsonV {
    JsonV::Object(
        seq![
            ("code"@, JsonV::Str(m.code)),
            ("environment"@, opt_str_json(m.environment)),
            ("field"@, opt_str_json(m.field)),
            ("severity"@, severity_json(m.severity)),
            ("text"@, JsonV::Str(m.text)),
        ],
    )
}

/// The report of the Infolog parse tool: how many messages the payload holds,
/// whether any reports a failure, and the messages.
pub open spec fn infolog_report_spec(v: JsonV) -> JsonV {
    let ms = infolog_spec(v);
    JsonV::Object(
        seq![
            ("count"@, JsonV::Number(decimal(ms.len()))),
            ("has_failure"@, JsonV::Bool(any_failure(ms))),
            ("messages"@, JsonV::Array(ms.map_values(|m: InfologMessageView| message_json(m)))),
        ],
    )
}

fn opt_str(o: &Option<String>) -> (j: Json)
    ensures
        j@ == opt_str_json(match o {
            Some(t) => Some(t@),
            None => None,
        }),
{
    match o {
        Some(t) => Json::Str(t.clone()),
        None => Json::Null,
    }
}

fn severity_value(s: InfologSeverity) -> (j: Json)
    ensures
        j@ == severity_json(s),
{
    match s {
        InfologSeverity::Success => Json::Str(owned("Success")),
        InfologSeverity::Error => Json::Str(owned("Error")),
        InfologSeverity::Warning => Json::Str(owned("Warning")),
        InfologSeverity::Info => Json::Str(owned("Info")),
        InfologSeverity::Unknown(c) => {
            let mut t = String::new();
            crate::text::push_char(&mut t, c);
            let mut m: Vec<(String, Json)> = Vec::new();
            m.push((owned("Unknown"), Json::Str(t)));
            proof {
                lemma_members_view(m@);
                assert(members_view(m@) =~= seq![("Unknown"@, JsonV::Str(seq![c]))]);
            }
            Json::Object(m)
        },
    }
}

fn message_value(m: &InfologMessage) -> (j: Json)
    ensures
        j@ == message_json(m@),
{
    let mut o: Vec<(String, Json)> = Vec::new();
    o.push((owned("code"), Json::Str(m.code.clone())));
    o.push((owned("environment"), opt_str(&m.environment)));
    o.push((owned("field"), opt_str(&m.field)));
    o.push((owned("severity"), severity_value(m.severity)));
    o.push((owned("text"), Json::Str(m.text.clone())));
    proof {
        lemma_members_view(o@);
        assert(members_view(o@) =~= seq![
            ("code"@, JsonV::Str(m.code@)),
            ("environment"@, opt_str_json(m@.environment)),
            ("field"@, opt_str_json(m@.field)),
            ("severity"@, severity_json(m.severity)),
            ("text"@, JsonV::Str(m.text@)),
        ]);
    }
    Json::Object(o)
}

/// Parse an OData error payload or an Infolog list and report the messages, their
/// number, and whether any reports a failure.
pub fn infolog_report(value: &Json) -> (r: Json)
    ensures
        r@ == infolog_report_spec(value@),
{
    let messages = parse_infolog(value);
    let failed = has_failure(messages.as_slice());
    let ghost mv = messages_view(messages@);
    let mut items: Vec<Json> = Vec::new();
    let mut i: usize = 0;
    while i < messages.len()
        invariant
            i <= messages@.len(),
            mv == messages_view(messages@),
            items@.len() == i,
            forall|k: int| 0 <= k < i ==> json_view(#[trigger] items@[k]) == message_json(mv[k]),
        decreases messages.len() - i,
    {
        items.push(message_value(&messages[i]));
        i = i + 1;
    }
    proof {
        lemma_items_view(items@);
        assert(items_view(items@) =~= mv.map_values(|m: InfologMessageView| message_json(m)));
    }
    let count = decimal_text(messages.len() as u64);
    let mut o: Vec<(String, Json)> = Vec::new();
    o.push((owned("count"), Json::Number(count)));
    o.push((owned("has_failure"), Json::Bool(failed)));
    o.push((owned("messages"), Json::Array(items)));
    proof {
        lemma_members_view(o@);
        assert(members_view(o@) =~= seq![
            ("count"@, JsonV::Number(decimal(mv.len()))),
            ("has_failure"@, JsonV::Bool(any_failure(mv))),
            ("messages"@, JsonV::Array(mv.map_values(|m: InfologMessageView| message_json(m)))),
        ]);
    }
    Json::Object(o)
}

/// Whether a service call asks to commit: its `commit` argument is `true`. A
/// committing call takes the transactional write path, any other the plain call.
pub fn service_call_commits(arguments: &Json) -> (b: bool)
    ensures
        b == (arguments@.get_spec("commit"@) == Some(JsonV::Bool(true))),
{
    match arguments.get("commit") {
        Some(Json::Bool(v)) => *v,
        _ => false,
    }
}

} // verus!
