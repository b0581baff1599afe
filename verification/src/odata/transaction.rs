//! Transactional write orchestration via OData `$batch` change sets.
//!
//! A mutating operation is submitted inside a change set, which the server applies
//! as one atomic unit of work.  Every write path enforces the same protocol:
//!
//! 1. refuse outright in read-only mode (fail-closed);
//! 2. refuse a direct call of the `$batch` envelope itself;
//! 3. submit the operation;
//! 4. inspect the returned Infolog: any `Error` / unknown severity means the change
//!    set was rejected (nothing persisted);
//! 5. with no positive confirmation (empty Infolog) the outcome is unconfirmed and
//!    reported as not committed.

use vstd::prelude::*;
use crate::json::{Json, owned};
use crate::text::str_eq_ignore_case;
use crate::text::eq_ignore_case;
use crate::odata::client::{D365Client, ServiceCallRequest};
use crate::odata::error::{D365Error, D365Result};
use crate::odata::infolog::{
    InfologMessage, InfologMessageView, InfologSeverity, infolog_spec, messages_view,
    parse_infolog, severity_fails,
};

verus! {

/// Result of a transactional write.
#[derive(Debug)]
pub struct WriteOutcome {
    pub operation: String,
    /// Whether the change set committed, i.e. the change is persisted.
    pub committed: bool,
    /// Whether the change set was rejected / rolled back (nothing persisted).
    pub rolled_back: bool,
    /// Infolog messages returned by the operation.
    pub messages: Vec<InfologMessage>,
    /// The raw operation result.
    pub result: Json,
}

/// Some message of the list reports a failure.
pub open spec fn any_failure(ms: Seq<InfologMessageView>) -> bool {
    exists|i: int| 0 <= i < ms.len() && severity_fails(#[trigger] ms[i].severity)
}

/// The warning recorded when an operation returns no Infolog at all.
pub open spec fn unconfirmed_note() -> InfologMessageView {
    InfologMessageView {
        severity: InfologSeverity::Warning,
        code: "D365AUTO"@,
        text: "operation returned no Infolog; outcome unconfirmed \u{2014} not committed"@,
        field: None,
        environment: None,
    }
}

/// Whether a write whose Infolog is `ms` committed: only with positive
/// confirmation (at least one message) and no failure among the messages.
pub open spec fn write_committed(ms: Seq<InfologMessageView>) -> bool {
    ms.len() > 0 && !any_failure(ms)
}

/// The messages reported for a write whose Infolog is `ms`.
pub open spec fn reported_messages(ms: Seq<InfologMessageView>) -> Seq<InfologMessageView> {
    if !any_failure(ms) && ms.len() == 0 {
        seq![unconfirmed_note()]
    } else {
        ms
    }
}

/// The `$batch` envelope may not be called directly.
pub open spec fn is_batch_envelope(operation: Seq<char>) -> bool {
    eq_ignore_case(operation, "$batch"@)
}

/// True if any message indicates the operation failed (so the change set must NOT
/// be considered committed).  Unknown severities count as failures.
pub fn has_failure(messages: &[InfologMessage]) -> (b: bool)
    ensures
        b == any_failure(messages_view(messages@)),
{
    let mut i: usize = 0;
    while i < messages.len()
        invariant
            i <= messages.len(),
            forall|j: int| 0 <= j < i ==> !severity_fails(#[trigger] messages@[j].severity),
        decreases messages.len() - i,
    {
        if messages[i].is_failure() {
            proof {
                assert(messages_view(messages@)[i as int].severity == messages@[i as int].severity);
            }
            return true;
        }
        i = i + 1;
    }
    proof {
        assert forall|j: int| 0 <= j < messages_view(messages@).len() implies !severity_fails(
            #[trigger] messages_view(messages@)[j].severity,
        ) by {
            assert(messages_view(messages@)[j].severity == messages@[j].severity);
        }
    }
    false
}

fn note(severity: InfologSeverity, text: &str) -> (m: InfologMessage)
    ensures
        m@ == (InfologMessageView {
            severity,
            code: "D365AUTO"@,
            text: text@,
            field: None,
            environment: None,
        }),
{
    InfologMessage {
        severity,
        code: owned("D365AUTO"),
        text: owned(text),
        field: None,
        environment: None,
    }
}

/// Settle the outcome of a submitted change set from the operation's result:
/// committed exactly when the Infolog holds at least one message and none of them
/// reports a failure; otherwise rolled back.  An empty Infolog is reported with a
/// warning that the outcome is unconfirmed.
pub fn settle_write(operation: String, result: Json) -> (o: WriteOutcome)
    ensures
        o.operation == operation,
        o.result == result,
        o.committed == write_committed(infolog_spec(result@)),
        o.rolled_back == !o.committed,
        messages_view(o.messages@) == reported_messages(infolog_spec(result@)),
{
    let messages = parse_infolog(&result);
    if has_failure(messages.as_slice()) {
        // The server rejected the change set; nothing persisted.
        return WriteOutcome { operation, committed: false, rolled_back: true, messages, result };
    }
    if messages.len() == 0 {
        // No positive confirmation: do not report a commit on faith.
        let mut out: Vec<InfologMessage> = Vec::new();
        out.push(
            note(
                InfologSeverity::Warning,
                "operation returned no Infolog; outcome unconfirmed \u{2014} not committed",
            ),
        );
        proof {
            assert(messages_view(out@) =~= seq![unconfirmed_note()]);
        }
        return WriteOutcome {
            operation,
            committed: false,
            rolled_back: true,
            messages: out,
            result,
        };
    }
    // Non-empty and no failure: the change set committed atomically.
    WriteOutcome { operation, committed: true, rolled_back: false, messages, result }
}

/// The refusal of a write in read-only mode.
pub open spec fn read_only_refusal(operation: Seq<char>) -> Seq<char> {
    "write workflow for '"@ + operation + "' requires write mode (--enable-writes)"@
}

/// The reason given when the `$batch` envelope is called directly.
pub open spec fn batch_refusal() -> Seq<char> {
    "the $batch envelope is constructed automatically; call the business operation instead"@
}

/// Execute a write operation inside an atomic `$batch` change set.
///
/// In read-only mode this refuses to run at all; it refuses the `$batch` envelope
/// itself; otherwise it submits the operation and settles the outcome from the
/// Infolog the operation returns.  The backend receives the request as given,
/// in write mode, since this function's own gate decides; a backend error is
/// returned as is, and the outcome is settled from exactly the backend's result.
pub fn execute_write_operation<C: D365Client>(
    client: &C,
    request: ServiceCallRequest,
    read_only_mode: bool,
) -> (r: D365Result<WriteOutcome>)
    ensures
        read_only_mode ==> (r matches Err(D365Error::PermissionDenied(msg)) && msg@
            == read_only_refusal(request.operation@)),
        !read_only_mode && is_batch_envelope(request.operation@) ==> (r matches Err(
            D365Error::InvalidParameter { name, reason },
        ) && name@ == "operation"@ && reason@ == batch_refusal()),
        !read_only_mode && !is_batch_envelope(request.operation@) ==> match r {
            Ok(o) => client.call_service_post(request, false, Ok(o.result)),
            Err(e) => client.call_service_post(request, false, Err(e)),
        },
        r matches Ok(o) ==> {
            &&& !read_only_mode
            &&& !is_batch_envelope(request.operation@)
            &&& o.operation@ == request.operation@
            &&& o.committed == write_committed(infolog_spec(o.result@))
            &&& o.rolled_back == !o.committed
            &&& messages_view(o.messages@) == reported_messages(infolog_spec(o.result@))
        },
{
    if read_only_mode {
        let mut msg = owned("write workflow for '");
        msg.append(request.operation.as_str());
        msg.append("' requires write mode (--enable-writes)");
        return Err(D365Error::PermissionDenied(msg));
    }
    if str_eq_ignore_case(request.operation.as_str(), "$batch") {
        return Err(
            D365Error::InvalidParameter {
                name: owned("operation"),
                reason: owned(
                    "the $batch envelope is constructed automatically; call the business operation instead",
                ),
            },
        );
    }
    let operation = request.operation.clone();
    match client.call_service(request, false) {
        Ok(result) => Ok(settle_write(operation, result)),
        Err(e) => Err(e),
    }
}

/// A write is reported committed only on positive confirmation: its Infolog holds
/// at least one message and none reports a failure.  An empty Infolog, or one with
/// any failing message, always means rolled back.
pub proof fn law_commit_needs_confirmation(ms: Seq<InfologMessageView>)
    ensures
        write_committed(ms) ==> ms.len() > 0 && forall|i: int|
            0 <= i < ms.len() ==> !severity_fails(#[trigger] ms[i].severity),
        ms.len() == 0 ==> !write_committed(ms) && reported_messages(ms) == seq![unconfirmed_note()],
        (exists|i: int| 0 <= i < ms.len() && severity_fails(#[trigger] ms[i].severity))
            ==> !write_committed(ms) && reported_messages(ms) == ms,
{
}

} // verus!
