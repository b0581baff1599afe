//! Structured OData error taxonomy, mapped onto the JSON-RPC code ranges.

use vstd::prelude::*;
use crate::json::owned;
use crate::text::{decimal, decimal_text};

verus! {

/// Structured error codes for OData / Custom Service operations.
/// Transient codes lie in -32199..=-32100, permanent ones in -32299..=-32200,
/// degraded ones in -32399..=-32300.
#[derive(Debug, Clone, Copy, PartialEq, Eq, Structural)]
#[non_exhaustive]
pub enum D365ErrorCode {
    Timeout,
    EnvironmentDown,
    PoolExhausted,
    CircuitOpen,
    UpstreamRateLimit,
    AuthFailed,
    NotFound,
    QueryResultOverflow,
    InvalidParameter,
    PermissionDenied,
    SchemaViolation,
    /// Server bug / programming error.  Never retried.
    Internal,
    PartialBulk,
    StaleMetadata,
}

/// The numeric JSON-RPC code of each error code.
pub open spec fn d365_code_value(c: D365ErrorCode) -> int {
    match c {
        D365ErrorCode::Timeout => -32110,
        D365ErrorCode::EnvironmentDown => -32120,
        D365ErrorCode::PoolExhausted => -32130,
        D365ErrorCode::CircuitOpen => -32140,
        D365ErrorCode::UpstreamRateLimit => -32150,
        D365ErrorCode::AuthFailed => -32210,
        D365ErrorCode::NotFound => -32220,
        D365ErrorCode::QueryResultOverflow => -32230,
        D365ErrorCode::InvalidParameter => -32240,
        D365ErrorCode::PermissionDenied => -32250,
        D365ErrorCode::SchemaViolation => -32260,
        D365ErrorCode::Internal => -32299,
        D365ErrorCode::PartialBulk => -32310,
        D365ErrorCode::StaleMetadata => -32320,
    }
}

/// A code is transient (worth retrying after backoff) exactly when its value lies in
/// the transient range.
pub open spec fn in_transient_range(v: int) -> bool {
    -32199 <= v <= -32100
}

impl D365ErrorCode {
    pub fn as_i32(self) -> (v: i32)
        ensures
            v == d365_code_value(self),
    {
        match self {
            D365ErrorCode::Timeout => -32110,
            D365ErrorCode::EnvironmentDown => -32120,
            D365ErrorCode::PoolExhausted => -32130,
            D365ErrorCode::CircuitOpen => -32140,
            D365ErrorCode::UpstreamRateLimit => -32150,
            D365ErrorCode::AuthFailed => -32210,
            D365ErrorCode::NotFound => -32220,
            D365ErrorCode::QueryResultOverflow => -32230,
            D365ErrorCode::InvalidParameter => -32240,
            D365ErrorCode::PermissionDenied => -32250,
            D365ErrorCode::SchemaViolation => -32260,
            D365ErrorCode::Internal => -32299,
            D365ErrorCode::PartialBulk => -32310,
            D365ErrorCode::StaleMetadata => -32320,
        }
    }

    /// Whether the caller should retry after backoff.
    pub fn is_transient(self) -> (b: bool)
        ensures
            b == in_transient_range(d365_code_value(self)),
            b <==> (self is Timeout || self is EnvironmentDown || self is PoolExhausted
                || self is CircuitOpen || self is UpstreamRateLimit),
    {
        let v = self.as_i32();
        -32199 <= v && v <= -32100
    }
}

#[derive(Debug)]
#[non_exhaustive]
pub enum D365Error {
    Timeout { timeout_ms: u64 },
    EnvironmentDown { environment: String, reason: String },
    PoolExhausted { cap: usize },
    CircuitOpen { retry_after_ms: u64 },
    AuthFailed(String),
    NotFound(String),
    QueryResultOverflow { entity: String, max_rows: usize },
    InvalidParameter { name: String, reason: String },
    PermissionDenied(String),
    SchemaViolation(String),
    PartialBulk(String),
    Internal(String),
}

pub type D365Result<T> = Result<T, D365Error>;

/// The code each error variant maps to.
pub open spec fn d365_error_code(e: D365Error) -> D365ErrorCode {
    match e {
        D365Error::Timeout { .. } => D365ErrorCode::Timeout,
        D365Error::EnvironmentDown { .. } => D365ErrorCode::EnvironmentDown,
        D365Error::PoolExhausted { .. } => D365ErrorCode::PoolExhausted,
        D365Error::CircuitOpen { .. } => D365ErrorCode::CircuitOpen,
        D365Error::AuthFailed(_) => D365ErrorCode::AuthFailed,
        D365Error::NotFound(_) => D365ErrorCode::NotFound,
        D365Error::QueryResultOverflow { .. } => D365ErrorCode::QueryResultOverflow,
        D365Error::InvalidParameter { .. } => D365ErrorCode::InvalidParameter,
        D365Error::PermissionDenied(_) => D365ErrorCode::PermissionDenied,
        D365Error::SchemaViolation(_) => D365ErrorCode::SchemaViolation,
        D365Error::PartialBulk(_) => D365ErrorCode::PartialBulk,
        D365Error::Internal(_) => D365ErrorCode::Internal,
    }
}

impl D365Error {
    pub fn code(&self) -> (c: D365ErrorCode)
        ensures
            c == d365_error_code(*self),
    {
        match self {
            D365Error::Timeout { .. } => D365ErrorCode::Timeout,
            D365Error::EnvironmentDown { .. } => D365ErrorCode::EnvironmentDown,
            D365Error::PoolExhausted { .. } => D365ErrorCode::PoolExhausted,
            D365Error::CircuitOpen { .. } => D365ErrorCode::CircuitOpen,
            D365Error::AuthFailed(_) => D365ErrorCode::AuthFailed,
            D365Error::NotFound(_) => D365ErrorCode::NotFound,
            D365Error::QueryResultOverflow { .. } => D365ErrorCode::QueryResultOverflow,
            D365Error::InvalidParameter { .. } => D365ErrorCode::InvalidParameter,
            D365Error::PermissionDenied(_) => D365ErrorCode::PermissionDenied,
            D365Error::SchemaViolation(_) => D365ErrorCode::SchemaViolation,
            D365Error::PartialBulk(_) => D365ErrorCode::PartialBulk,
            // Internal errors are programming bugs, not transient outages.
            D365Error::Internal(_) => D365ErrorCode::Internal,
        }
    }

    /// Whether the failure is worth retrying: exactly the timeout, environment-down,
    /// pool-exhausted and circuit-open failures.
    pub fn is_transient(&self) -> (b: bool)
        ensures
            b == in_transient_range(d365_code_value(d365_error_code(*self))),
            b <==> (*self is Timeout || *self is EnvironmentDown || *self is PoolExhausted
                || *self is CircuitOpen),
    {
        self.code().is_transient()
    }
}


/// The name of a code, as error reports print it.
pub open spec fn d365_code_name(c: D365ErrorCode) -> Seq<char> {
    match c {
        D365ErrorCode::Timeout => "Timeout"@,
        D365ErrorCode::EnvironmentDown => "EnvironmentDown"@,
        D365ErrorCode::PoolExhausted => "PoolExhausted"@,
        D365ErrorCode::CircuitOpen => "CircuitOpen"@,
        D365ErrorCode::UpstreamRateLimit => "UpstreamRateLimit"@,
        D365ErrorCode::AuthFailed => "AuthFailed"@,
        D365ErrorCode::NotFound => "NotFound"@,
        D365ErrorCode::QueryResultOverflow => "QueryResultOverflow"@,
        D365ErrorCode::InvalidParameter => "InvalidParameter"@,
        D365ErrorCode::PermissionDenied => "PermissionDenied"@,
        D365ErrorCode::SchemaViolation => "SchemaViolation"@,
        D365ErrorCode::Internal => "Internal"@,
        D365ErrorCode::PartialBulk => "PartialBulk"@,
        D365ErrorCode::StaleMetadata => "StaleMetadata"@,
    }
}

impl D365ErrorCode {
    pub fn name(self) -> (r: &'static str)
        ensures
            r@ == d365_code_name(self),
    {
        match self {
            D365ErrorCode::Timeout => "Timeout",
            D365ErrorCode::EnvironmentDown => "EnvironmentDown",
            D365ErrorCode::PoolExhausted => "PoolExhausted",
            D365ErrorCode::CircuitOpen => "CircuitOpen",
            D365ErrorCode::UpstreamRateLimit => "UpstreamRateLimit",
            D365ErrorCode::AuthFailed => "AuthFailed",
            D365ErrorCode::NotFound => "NotFound",
            D365ErrorCode::QueryResultOverflow => "QueryResultOverflow",
            D365ErrorCode::InvalidParameter => "InvalidParameter",
            D365ErrorCode::PermissionDenied => "PermissionDenied",
            D365ErrorCode::SchemaViolation => "SchemaViolation",
            D365ErrorCode::Internal => "Internal",
            D365ErrorCode::PartialBulk => "PartialBulk",
            D365ErrorCode::StaleMetadata => "StaleMetadata",
        }
    }
}

/// The human-readable message of an error.
pub open spec fn d365_error_message(e: D365Error) -> Seq<char> {
    match e {
        D365Error::Timeout { timeout_ms } => "OData request timeout after "@ + decimal(
            timeout_ms as nat,
        ) + " ms"@,
        D365Error::EnvironmentDown { environment, reason } => "Dynamics 365 environment '"@
            + environment@ + "' unreachable: "@ + reason@,
        D365Error::PoolExhausted { cap } => "connection pool exhausted (cap="@ + decimal(
            cap as nat,
        ) + ")"@,
        D365Error::CircuitOpen { retry_after_ms } => "circuit open until ~"@ + decimal(
            retry_after_ms as nat,
        ) + " ms from now"@,
        D365Error::AuthFailed(m) => "authentication failed: "@ + m@,
        D365Error::NotFound(m) => "not found: "@ + m@,
        D365Error::QueryResultOverflow { entity, max_rows } => "query result overflow for '"@
            + entity@ + "' (max_rows="@ + decimal(max_rows as nat) + ")"@,
        D365Error::InvalidParameter { name, reason } => "invalid parameter '"@ + name@ + "': "@
            + reason@,
        D365Error::PermissionDenied(m) => "permission denied: "@ + m@,
        D365Error::SchemaViolation(m) => "schema violation: "@ + m@,
        D365Error::PartialBulk(m) => "partial result: "@ + m@,
        D365Error::Internal(m) => "internal: "@ + m@,
    }
}

pub(crate) fn concat2(a: &str, b: &str) -> (r: String)
    ensures
        r@ == a@ + b@,
{
    let mut r = owned(a);
    r.append(b);
    r
}

pub(crate) fn concat3(a: &str, b: &str, c: &str) -> (r: String)
    ensures
        r@ == a@ + b@ + c@,
{
    let mut r = owned(a);
    r.append(b);
    r.append(c);
    r
}

pub(crate) fn concat4(a: &str, b: &str, c: &str, d: &str) -> (r: String)
    ensures
        r@ == a@ + b@ + c@ + d@,
{
    let mut r = concat3(a, b, c);
    r.append(d);
    r
}

impl D365Error {
    /// The human-readable message of the error.
    pub fn message(&self) -> (r: String)
        ensures
            r@ == d365_error_message(*self),
    {
        match self {
            D365Error::Timeout { timeout_ms } => concat3(
                "OData request timeout after ",
                decimal_text(*timeout_ms).as_str(),
                " ms",
            ),
            D365Error::EnvironmentDown { environment, reason } => concat4(
                "Dynamics 365 environment '",
                environment.as_str(),
                "' unreachable: ",
                reason.as_str(),
            ),
            D365Error::PoolExhausted { cap } => concat3(
                "connection pool exhausted (cap=",
                decimal_text(*cap as u64).as_str(),
                ")",
            ),
            D365Error::CircuitOpen { retry_after_ms } => concat3(
                "circuit open until ~",
                decimal_text(*retry_after_ms).as_str(),
                " ms from now",
            ),
            D365Error::AuthFailed(m) => concat2("authentication failed: ", m.as_str()),
            D365Error::NotFound(m) => concat2("not found: ", m.as_str()),
            D365Error::QueryResultOverflow { entity, max_rows } => {
                let mut r = concat4(
                    "query result overflow for '",
                    entity.as_str(),
                    "' (max_rows=",
                    decimal_text(*max_rows as u64).as_str(),
                );
                r.append(")");
                r
            },
            D365Error::InvalidParameter { name, reason } => concat4(
                "invalid parameter '",
                name.as_str(),
                "': ",
                reason.as_str(),
            ),
            D365Error::PermissionDenied(m) => concat2("permission denied: ", m.as_str()),
            D365Error::SchemaViolation(m) => concat2("schema violation: ", m.as_str()),
            D365Error::PartialBulk(m) => concat2("partial result: ", m.as_str()),
            D365Error::Internal(m) => concat2("internal: ", m.as_str()),
        }
    }
}

} // verus!
