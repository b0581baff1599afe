//! Structured Metadata API error taxonomy, mapped onto the JSON-RPC code ranges.

use vstd::prelude::*;
use crate::odata::error::{in_transient_range, concat2, concat3, concat4};
use crate::text::{decimal, decimal_text};

verus! {

/// Structured error codes for Metadata operations.  Values are stable across releases.
#[derive(Debug, Clone, Copy, PartialEq, Eq, Structural)]
#[non_exhaustive]
pub enum MetaErrorCode {
    Timeout,
    EnvironmentDown,
    TokenRefresh,
    RateLimited,
    AuthFailed,
    NotFound,
    Forbidden,
    InvalidObjectName,
    NotDeployed,
    /// Entity data read blocked by environment policy.
    EntityDataBlocked,
    PermissionDenied,
    /// Object exists but is locked (checked out, in an undeployed package, etc.).
    Locked,
    /// Server bug / programming error.  Never retried.
    Internal,
}

/// The numeric JSON-RPC code of each error code.
pub open spec fn meta_code_value(c: MetaErrorCode) -> int {
    match c {
        MetaErrorCode::Timeout => -32160,
        MetaErrorCode::EnvironmentDown => -32161,
        MetaErrorCode::TokenRefresh => -32162,
        MetaErrorCode::RateLimited => -32163,
        MetaErrorCode::AuthFailed => -32260,
        MetaErrorCode::NotFound => -32261,
        MetaErrorCode::Forbidden => -32262,
        MetaErrorCode::InvalidObjectName => -32263,
        MetaErrorCode::NotDeployed => -32264,
        MetaErrorCode::EntityDataBlocked => -32265,
        MetaErrorCode::PermissionDenied => -32266,
        MetaErrorCode::Locked => -32267,
        MetaErrorCode::Internal => -32298,
    }
}

impl MetaErrorCode {
    pub fn as_i32(self) -> (v: i32)
        ensures
            v == meta_code_value(self),
    {
        match self {
            MetaErrorCode::Timeout => -32160,
            MetaErrorCode::EnvironmentDown => -32161,
            MetaErrorCode::TokenRefresh => -32162,
            MetaErrorCode::RateLimited => -32163,
            MetaErrorCode::AuthFailed => -32260,
            MetaErrorCode::NotFound => -32261,
            MetaErrorCode::Forbidden => -32262,
            MetaErrorCode::InvalidObjectName => -32263,
            MetaErrorCode::NotDeployed => -32264,
            MetaErrorCode::EntityDataBlocked => -32265,
            MetaErrorCode::PermissionDenied => -32266,
            MetaErrorCode::Locked => -32267,
            MetaErrorCode::Internal => -32298,
        }
    }

    /// Whether the caller should retry after backoff.
    pub fn is_transient(self) -> (b: bool)
        ensures
            b == in_transient_range(meta_code_value(self)),
            b <==> (self is Timeout || self is EnvironmentDown || self is TokenRefresh
                || self is RateLimited),
    {
        let v = self.as_i32();
        -32199 <= v && v <= -32100
    }
}

#[derive(Debug)]
#[non_exhaustive]
pub enum MetaError {
    Timeout { timeout_ms: u64 },
    EnvironmentDown { environment: String, reason: String },
    TokenRefresh,
    RateLimited { retry_after_ms: u64 },
    AuthFailed(String),
    NotFound { kind: String, name: String },
    Forbidden(String),
    InvalidObjectName(String),
    NotDeployed(String),
    EntityDataBlocked(String),
    PermissionDenied(String),
    Locked(String),
    Internal(String),
}

pub type MetaResult<T> = Result<T, MetaError>;

/// The code each error variant maps to.
pub open spec fn meta_error_code(e: MetaError) -> MetaErrorCode {
    match e {
        MetaError::Timeout { .. } => MetaErrorCode::Timeout,
        MetaError::EnvironmentDown { .. } => MetaErrorCode::EnvironmentDown,
        MetaError::TokenRefresh => MetaErrorCode::TokenRefresh,
        MetaError::RateLimited { .. } => MetaErrorCode::RateLimited,
        MetaError::AuthFailed(_) => MetaErrorCode::AuthFailed,
        MetaError::NotFound { .. } => MetaErrorCode::NotFound,
        MetaError::Forbidden(_) => MetaErrorCode::Forbidden,
        MetaError::InvalidObjectName(_) => MetaErrorCode::InvalidObjectName,
        MetaError::NotDeployed(_) => MetaErrorCode::NotDeployed,
        MetaError::EntityDataBlocked(_) => MetaErrorCode::EntityDataBlocked,
        MetaError::PermissionDenied(_) => MetaErrorCode::PermissionDenied,
        MetaError::Locked(_) => MetaErrorCode::Locked,
        MetaError::Internal(_) => MetaErrorCode::Internal,
    }
}

impl MetaError {
    pub fn code(&self) -> (c: MetaErrorCode)
        ensures
            c == meta_error_code(*self),
    {
        match self {
            MetaError::Timeout { .. } => MetaErrorCode::Timeout,
            MetaError::EnvironmentDown { .. } => MetaErrorCode::EnvironmentDown,
            MetaError::TokenRefresh => MetaErrorCode::TokenRefresh,
            MetaError::RateLimited { .. } => MetaErrorCode::RateLimited,
            MetaError::AuthFailed(_) => MetaErrorCode::AuthFailed,
            MetaError::NotFound { .. } => MetaErrorCode::NotFound,
            MetaError::Forbidden(_) => MetaErrorCode::Forbidden,
            MetaError::InvalidObjectName(_) => MetaErrorCode::InvalidObjectName,
            MetaError::NotDeployed(_) => MetaErrorCode::NotDeployed,
            MetaError::EntityDataBlocked(_) => MetaErrorCode::EntityDataBlocked,
            MetaError::PermissionDenied(_) => MetaErrorCode::PermissionDenied,
            MetaError::Locked(_) => MetaErrorCode::Locked,
            // Programmer bugs are permanent and must not be retried.
            MetaError::Internal(_) => MetaErrorCode::Internal,
        }
    }

    /// Whether the failure is worth retrying: exactly the timeout, environment-down,
    /// token-refresh and rate-limited failures.
    pub fn is_transient(&self) -> (b: bool)
        ensures
            b == in_transient_range(meta_code_value(meta_error_code(*self))),
            b <==> (*self is Timeout || *self is EnvironmentDown || *self is TokenRefresh
                || *self is RateLimited),
    {
        self.code().is_transient()
    }
}


/// The name of a code, as error reports print it.
pub open spec fn meta_code_name(c: MetaErrorCode) -> Seq<char> {
    match c {
        MetaErrorCode::Timeout => "Timeout"@,
        MetaErrorCode::EnvironmentDown => "EnvironmentDown"@,
        MetaErrorCode::TokenRefresh => "TokenRefresh"@,
        MetaErrorCode::RateLimited => "RateLimited"@,
        MetaErrorCode::AuthFailed => "AuthFailed"@,
        MetaErrorCode::NotFound => "NotFound"@,
        MetaErrorCode::Forbidden => "Forbidden"@,
        MetaErrorCode::InvalidObjectName => "InvalidObjectName"@,
        MetaErrorCode::NotDeployed => "NotDeployed"@,
        MetaErrorCode::EntityDataBlocked => "EntityDataBlocked"@,
        MetaErrorCode::PermissionDenied => "PermissionDenied"@,
        MetaErrorCode::Locked => "Locked"@,
        MetaErrorCode::Internal => "Internal"@,
    }
}

impl MetaErrorCode {
    pub fn name(self) -> (r: &'static str)
        ensures
            r@ == meta_code_name(self),
    {
        match self {
            MetaErrorCode::Timeout => "Timeout",
            MetaErrorCode::EnvironmentDown => "EnvironmentDown",
            MetaErrorCode::TokenRefresh => "TokenRefresh",
            MetaErrorCode::RateLimited => "RateLimited",
            MetaErrorCode::AuthFailed => "AuthFailed",
            MetaErrorCode::NotFound => "NotFound",
            MetaErrorCode::Forbidden => "Forbidden",
            MetaErrorCode::InvalidObjectName => "InvalidObjectName",
            MetaErrorCode::NotDeployed => "NotDeployed",
            MetaErrorCode::EntityDataBlocked => "EntityDataBlocked",
            MetaErrorCode::PermissionDenied => "PermissionDenied",
            MetaErrorCode::Locked => "Locked",
            MetaErrorCode::Internal => "Internal",
        }
    }
}

/// The human-readable message of an error.
pub open spec fn meta_error_message(e: MetaError) -> Seq<char> {
    match e {
        MetaError::Timeout { timeout_ms } => "Metadata request timeout after "@ + decimal(
            timeout_ms as nat,
        ) + " ms"@,
        MetaError::EnvironmentDown { environment, reason } => "environment '"@ + environment@
            + "' unreachable: "@ + reason@,
        MetaError::TokenRefresh => "Entra ID token refresh required"@,
        MetaError::RateLimited { retry_after_ms } => "rate limited; retry after "@ + decimal(
            retry_after_ms as nat,
        ) + " ms"@,
        MetaError::AuthFailed(m) => "authentication failed: "@ + m@,
        MetaError::NotFound { kind, name } => "object not found: "@ + kind@ + " '"@ + name@
            + "'"@,
        MetaError::Forbidden(m) => "forbidden: "@ + m@,
        MetaError::InvalidObjectName(m) => "invalid object name '"@ + m@ + "'"@,
        MetaError::NotDeployed(m) => "object is not deployed: "@ + m@,
        MetaError::EntityDataBlocked(m) => "entity data read blocked by environment policy: "@
            + m@,
        MetaError::PermissionDenied(m) => "permission denied: "@ + m@,
        MetaError::Locked(m) => "object locked: "@ + m@,
        MetaError::Internal(m) => "internal: "@ + m@,
    }
}

impl MetaError {
    /// The human-readable message of the error.
    pub fn message(&self) -> (r: String)
        ensures
            r@ == meta_error_message(*self),
    {
        match self {
            MetaError::Timeout { timeout_ms } => concat3(
                "Metadata request timeout after ",
                decimal_text(*timeout_ms).as_str(),
                " ms",
            ),
            MetaError::EnvironmentDown { environment, reason } => concat4(
                "environment '",
                environment.as_str(),
                "' unreachable: ",
                reason.as_str(),
            ),
            MetaError::TokenRefresh => crate::json::owned("Entra ID token refresh required"),
            MetaError::RateLimited { retry_after_ms } => concat3(
                "rate limited; retry after ",
                decimal_text(*retry_after_ms).as_str(),
                " ms",
            ),
            MetaError::AuthFailed(m) => concat2("authentication failed: ", m.as_str()),
            MetaError::NotFound { kind, name } => {
                let mut r = concat4("object not found: ", kind.as_str(), " '", name.as_str());
                r.append("'");
                r
            },
            MetaError::Forbidden(m) => concat2("forbidden: ", m.as_str()),
            MetaError::InvalidObjectName(m) => concat3("invalid object name '", m.as_str(), "'"),
            MetaError::NotDeployed(m) => concat2("object is not deployed: ", m.as_str()),
            MetaError::EntityDataBlocked(m) => concat2(
                "entity data read blocked by environment policy: ",
                m.as_str(),
            ),
            MetaError::PermissionDenied(m) => concat2("permission denied: ", m.as_str()),
            MetaError::Locked(m) => concat2("object locked: ", m.as_str()),
            MetaError::Internal(m) => concat2("internal: ", m.as_str()),
        }
    }
}

} // verus!
