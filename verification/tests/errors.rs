use d365_automate::meta::error::{MetaError, MetaErrorCode};
use d365_automate::odata::error::{D365Error, D365ErrorCode};

#[test]
fn transient_classification_only_matches_transient_range() {
    for c in [
        D365ErrorCode::Timeout,
        D365ErrorCode::EnvironmentDown,
        D365ErrorCode::PoolExhausted,
        D365ErrorCode::CircuitOpen,
        D365ErrorCode::UpstreamRateLimit,
    ] {
        assert!(c.is_transient(), "{c:?} should be transient");
    }
    for c in [
        D365ErrorCode::AuthFailed,
        D365ErrorCode::NotFound,
        D365ErrorCode::QueryResultOverflow,
        D365ErrorCode::InvalidParameter,
        D365ErrorCode::PermissionDenied,
        D365ErrorCode::SchemaViolation,
        D365ErrorCode::Internal,
        D365ErrorCode::PartialBulk,
        D365ErrorCode::StaleMetadata,
    ] {
        assert!(!c.is_transient(), "{c:?} should NOT be transient");
    }
}

#[test]
fn error_internal_is_permanent() {
    let e = D365Error::Internal("bug".into());
    assert!(!e.is_transient());
    assert_eq!(e.code().as_i32(), D365ErrorCode::Internal.as_i32());
}

#[test]
fn internal_is_permanent() {
    let e = MetaError::Internal("bug".into());
    assert!(
        !e.is_transient(),
        "MetaError::Internal must be permanent to prevent retry-loop on programmer bugs"
    );
}

#[test]
fn transient_kinds_are_classified_correctly() {
    for code in [
        MetaErrorCode::Timeout,
        MetaErrorCode::EnvironmentDown,
        MetaErrorCode::TokenRefresh,
        MetaErrorCode::RateLimited,
    ] {
        assert!(code.is_transient(), "{code:?} should be transient");
    }
    for code in [
        MetaErrorCode::AuthFailed,
        MetaErrorCode::NotFound,
        MetaErrorCode::Forbidden,
        MetaErrorCode::Internal,
        MetaErrorCode::EntityDataBlocked,
        MetaErrorCode::Locked,
    ] {
        assert!(!code.is_transient(), "{code:?} should NOT be transient");
    }
}

#[test]
fn error_codes_have_their_json_rpc_values() {
    assert_eq!(D365ErrorCode::Timeout.as_i32(), -32110);
    assert_eq!(D365ErrorCode::Internal.as_i32(), -32299);
    assert_eq!(MetaErrorCode::Timeout.as_i32(), -32160);
    assert_eq!(MetaErrorCode::EntityDataBlocked.as_i32(), -32265);
    assert_eq!(MetaError::TokenRefresh.code(), MetaErrorCode::TokenRefresh);
    assert!(MetaError::TokenRefresh.is_transient());
    assert_eq!(
        D365Error::PoolExhausted { cap: 2 }.code(),
        D365ErrorCode::PoolExhausted
    );
    assert!(D365Error::PoolExhausted { cap: 2 }.is_transient());
}
