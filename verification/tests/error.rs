use std::time::{SystemTime, UNIX_EPOCH};
use watchtower_client::WatchtowerError;

#[test]
fn errors_are_named_for_the_host() {
    assert_eq!(WatchtowerError::NotFound.message(), "NotFound");
    assert_eq!(WatchtowerError::Unauthorized.message(), "Unauthorized");
    for error in [
        WatchtowerError::InternalError,
        WatchtowerError::InstanceAlreadyRegistered,
        WatchtowerError::MaxRetryReached,
        WatchtowerError::InvalidPing,
        WatchtowerError::EmptyPool,
    ] {
        assert_eq!(error.message(), "Something went wrong");
    }
}

#[test]
fn error_kinds_are_told_apart() {
    let kinds = [
        WatchtowerError::InternalError,
        WatchtowerError::NotFound,
        WatchtowerError::Unauthorized,
        WatchtowerError::InstanceAlreadyRegistered,
        WatchtowerError::MaxRetryReached,
        WatchtowerError::InvalidPing,
        WatchtowerError::EmptyPool,
    ];
    for (i, first) in kinds.iter().enumerate() {
        for (j, second) in kinds.iter().enumerate() {
            assert_eq!(first == second, i == j);
        }
    }
}

#[test]
fn clock_failure_is_an_internal_error() {
    let failure = UNIX_EPOCH.duration_since(SystemTime::now()).unwrap_err();
    assert_eq!(WatchtowerError::from(failure), WatchtowerError::InternalError);
}

#[test]
fn json_failure_is_an_internal_error() {
    let failure = serde_json::from_str::<serde_json::Value>("{").unwrap_err();
    assert_eq!(WatchtowerError::from(failure), WatchtowerError::InternalError);
}

#[test]
fn http_failure_is_an_internal_error() {
    let failure = reqwest::Client::new().get("not a url").build().unwrap_err();
    assert_eq!(WatchtowerError::from(failure), WatchtowerError::InternalError);
}
