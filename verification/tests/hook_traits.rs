use std::collections::HashSet;
use std::time::Duration;

use lore_server::hooks::traits::HookError;
use lore_server::hooks::traits::HookPoint;
use lore_server::hooks::traits::HookResponse;
use lore_server::hooks::traits::StatusCode;

#[test]
fn test_hook_point_display() {
    assert_eq!(HookPoint::BranchPush.to_string(), "BranchPush");
    assert_eq!(HookPoint::BranchCreate.to_string(), "BranchCreate");
    assert_eq!(HookPoint::BranchDelete.to_string(), "BranchDelete");
    assert_eq!(HookPoint::RepositoryCreate.to_string(), "RepositoryCreate");
    assert_eq!(HookPoint::Obliterate.to_string(), "Obliterate");
}

#[test]
fn test_hook_point_all() {
    let all = HookPoint::all();
    assert_eq!(all.len(), 5);
    assert!(all.contains(&HookPoint::BranchPush));
    assert!(all.contains(&HookPoint::BranchCreate));
    assert!(all.contains(&HookPoint::BranchDelete));
    assert!(all.contains(&HookPoint::RepositoryCreate));
    assert!(all.contains(&HookPoint::Obliterate));
}

#[test]
fn test_hook_point_hash_eq() {
    let mut set = HashSet::new();
    set.insert(HookPoint::BranchPush);
    set.insert(HookPoint::BranchPush);

    assert_eq!(set.len(), 1);
    assert!(set.contains(&HookPoint::BranchPush));
}

#[test]
fn test_status_code_display() {
    assert_eq!(StatusCode::PermissionDenied.to_string(), "PERMISSION_DENIED");
    assert_eq!(StatusCode::FailedPrecondition.to_string(), "FAILED_PRECONDITION");
    assert_eq!(StatusCode::ResourceExhausted.to_string(), "RESOURCE_EXHAUSTED");
    assert_eq!(StatusCode::InvalidArgument.to_string(), "INVALID_ARGUMENT");
    assert_eq!(StatusCode::Aborted.to_string(), "ABORTED");
}

#[test]
fn test_hook_error_rejected() {
    let err = HookError::rejected("test_hook", "Access denied", StatusCode::PermissionDenied);
    assert_eq!(err.hook_name(), "test_hook");
    assert_eq!(err.status_code(), Some(StatusCode::PermissionDenied));
    let msg = err.to_string();
    assert!(msg.contains("test_hook"));
    assert!(msg.contains("rejected"));
    assert!(msg.contains("Access denied"));
}

#[test]
fn test_hook_error_rejected_default() {
    let err = HookError::rejected_default("test_hook", "Validation failed");
    assert_eq!(err.hook_name(), "test_hook");
    assert_eq!(err.status_code(), Some(StatusCode::Internal));
}

#[test]
fn test_hook_error_execution_failed() {
    let err = HookError::execution_failed("test_hook", "Something went wrong");
    assert_eq!(err.hook_name(), "test_hook");
    assert_eq!(err.status_code(), None);
    let msg = err.to_string();
    assert!(msg.contains("test_hook"));
    assert!(msg.contains("execution failed"));
    assert!(msg.contains("Something went wrong"));
}

#[test]
fn test_hook_error_timeout() {
    let err = HookError::timeout("test_hook", Duration::from_secs(5));
    assert_eq!(err.hook_name(), "test_hook");
    assert_eq!(err.status_code(), None);
    let msg = err.to_string();
    assert!(msg.contains("test_hook"));
    assert!(msg.contains("timed out"));
    assert!(msg.contains("5s"));
}

#[test]
fn test_hook_error_panic() {
    let err = HookError::panic("test_hook", "panic message");
    assert_eq!(err.hook_name(), "test_hook");
    assert_eq!(err.status_code(), None);
    let msg = err.to_string();
    assert!(msg.contains("test_hook"));
    assert!(msg.contains("panicked"));
    assert!(msg.contains("panic message"));
}

#[test]
fn test_hook_error_config_error() {
    let err = HookError::config_error("test_hook", "missing field 'pattern'");
    assert_eq!(err.hook_name(), "test_hook");
    let msg = err.to_string();
    assert!(msg.contains("test_hook"));
    assert!(msg.contains("configuration error"));
    assert!(msg.contains("missing field 'pattern'"));
}

#[test]
fn test_hook_error_init_error() {
    let err = HookError::init_error("test_hook", "failed to connect");
    assert_eq!(err.hook_name(), "test_hook");
    let msg = err.to_string();
    assert!(msg.contains("test_hook"));
    assert!(msg.contains("initialization failed"));
    assert!(msg.contains("failed to connect"));
}

#[test]
fn test_hook_response_empty() {
    let response = HookResponse::empty();
    assert!(response.message.is_none());
}

#[test]
fn test_hook_response_default() {
    let response = HookResponse::default();
    assert!(response.message.is_none());
}

#[test]
fn test_hook_response_with_message() {
    let response = HookResponse::with_message("hello");
    assert_eq!(response.message, Some("hello".to_string()));
}

#[test]
fn hook_error_texts_are_exact() {
    assert_eq!(
        HookError::rejected("h", "no", StatusCode::Aborted).to_string(),
        "Hook 'h' rejected: no"
    );
    assert_eq!(
        HookError::execution_failed("h", "bad").to_string(),
        "Hook 'h' execution failed: bad"
    );
    assert_eq!(HookError::panic("h", "boom").to_string(), "Hook 'h' panicked: boom");
    assert_eq!(
        HookError::config_error("h", "x").to_string(),
        "Hook 'h' configuration error: x"
    );
    assert_eq!(
        HookError::init_error("h", "y").to_string(),
        "Hook 'h' initialization failed: y"
    );
    assert_eq!(
        HookError::timeout("h", Duration::from_millis(200)).to_string(),
        "Hook 'h' timed out after 200ms"
    );
}

#[test]
fn hook_point_and_status_names() {
    assert_eq!(HookPoint::Obliterate.name(), "Obliterate");
    assert_eq!(StatusCode::Internal.to_string(), "INTERNAL");
    assert_eq!(StatusCode::Internal.name(), "INTERNAL");
}

#[test]
fn every_constructor_names_its_hook() {
    let d = Duration::from_millis(5);
    assert_eq!(HookError::rejected("h", "m", StatusCode::Internal).hook_name(), "h");
    assert_eq!(HookError::rejected_default("h", "m").hook_name(), "h");
    assert_eq!(HookError::execution_failed("h", "m").hook_name(), "h");
    assert_eq!(HookError::timeout("h", d).hook_name(), "h");
    assert_eq!(HookError::panic("h", "m").hook_name(), "h");
    assert_eq!(HookError::config_error("h", "m").hook_name(), "h");
    assert_eq!(HookError::init_error("h", "m").hook_name(), "h");
}
