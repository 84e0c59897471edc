use lore_server::hooks::context::RepositoryId;
use lore_server::hooks::context::HookContext;
use std::cell::Cell;
use std::time::Duration;

use lore_server::hooks::dispatch::extract_panic_message;
use lore_server::hooks::dispatch::settle_handler;
use lore_server::hooks::dispatch::HandlerOutcome;
use lore_server::hooks::dispatch::HandlerReport;
use lore_server::hooks::dispatch::HookDispatcher;
use lore_server::hooks::dispatch::PanicPayload;
use lore_server::hooks::dispatch::RegisteredHook;
use lore_server::hooks::traits::HookError;
use lore_server::hooks::traits::HookPoint;
use lore_server::hooks::traits::HookResponse;
use lore_server::hooks::traits::StatusCode;

const DEFAULT_PRE_HANDLER_TIMEOUT: Duration = Duration::from_millis(200);
const DEFAULT_POST_HANDLER_TIMEOUT: Duration = Duration::from_secs(30);

/// What a test hook does when its pre-handler runs.
enum Behaviour {
    Succeed,
    Reject,
    Fail,
    Panic,
    Slow,
}

struct TestHook {
    behaviour: Behaviour,
    runs: Cell<usize>,
}

impl TestHook {
    fn new(behaviour: Behaviour) -> Self {
        TestHook { behaviour, runs: Cell::new(0) }
    }

    /// Runs the pre-handler as the server does, reporting how it ended.
    fn run_pre(&self, name: &str) -> HandlerReport<()> {
        self.runs.set(self.runs.get() + 1);
        match self.behaviour {
            Behaviour::Succeed => HandlerReport { outcome: HandlerOutcome::Returned(Ok(())), overran: false },
            Behaviour::Reject => HandlerReport {
                outcome: HandlerOutcome::Returned(Err(HookError::rejected(
                    name,
                    "Operation rejected",
                    StatusCode::PermissionDenied,
                ))),
                overran: false,
            },
            Behaviour::Fail => HandlerReport {
                outcome: HandlerOutcome::Returned(Err(HookError::execution_failed(name, "Hook failed"))),
                overran: false,
            },
            Behaviour::Panic => HandlerReport {
                outcome: HandlerOutcome::Panicked(extract_panic_message(PanicPayload::Str(
                    "Pre-handler panicked!".to_string(),
                ))),
                overran: false,
            },
            Behaviour::Slow => HandlerReport { outcome: HandlerOutcome::Returned(Ok(())), overran: true },
        }
    }
}

fn registered(name: &str, behaviour: Behaviour, points: &[HookPoint]) -> RegisteredHook<TestHook> {
    RegisteredHook { name: name.to_string(), hook: TestHook::new(behaviour), points: points.to_vec() }
}

/// Dispatches the pre-handlers of a point: runs every hook registered there
/// in order, then lets the dispatcher decide.
fn dispatch_pre(dispatcher: &HookDispatcher<TestHook>, point: HookPoint) -> Result<(), HookError> {
    let reports: Vec<HandlerReport<()>> = dispatcher
        .hook_indices(point)
        .into_iter()
        .map(|i| dispatcher.hook(i).run_pre(dispatcher.hook_name(i)))
        .collect();
    dispatcher.dispatch_pre(point, reports)
}

#[test]
fn test_empty_dispatcher() {
    let dispatcher: HookDispatcher<TestHook> = HookDispatcher::empty();

    assert_eq!(dispatcher.hook_count(HookPoint::BranchPush), 0);
    assert!(!dispatcher.has_hooks(HookPoint::BranchPush));
    assert_eq!(dispatcher.total_hook_registrations(), 0);
    assert_eq!(dispatcher.pre_handler_timeout(), DEFAULT_PRE_HANDLER_TIMEOUT);
    assert_eq!(dispatcher.post_handler_timeout(), DEFAULT_POST_HANDLER_TIMEOUT);
}

#[test]
fn test_dispatcher_from_hooks_default() {
    let hooks = vec![registered("hook1", Behaviour::Succeed, &[HookPoint::BranchPush])];

    let dispatcher = HookDispatcher::from_hooks_default(hooks);

    assert_eq!(dispatcher.pre_handler_timeout(), DEFAULT_PRE_HANDLER_TIMEOUT);
    assert_eq!(dispatcher.post_handler_timeout(), DEFAULT_POST_HANDLER_TIMEOUT);
}

#[test]
fn test_dispatch_pre_no_hooks() {
    let dispatcher: HookDispatcher<TestHook> = HookDispatcher::empty();
    let result = dispatch_pre(&dispatcher, HookPoint::BranchPush);
    assert!(result.is_ok());
}

#[test]
fn test_dispatch_pre_success() {
    let dispatcher =
        HookDispatcher::from_hooks_default(vec![registered("test", Behaviour::Succeed, &[HookPoint::BranchPush])]);

    let result = dispatch_pre(&dispatcher, HookPoint::BranchPush);
    assert!(result.is_ok());
    assert_eq!(dispatcher.hook(0).runs.get(), 1);
}

#[test]
fn test_dispatch_pre_multiple_hooks() {
    let dispatcher = HookDispatcher::from_hooks_default(vec![
        registered("hook1", Behaviour::Succeed, &[HookPoint::BranchPush]),
        registered("hook2", Behaviour::Succeed, &[HookPoint::BranchPush]),
    ]);

    let result = dispatch_pre(&dispatcher, HookPoint::BranchPush);
    assert!(result.is_ok());
    assert_eq!(dispatcher.hook(0).runs.get(), 1);
    assert_eq!(dispatcher.hook(1).runs.get(), 1);
}

#[test]
fn test_dispatch_pre_wrong_hook_point() {
    let dispatcher =
        HookDispatcher::from_hooks_default(vec![registered("test", Behaviour::Succeed, &[HookPoint::BranchPush])]);

    let result = dispatch_pre(&dispatcher, HookPoint::BranchDelete);
    assert!(result.is_ok());
    assert_eq!(dispatcher.hook(0).runs.get(), 0);
}

#[test]
fn test_dispatch_pre_rejection() {
    let dispatcher = HookDispatcher::from_hooks_default(vec![registered(
        "rejecting",
        Behaviour::Reject,
        &[HookPoint::BranchPush],
    )]);

    let result = dispatch_pre(&dispatcher, HookPoint::BranchPush);
    assert!(result.is_err());

    match result.unwrap_err() {
        HookError::Rejected { hook_name, status, .. } => {
            assert_eq!(hook_name, "rejecting");
            assert_eq!(status, StatusCode::PermissionDenied);
        }
        _ => panic!("Expected Rejected error"),
    }
}

#[test]
fn test_dispatch_pre_error_isolation() {
    let dispatcher = HookDispatcher::from_hooks_default(vec![
        registered("failing", Behaviour::Fail, &[HookPoint::BranchPush]),
        registered("success", Behaviour::Succeed, &[HookPoint::BranchPush]),
    ]);

    let result = dispatch_pre(&dispatcher, HookPoint::BranchPush);

    assert!(result.is_err());
    assert_eq!(dispatcher.hook(0).runs.get(), 1);
    assert_eq!(dispatcher.hook(1).runs.get(), 1);
}

#[test]
fn test_dispatch_pre_returns_first_error() {
    let dispatcher = HookDispatcher::from_hooks_default(vec![
        registered("fail1", Behaviour::Reject, &[HookPoint::BranchPush]),
        registered("fail2", Behaviour::Reject, &[HookPoint::BranchPush]),
    ]);

    let result = dispatch_pre(&dispatcher, HookPoint::BranchPush);

    match result.unwrap_err() {
        HookError::Rejected { hook_name, .. } => {
            assert_eq!(hook_name, "fail1");
        }
        _ => panic!("Expected Rejected error"),
    }
    assert_eq!(dispatcher.hook(0).runs.get(), 1);
    assert_eq!(dispatcher.hook(1).runs.get(), 1);
}

#[test]
fn test_dispatch_pre_timeout() {
    let dispatcher = HookDispatcher::new(
        vec![registered("slow", Behaviour::Slow, &[HookPoint::BranchPush])],
        Duration::from_millis(50),
        DEFAULT_POST_HANDLER_TIMEOUT,
    );

    let result = dispatch_pre(&dispatcher, HookPoint::BranchPush);

    match result.unwrap_err() {
        HookError::Timeout { hook_name, timeout } => {
            assert_eq!(hook_name, "slow");
            assert_eq!(timeout, Duration::from_millis(50));
        }
        _ => panic!("Expected Timeout error"),
    }
}

#[test]
fn test_dispatch_pre_panic_isolation() {
    let dispatcher =
        HookDispatcher::from_hooks_default(vec![registered("panic", Behaviour::Panic, &[HookPoint::BranchPush])]);

    let result = dispatch_pre(&dispatcher, HookPoint::BranchPush);

    match result.unwrap_err() {
        HookError::Panic { hook_name, message } => {
            assert_eq!(hook_name, "panic");
            assert!(message.contains("panicked"));
        }
        _ => panic!("Expected Panic error"),
    }
}

#[test]
fn test_dispatch_pre_panic_does_not_affect_other_hooks() {
    let dispatcher = HookDispatcher::from_hooks_default(vec![
        registered("panic", Behaviour::Panic, &[HookPoint::BranchPush]),
        registered("success", Behaviour::Succeed, &[HookPoint::BranchPush]),
    ]);

    let result = dispatch_pre(&dispatcher, HookPoint::BranchPush);

    assert!(result.is_err());
    assert_eq!(dispatcher.hook(1).runs.get(), 1);
}

#[test]
fn test_dispatch_pre_performance_many_hooks() {
    let hooks: Vec<RegisteredHook<TestHook>> = (0..100)
        .map(|i| registered(&format!("hook_{i}"), Behaviour::Succeed, &[HookPoint::BranchPush]))
        .collect();
    let dispatcher = HookDispatcher::from_hooks_default(hooks);

    assert_eq!(dispatcher.hook_count(HookPoint::BranchPush), 100);
    let result = dispatch_pre(&dispatcher, HookPoint::BranchPush);
    assert!(result.is_ok());
}

fn response_report(message: Option<&str>) -> HandlerReport<HookResponse> {
    HandlerReport {
        outcome: HandlerOutcome::Returned(Ok(match message {
            Some(m) => HookResponse::with_message(m),
            None => HookResponse::empty(),
        })),
        overran: false,
    }
}

#[test]
fn test_dispatch_response_no_hooks() {
    let dispatcher: HookDispatcher<TestHook> = HookDispatcher::empty();
    let response = dispatcher.dispatch_response(HookPoint::BranchPush, Vec::new());
    assert!(response.message.is_none());
}

#[test]
fn test_dispatch_response_single_hook_with_message() {
    let dispatcher = HookDispatcher::from_hooks_default(vec![registered(
        "message_hook",
        Behaviour::Succeed,
        &[HookPoint::BranchPush],
    )]);
    let response =
        dispatcher.dispatch_response(HookPoint::BranchPush, vec![response_report(Some("hello from hook"))]);
    assert_eq!(response.message, Some("hello from hook".to_string()));
}

#[test]
fn test_dispatch_response_no_message() {
    let dispatcher =
        HookDispatcher::from_hooks_default(vec![registered("no_msg", Behaviour::Succeed, &[HookPoint::BranchPush])]);
    let response = dispatcher.dispatch_response(HookPoint::BranchPush, vec![response_report(None)]);
    assert!(response.message.is_none());
}

#[test]
fn test_dispatch_response_multiple_hooks_merge_messages() {
    let dispatcher = HookDispatcher::from_hooks_default(vec![
        registered("hook_a", Behaviour::Succeed, &[HookPoint::BranchPush]),
        registered("hook_b", Behaviour::Succeed, &[HookPoint::BranchPush]),
    ]);
    let response = dispatcher.dispatch_response(
        HookPoint::BranchPush,
        vec![response_report(Some("message A")), response_report(Some("message B"))],
    );
    assert_eq!(response.message, Some("message A\nmessage B".to_string()));
}

#[test]
fn test_dispatch_response_error_is_non_fatal() {
    let dispatcher = HookDispatcher::from_hooks_default(vec![
        registered("failing", Behaviour::Succeed, &[HookPoint::BranchPush]),
        registered("good", Behaviour::Succeed, &[HookPoint::BranchPush]),
    ]);
    let failing = HandlerReport {
        outcome: HandlerOutcome::Returned(Err(HookError::execution_failed("failing", "something broke"))),
        overran: false,
    };
    let response =
        dispatcher.dispatch_response(HookPoint::BranchPush, vec![failing, response_report(Some("still works"))]);
    assert_eq!(response.message, Some("still works".to_string()));
}

#[test]
fn test_dispatch_response_panic_isolation() {
    let dispatcher = HookDispatcher::from_hooks_default(vec![
        registered("panic", Behaviour::Succeed, &[HookPoint::BranchPush]),
        registered("safe", Behaviour::Succeed, &[HookPoint::BranchPush]),
    ]);
    let panicked = HandlerReport {
        outcome: HandlerOutcome::Panicked(extract_panic_message(PanicPayload::Str(
            "response handler panic".to_string(),
        ))),
        overran: false,
    };
    let response =
        dispatcher.dispatch_response(HookPoint::BranchPush, vec![panicked, response_report(Some("safe message"))]);
    assert_eq!(response.message, Some("safe message".to_string()));
}

#[test]
fn test_dispatch_response_wrong_hook_point() {
    let dispatcher =
        HookDispatcher::from_hooks_default(vec![registered("msg", Behaviour::Succeed, &[HookPoint::BranchPush])]);
    assert_eq!(dispatcher.hook_count(HookPoint::BranchDelete), 0);
    let response = dispatcher.dispatch_response(HookPoint::BranchDelete, Vec::new());
    assert!(response.message.is_none());
}

#[test]
fn overran_response_handler_contributes_nothing() {
    let dispatcher =
        HookDispatcher::from_hooks_default(vec![registered("slow", Behaviour::Succeed, &[HookPoint::BranchPush])]);
    let slow = HandlerReport {
        outcome: HandlerOutcome::Returned(Ok(HookResponse::with_message("late"))),
        overran: true,
    };
    let response = dispatcher.dispatch_response(HookPoint::BranchPush, vec![slow]);
    assert!(response.message.is_none());
}

#[test]
fn test_spawn_post_wrong_hook_point() {
    let dispatcher =
        HookDispatcher::from_hooks_default(vec![registered("test", Behaviour::Succeed, &[HookPoint::BranchPush])]);
    assert!(dispatcher.hook_indices(HookPoint::BranchDelete).is_empty());
}

#[test]
fn test_spawn_post_multiple_hooks() {
    let dispatcher = HookDispatcher::from_hooks_default(vec![
        registered("hook1", Behaviour::Succeed, &[HookPoint::BranchPush]),
        registered("hook2", Behaviour::Succeed, &[HookPoint::BranchPush]),
    ]);
    assert_eq!(dispatcher.hook_indices(HookPoint::BranchPush), vec![0, 1]);
}

#[test]
fn post_outcomes_settle_under_post_timeout() {
    let dispatcher =
        HookDispatcher::from_hooks_default(vec![registered("slow", Behaviour::Succeed, &[HookPoint::BranchPush])]);
    assert!(dispatcher.settle_post(0, HandlerOutcome::Returned(Ok(()))).is_ok());
    match dispatcher.settle_post(0, HandlerOutcome::TimedOut).unwrap_err() {
        HookError::Timeout { hook_name, timeout } => {
            assert_eq!(hook_name, "slow");
            assert_eq!(timeout, DEFAULT_POST_HANDLER_TIMEOUT);
        }
        _ => panic!("Expected Timeout error"),
    }
    match dispatcher
        .settle_post(0, HandlerOutcome::Panicked("Post-handler panicked!".to_string()))
        .unwrap_err()
    {
        HookError::Panic { hook_name, message } => {
            assert_eq!(hook_name, "slow");
            assert_eq!(message, "Post-handler panicked!");
        }
        _ => panic!("Expected Panic error"),
    }
}

#[test]
fn hooks_run_once_per_declared_point_in_registration_order() {
    let dispatcher = HookDispatcher::from_hooks_default(vec![
        registered("a", Behaviour::Succeed, &[HookPoint::BranchPush, HookPoint::BranchCreate]),
        registered("b", Behaviour::Succeed, &[HookPoint::BranchCreate]),
        registered("c", Behaviour::Succeed, &[]),
    ]);
    assert_eq!(dispatcher.hook_indices(HookPoint::BranchCreate), vec![0, 1]);
    assert_eq!(dispatcher.hook_indices(HookPoint::BranchPush), vec![0]);
    assert_eq!(dispatcher.hook_count(HookPoint::Obliterate), 0);
    assert!(dispatcher.has_hooks(HookPoint::BranchCreate));
    assert_eq!(dispatcher.total_hook_registrations(), 3);
    assert_eq!(dispatcher.hook_name(1), "b");
}

#[test]
fn panic_messages() {
    assert_eq!(extract_panic_message(PanicPayload::Str("a".to_string())), "a");
    assert_eq!(extract_panic_message(PanicPayload::Owned("b".to_string())), "b");
    assert_eq!(extract_panic_message(PanicPayload::Other), "Unknown panic");
}

#[test]
fn overrun_takes_precedence_over_result() {
    let r = settle_handler(
        "h",
        Duration::from_millis(5),
        HandlerReport {
            outcome: HandlerOutcome::<()>::Returned(Err(HookError::execution_failed("h", "x"))),
            overran: true,
        },
    );
    match r.unwrap_err() {
        HookError::Timeout { hook_name, timeout } => {
            assert_eq!(hook_name, "h");
            assert_eq!(timeout, Duration::from_millis(5));
        }
        _ => panic!("Expected Timeout error"),
    }
}

/// A hook whose pre-handler records the user it reads from the context.
struct ContextReadingHook {
    observed_user: std::cell::RefCell<Option<String>>,
}

#[test]
fn test_dispatch_pre_context_read_only() {
    let reader = ContextReadingHook { observed_user: std::cell::RefCell::new(None) };
    let dispatcher = HookDispatcher::from_hooks_default(vec![RegisteredHook {
        name: "reader".to_string(),
        hook: reader,
        points: vec![HookPoint::BranchPush],
    }]);
    let ctx = HookContext::builder()
        .correlation_id("test")
        .hook_point(HookPoint::BranchPush)
        .repository(RepositoryId::default())
        .user("test_user")
        .build();

    let reports: Vec<HandlerReport<()>> = dispatcher
        .hook_indices(HookPoint::BranchPush)
        .into_iter()
        .map(|i| {
            *dispatcher.hook(i).observed_user.borrow_mut() = ctx.user().map(|u| u.to_string());
            HandlerReport { outcome: HandlerOutcome::Returned(Ok(())), overran: false }
        })
        .collect();
    let result = dispatcher.dispatch_pre(HookPoint::BranchPush, reports);
    assert!(result.is_ok());

    // The hook read the user value.
    assert_eq!(*dispatcher.hook(0).observed_user.borrow(), Some("test_user".to_string()));
}
