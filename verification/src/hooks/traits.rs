//! Hook points, status codes, hook errors and hook responses.
use std::time::Duration;

use vstd::prelude::*;
use vstd::string::*;

verus! {

/// Extension points where hooks can be triggered.
#[derive(Debug, Clone, Copy, Hash, PartialEq, Eq, Structural)]
pub enum HookPoint {
    /// A branch is pushed to.
    BranchPush,
    /// A new branch is created.
    BranchCreate,
    /// A branch is deleted.
    BranchDelete,
    /// A new repository is created.
    RepositoryCreate,
    /// Data is obliterated.
    Obliterate,
}

/// The name under which a hook point is displayed.
pub open spec fn hook_point_name(p: HookPoint) -> Seq<char> {
    match p {
        HookPoint::BranchPush => "BranchPush"@,
        HookPoint::BranchCreate => "BranchCreate"@,
        HookPoint::BranchDelete => "BranchDelete"@,
        HookPoint::RepositoryCreate => "RepositoryCreate"@,
        HookPoint::Obliterate => "Obliterate"@,
    }
}

/// Every hook point, in declaration order.
pub open spec fn all_hook_points() -> Seq<HookPoint> {
    seq![
        HookPoint::BranchPush,
        HookPoint::BranchCreate,
        HookPoint::BranchDelete,
        HookPoint::RepositoryCreate,
        HookPoint::Obliterate,
    ]
}

impl HookPoint {
    /// Returns all defined hook points.
    pub fn all() -> (r: &'static [HookPoint])
        ensures
            r@ == all_hook_points(),
    {
        let r: &'static [HookPoint] = &[
            HookPoint::BranchPush,
            HookPoint::BranchCreate,
            HookPoint::BranchDelete,
            HookPoint::RepositoryCreate,
            HookPoint::Obliterate,
        ];
        r
    }

    /// The display name of this hook point.
    pub fn name(&self) -> (r: &'static str)
        ensures
            r@ == hook_point_name(*self),
    {
        match self {
            HookPoint::BranchPush => "BranchPush",
            HookPoint::BranchCreate => "BranchCreate",
            HookPoint::BranchDelete => "BranchDelete",
            HookPoint::RepositoryCreate => "RepositoryCreate",
            HookPoint::Obliterate => "Obliterate",
        }
    }

    /// The display text of this hook point, as an owned string.
    pub fn to_string(&self) -> (r: String)
        ensures
            r@ == hook_point_name(*self),
    {
        String::from_str(self.name())
    }
}

/// Semantic status codes that hooks use to indicate the kind of rejection;
/// each maps to the gRPC status of the same name.
#[derive(Debug, Clone, Copy, PartialEq, Eq, Structural)]
pub enum StatusCode {
    /// Policy or authorization violations.
    PermissionDenied,
    /// General business rule violations.
    FailedPrecondition,
    /// Rate limiting, quota exceeded.
    ResourceExhausted,
    /// Validation failures.
    InvalidArgument,
    /// Conflict/concurrency issues.
    Aborted,
    /// Internal failure.
    Internal,
}

/// The name under which a status code is displayed (its gRPC name).
pub open spec fn status_code_name(c: StatusCode) -> Seq<char> {
    match c {
        StatusCode::PermissionDenied => "PERMISSION_DENIED"@,
        StatusCode::FailedPrecondition => "FAILED_PRECONDITION"@,
        StatusCode::ResourceExhausted => "RESOURCE_EXHAUSTED"@,
        StatusCode::InvalidArgument => "INVALID_ARGUMENT"@,
        StatusCode::Aborted => "ABORTED"@,
        StatusCode::Internal => "INTERNAL"@,
    }
}

impl StatusCode {
    /// The gRPC name of this status code.
    pub fn name(&self) -> (r: &'static str)
        ensures
            r@ == status_code_name(*self),
    {
        match self {
            StatusCode::PermissionDenied => "PERMISSION_DENIED",
            StatusCode::FailedPrecondition => "FAILED_PRECONDITION",
            StatusCode::ResourceExhausted => "RESOURCE_EXHAUSTED",
            StatusCode::InvalidArgument => "INVALID_ARGUMENT",
            StatusCode::Aborted => "ABORTED",
            StatusCode::Internal => "INTERNAL",
        }
    }

    /// The display text of this status code, as an owned string.
    pub fn to_string(&self) -> (r: String)
        ensures
            r@ == status_code_name(*self),
    {
        String::from_str(self.name())
    }
}

/// Errors that can occur during hook operations.
#[derive(Debug, Clone)]
pub enum HookError {
    /// The hook rejected the operation with a semantic status code.
    Rejected { hook_name: String, message: String, status: StatusCode },
    /// The hook's execution failed.
    ExecutionFailed { hook_name: String, message: String },
    /// The hook did not complete within the configured timeout.
    Timeout { hook_name: String, timeout: Duration },
    /// The hook panicked; the panic was caught.
    Panic { hook_name: String, message: String },
    /// The hook's configuration is invalid.
    ConfigError { hook_name: String, message: String },
    /// The hook failed to initialize.
    InitError { hook_name: String, message: String },
}

impl HookError {
    /// The name of the hook that caused the error.
    pub open spec fn spec_hook_name(&self) -> Seq<char> {
        match self {
            HookError::Rejected { hook_name, .. } => hook_name@,
            HookError::ExecutionFailed { hook_name, .. } => hook_name@,
            HookError::Timeout { hook_name, .. } => hook_name@,
            HookError::Panic { hook_name, .. } => hook_name@,
            HookError::ConfigError { hook_name, .. } => hook_name@,
            HookError::InitError { hook_name, .. } => hook_name@,
        }
    }

    /// The status code carried by a rejection, and nothing for other errors.
    pub open spec fn spec_status_code(&self) -> Option<StatusCode> {
        match self {
            HookError::Rejected { status, .. } => Some(*status),
            _ => None,
        }
    }

    /// Creates a rejection error with a semantic status code.
    pub fn rejected(hook_name: &str, message: &str, status: StatusCode) -> (r: Self)
        ensures
            r matches HookError::Rejected { hook_name: n, message: m, status: s }
                && n@ == hook_name@ && m@ == message@ && s == status,
            r.spec_hook_name() == hook_name@,
    {
        HookError::Rejected {
            hook_name: String::from_str(hook_name),
            message: String::from_str(message),
            status,
        }
    }

    /// Creates a rejection error with the default status (`Internal`).
    pub fn rejected_default(hook_name: &str, message: &str) -> (r: Self)
        ensures
            r matches HookError::Rejected { hook_name: n, message: m, status: s }
                && n@ == hook_name@ && m@ == message@ && s == StatusCode::Internal,
            r.spec_hook_name() == hook_name@,
    {
        Self::rejected(hook_name, message, StatusCode::Internal)
    }

    /// Creates an execution-failed error.
    pub fn execution_failed(hook_name: &str, message: &str) -> (r: Self)
        ensures
            r matches HookError::ExecutionFailed { hook_name: n, message: m }
                && n@ == hook_name@ && m@ == message@,
            r.spec_hook_name() == hook_name@,
    {
        HookError::ExecutionFailed {
            hook_name: String::from_str(hook_name),
            message: String::from_str(message),
        }
    }

    /// Creates a timeout error.
    pub fn timeout(hook_name: &str, timeout: Duration) -> (r: Self)
        ensures
            r matches HookError::Timeout { hook_name: n, timeout: t }
                && n@ == hook_name@ && t == timeout,
            r.spec_hook_name() == hook_name@,
    {
        HookError::Timeout { hook_name: String::from_str(hook_name), timeout }
    }

    /// Creates a panic error.
    pub fn panic(hook_name: &str, message: &str) -> (r: Self)
        ensures
            r matches HookError::Panic { hook_name: n, message: m }
                && n@ == hook_name@ && m@ == message@,
            r.spec_hook_name() == hook_name@,
    {
        HookError::Panic {
            hook_name: String::from_str(hook_name),
            message: String::from_str(message),
        }
    }

    /// Creates a configuration error.
    pub fn config_error(hook_name: &str, message: &str) -> (r: Self)
        ensures
            r matches HookError::ConfigError { hook_name: n, message: m }
                && n@ == hook_name@ && m@ == message@,
            r.spec_hook_name() == hook_name@,
    {
        HookError::ConfigError {
            hook_name: String::from_str(hook_name),
            message: String::from_str(message),
        }
    }

    /// Creates an initialization error.
    pub fn init_error(hook_name: &str, message: &str) -> (r: Self)
        ensures
            r matches HookError::InitError { hook_name: n, message: m }
                && n@ == hook_name@ && m@ == message@,
            r.spec_hook_name() == hook_name@,
    {
        HookError::InitError {
            hook_name: String::from_str(hook_name),
            message: String::from_str(message),
        }
    }

    /// Returns the name of the hook that caused the error.
    pub fn hook_name(&self) -> (r: &str)
        ensures
            r@ == self.spec_hook_name(),
    {
        match self {
            HookError::Rejected { hook_name, .. } => hook_name.as_str(),
            HookError::ExecutionFailed { hook_name, .. } => hook_name.as_str(),
            HookError::Timeout { hook_name, .. } => hook_name.as_str(),
            HookError::Panic { hook_name, .. } => hook_name.as_str(),
            HookError::ConfigError { hook_name, .. } => hook_name.as_str(),
            HookError::InitError { hook_name, .. } => hook_name.as_str(),
        }
    }

    /// The text of this error before any duration it carries: the whole text
    /// for every error but `Timeout`, whose text goes on with the duration.
    pub open spec fn spec_text_head(&self) -> Seq<char> {
        match self {
            HookError::Rejected { hook_name, message, .. } =>
                "Hook '"@ + hook_name@ + "' rejected: "@ + message@,
            HookError::ExecutionFailed { hook_name, message } =>
                "Hook '"@ + hook_name@ + "' execution failed: "@ + message@,
            HookError::Timeout { hook_name, .. } =>
                "Hook '"@ + hook_name@ + "' timed out after "@,
            HookError::Panic { hook_name, message } =>
                "Hook '"@ + hook_name@ + "' panicked: "@ + message@,
            HookError::ConfigError { hook_name, message } =>
                "Hook '"@ + hook_name@ + "' configuration error: "@ + message@,
            HookError::InitError { hook_name, message } =>
                "Hook '"@ + hook_name@ + "' initialization failed: "@ + message@,
        }
    }

    /// The human-readable text of this error.
    pub fn to_string(&self) -> (r: String)
        ensures
            !(self is Timeout) ==> r@ == self.spec_text_head(),
            self matches HookError::Timeout { timeout, .. } ==> r@ == self.spec_text_head()
                + duration_debug_text(*timeout),
    {
        let mut r = String::from_str("Hook '");
        match self {
            HookError::Rejected { hook_name, message, .. } => {
                r.append(hook_name.as_str());
                r.append("' rejected: ");
                r.append(message.as_str());
            },
            HookError::ExecutionFailed { hook_name, message } => {
                r.append(hook_name.as_str());
                r.append("' execution failed: ");
                r.append(message.as_str());
            },
            HookError::Timeout { hook_name, timeout } => {
                r.append(hook_name.as_str());
                r.append("' timed out after ");
                let t = duration_text(timeout);
                r.append(t.as_str());
            },
            HookError::Panic { hook_name, message } => {
                r.append(hook_name.as_str());
                r.append("' panicked: ");
                r.append(message.as_str());
            },
            HookError::ConfigError { hook_name, message } => {
                r.append(hook_name.as_str());
                r.append("' configuration error: ");
                r.append(message.as_str());
            },
            HookError::InitError { hook_name, message } => {
                r.append(hook_name.as_str());
                r.append("' initialization failed: ");
                r.append(message.as_str());
            },
        }
        r
    }

    /// Returns the status code if this is a rejection.
    pub fn status_code(&self) -> (r: Option<StatusCode>)
        ensures
            r == self.spec_status_code(),
    {
        match self {
            HookError::Rejected { status, .. } => Some(*status),
            _ => None,
        }
    }
}

/// The text std's `Debug` gives a duration (such as `5s` or `200ms`).
pub uninterp spec fn duration_debug_text(d: Duration) -> Seq<char>;

/// Renders a duration as std's `Debug` does; the text is named by
/// `duration_debug_text` of the duration (std documents no format for it).
#[verifier::external_body]
fn duration_text(d: &Duration) -> (r: String)
    ensures
        r@ == duration_debug_text(*d),
{
    format!("{d:?}")
}

/// Response data that hooks can contribute to the client response.
#[derive(Debug, Clone)]
pub struct HookResponse {
    /// Optional message to include in the response to the client.
    pub message: Option<String>,
}

impl HookResponse {
    /// Creates an empty response with no message.
    pub fn empty() -> (r: Self)
        ensures
            r.message is None,
    {
        HookResponse { message: None }
    }

    /// Creates a response with a message.
    pub fn with_message(message: &str) -> (r: Self)
        ensures
            r.message matches Some(m) && m@ == message@,
    {
        HookResponse { message: Some(String::from_str(message)) }
    }
}

impl Default for HookResponse {
    fn default() -> (r: Self)
        ensures
            r.message is None,
    {
        HookResponse::empty()
    }
}

} // verus!
