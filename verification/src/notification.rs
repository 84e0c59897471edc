//! The local notification service's decisions: which subscriptions are
//! accepted, and the refusal of publishing.
use vstd::prelude::*;
use vstd::string::*;

use crate::hooks::context::RepositoryId;
use crate::status::RpcCode;
use crate::status::RpcStatus;

verus! {

/// The local notification service, over the sender that fans events out
/// to subscribers.
pub struct NotificationService<S> {
    sender: S,
}

impl<S> NotificationService<S> {
    /// The sender this service registers subscribers with.
    pub closed spec fn spec_sender(&self) -> S {
        self.sender
    }

    /// Creates the service over a sender.
    pub fn new(sender: S) -> (r: Self)
        ensures
            r.spec_sender() == sender,
    {
        NotificationService { sender }
    }

    /// The sender this service registers subscribers with.
    pub fn sender(&self) -> (r: &S)
        ensures
            *r == self.spec_sender(),
    {
        &self.sender
    }

    /// Accepts a subscription to a repository's events, or refuses the zero
    /// repository as an invalid stream (a failed precondition).
    pub fn check_subscription(&self, repository: RepositoryId) -> (r: Result<(), RpcStatus>)
        ensures
            repository.value == 0 ==> (r matches Err(s) && s.code == RpcCode::FailedPrecondition
                && s.message@ == "invalid stream"@),
            repository.value != 0 ==> r is Ok,
    {
        if repository.is_zero() {
            Err(RpcStatus { code: RpcCode::FailedPrecondition, message: String::from_str("invalid stream") })
        } else {
            Ok(())
        }
    }

    /// The answer to every publish request: the local service does not
    /// accept published events (permission denied).
    pub fn publish(&self) -> (r: RpcStatus)
        ensures
            r.code == RpcCode::PermissionDenied,
            r.message@ == "Publish is not supported by the local notification service"@,
    {
        RpcStatus {
            code: RpcCode::PermissionDenied,
            message: String::from_str("Publish is not supported by the local notification service"),
        }
    }
}

} // verus!
