//! The response trace layer: every gRPC call's response future is wrapped
//! to time the call from its first poll and to tell a call that completed
//! from one dropped before completing.
use std::time::Instant;

use vstd::prelude::*;

verus! {

/// The layer that wraps a service into a [`GrpcResponseTraceService`].
#[derive(Debug, Clone, Copy)]
pub struct GrpcResponseTraceLayer;

impl GrpcResponseTraceLayer {
    /// Wraps a service.
    pub fn layer<S>(&self, inner: S) -> (r: GrpcResponseTraceService<S>)
        ensures
            r.spec_service() == inner,
    {
        GrpcResponseTraceService { service: inner }
    }
}

/// A service whose response futures are traced.
#[derive(Debug, Clone)]
pub struct GrpcResponseTraceService<S> {
    service: S,
}

impl<S> GrpcResponseTraceService<S> {
    /// The wrapped service.
    pub closed spec fn spec_service(&self) -> S {
        self.service
    }

    /// The wrapped service, to be polled and called.
    pub fn service_mut(&mut self) -> (r: &mut S)
        ensures
            *r == old(self).spec_service(),
            final(self).spec_service() == *final(r),
    {
        &mut self.service
    }

    /// Wraps the response future of one call: not started, not completed.
    pub fn make_future<F>(&self, inner: F) -> (r: GrpcMetricsFuture<F>)
        ensures
            r.spec_inner() == inner,
            r.spec_clock().spec_started_at() is None,
            !r.spec_clock().spec_completed(),
    {
        GrpcMetricsFuture { inner, clock: ResponseClock::new() }
    }
}

/// When a call's response future was first polled, and whether it was
/// polled to completion.
#[derive(Debug, Clone, Copy)]
pub struct ResponseClock {
    started_at: Option<Instant>,
    polled_to_completion: bool,
}

impl ResponseClock {
    /// When the future was first polled, if it was.
    pub closed spec fn spec_started_at(&self) -> Option<Instant> {
        self.started_at
    }

    /// Whether the future completed.
    pub closed spec fn spec_completed(&self) -> bool {
        self.polled_to_completion
    }

    /// A clock for a future not yet polled.
    pub fn new() -> (r: Self)
        ensures
            r.spec_started_at() is None,
            !r.spec_completed(),
    {
        ResponseClock { started_at: None, polled_to_completion: false }
    }

    /// The start of the call, given the time of the current poll: the time
    /// of the first poll, which the first poll records.
    pub fn start(&mut self, now: Instant) -> (r: Instant)
        ensures
            final(self).spec_completed() == old(self).spec_completed(),
            match old(self).spec_started_at() {
                Some(t) => r == t && final(self).spec_started_at() == Some(t),
                None => r == now && final(self).spec_started_at() == Some(now),
            },
    {
        match self.started_at {
            Some(t) => t,
            None => {
                self.started_at = Some(now);
                now
            },
        }
    }

    /// Records that the future completed.
    pub fn complete(&mut self)
        ensures
            final(self).spec_completed(),
            final(self).spec_started_at() == old(self).spec_started_at(),
    {
        self.polled_to_completion = true;
    }

    /// Whether dropping the future now drops a call that never completed
    /// (which is reported as a dropped request).
    pub fn dropped_unfinished(&self) -> (r: bool)
        ensures
            r == !self.spec_completed(),
    {
        !self.polled_to_completion
    }
}

/// The traced response future of one call: the inner future and its clock.
pub struct GrpcMetricsFuture<F> {
    inner: F,
    clock: ResponseClock,
}

impl<F> GrpcMetricsFuture<F> {
    /// The inner future.
    pub closed spec fn spec_inner(&self) -> F {
        self.inner
    }

    /// The clock of the call.
    pub closed spec fn spec_clock(&self) -> ResponseClock {
        self.clock
    }

    /// The inner future and the clock, for polling.
    pub fn into_parts(self) -> (r: (F, ResponseClock))
        ensures
            r.0 == self.spec_inner(),
            r.1 == self.spec_clock(),
    {
        (self.inner, self.clock)
    }
}

} // verus!
