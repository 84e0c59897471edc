//! The hook dispatcher: which hooks run at a hook point, in which order, and
//! what the outcomes of their handlers amount to.
//!
//! Running a handler (catching its panic, measuring its time, spawning the
//! post-handler task) is left to the caller; the dispatcher decides what each
//! outcome means and how the outcomes of one dispatch combine.
use std::time::Duration;

use vstd::prelude::*;
use vstd::string::*;

use crate::hooks::traits::HookError;
use crate::hooks::traits::HookPoint;
use crate::hooks::traits::HookResponse;

verus! {

/// The duration of the given number of milliseconds
/// (`Duration::from_millis`).
pub uninterp spec fn duration_from_millis(ms: u64) -> Duration;

/// `Duration::from_millis`: the duration is named by `duration_from_millis`
/// of its argument.
#[verifier::external_body]
fn millis(ms: u64) -> (r: Duration)
    ensures
        r == duration_from_millis(ms),
{
    Duration::from_millis(ms)
}

/// Default timeout for pre-handler (and response-handler) execution: 200 ms.
pub open spec fn default_pre_handler_timeout() -> Duration {
    duration_from_millis(200)
}

/// Default timeout for post-handler execution: 30 s.
pub open spec fn default_post_handler_timeout() -> Duration {
    duration_from_millis(30000)
}

/// What a caught panic carried.
pub enum PanicPayload {
    /// A `&str` message.
    Str(String),
    /// A `String` message.
    Owned(String),
    /// Anything else.
    Other,
}

/// The message that a panic payload stands for.
pub open spec fn panic_payload_message(p: PanicPayload) -> Seq<char> {
    match p {
        PanicPayload::Str(s) => s@,
        PanicPayload::Owned(s) => s@,
        PanicPayload::Other => "Unknown panic"@,
    }
}

/// Extracts a message from a panic payload.
pub fn extract_panic_message(payload: PanicPayload) -> (r: String)
    ensures
        r@ == panic_payload_message(payload),
{
    match payload {
        PanicPayload::Str(s) => s,
        PanicPayload::Owned(s) => s,
        PanicPayload::Other => String::from_str("Unknown panic"),
    }
}

/// How the run of one handler ended.
pub enum HandlerOutcome<T> {
    /// The handler returned this result.
    Returned(Result<T, HookError>),
    /// The handler panicked with this message.
    Panicked(String),
    /// The handler was stopped when its timeout elapsed.
    TimedOut,
}

/// The run of one handler, as the caller observed it.
pub struct HandlerReport<T> {
    /// How the handler ended.
    pub outcome: HandlerOutcome<T>,
    /// Whether it took longer than its timeout (measured after it ended).
    pub overran: bool,
}

/// Whether a handler's run counts as a success.
pub open spec fn report_succeeds<T>(report: HandlerReport<T>) -> bool {
    !report.overran && report.outcome matches HandlerOutcome::Returned(Ok(_))
}

/// Whether `r` is what a handler's run of the named hook amounts to: an
/// overrun or a stopped run is a timeout error, a panic a panic error, and
/// otherwise the handler's own result.
pub open spec fn settled<T>(
    name: Seq<char>,
    timeout: Duration,
    report: HandlerReport<T>,
    r: Result<T, HookError>,
) -> bool {
    if report.overran || report.outcome is TimedOut {
        r matches Err(HookError::Timeout { hook_name, timeout: t }) && hook_name@ == name && t == timeout
    } else {
        match report.outcome {
            HandlerOutcome::Returned(res) => r == res,
            HandlerOutcome::Panicked(m) => r matches Err(HookError::Panic { hook_name, message })
                && hook_name@ == name && message@ == m@,
            HandlerOutcome::TimedOut => false,
        }
    }
}

/// Decides what the run of one handler of the named hook amounts to.
pub fn settle_handler<T>(name: &str, timeout: Duration, report: HandlerReport<T>) -> (r: Result<T, HookError>)
    ensures
        settled(name@, timeout, report, r),
        r is Ok <==> report_succeeds(report),
{
    let HandlerReport { outcome, overran } = report;
    if overran {
        return Err(HookError::Timeout { hook_name: String::from_str(name), timeout });
    }
    match outcome {
        HandlerOutcome::Returned(res) => res,
        HandlerOutcome::Panicked(message) => Err(HookError::Panic {
            hook_name: String::from_str(name),
            message,
        }),
        HandlerOutcome::TimedOut => Err(HookError::Timeout {
            hook_name: String::from_str(name),
            timeout,
        }),
    }
}

/// A hook known to the dispatcher, with its name and the hook points it
/// declared.
pub struct RegisteredHook<H> {
    pub name: String,
    pub hook: H,
    pub points: Vec<HookPoint>,
}

/// How many times `p` occurs in `points`.
pub open spec fn point_count(points: Seq<HookPoint>, p: HookPoint) -> nat
    decreases points.len(),
{
    if points.len() == 0 {
        0
    } else {
        point_count(points.drop_last(), p) + if points.last() == p { 1nat } else { 0nat }
    }
}

/// The hooks that run at `p`, as positions in registration order: each hook
/// once for every time it declared `p`.
pub open spec fn hooks_at(regs: Seq<Seq<HookPoint>>, p: HookPoint) -> Seq<int>
    decreases regs.len(),
{
    if regs.len() == 0 {
        Seq::empty()
    } else {
        hooks_at(regs.drop_last(), p) + Seq::new(
            point_count(regs.last(), p),
            |k: int| (regs.len() - 1) as int,
        )
    }
}

/// How many times `p` is declared over all hooks.
pub open spec fn point_occurrences(regs: Seq<Seq<HookPoint>>, p: HookPoint) -> nat
    decreases regs.len(),
{
    if regs.len() == 0 {
        0
    } else {
        point_occurrences(regs.drop_last(), p) + point_count(regs.last(), p)
    }
}

/// Law: a hook point has as many hooks to run as the hooks declared it,
/// counting each declaration (so `hook_count` is that number, and
/// `has_hooks` holds exactly when it is positive).
pub proof fn lemma_hooks_at_counts_declarations(regs: Seq<Seq<HookPoint>>, p: HookPoint)
    ensures
        hooks_at(regs, p).len() == point_occurrences(regs, p),
    decreases regs.len(),
{
    if regs.len() > 0 {
        lemma_hooks_at_counts_declarations(regs.drop_last(), p);
    }
}

/// The number of hook-point declarations over all hooks.
pub open spec fn total_declarations(regs: Seq<Seq<HookPoint>>) -> nat
    decreases regs.len(),
{
    if regs.len() == 0 {
        0
    } else {
        total_declarations(regs.drop_last()) + regs.last().len()
    }
}

/// A prefix of the hooks has no more declarations than all of them.
proof fn lemma_prefix_declarations(regs: Seq<Seq<HookPoint>>, n: int)
    requires
        0 <= n <= regs.len(),
    ensures
        total_declarations(regs.subrange(0, n)) <= total_declarations(regs),
    decreases regs.len(),
{
    if n < regs.len() {
        assert(regs.drop_last() =~= regs.subrange(0, regs.len() - 1));
        assert(regs.drop_last().subrange(0, n) =~= regs.subrange(0, n));
        lemma_prefix_declarations(regs.drop_last(), n);
    } else {
        assert(regs.subrange(0, n) =~= regs);
    }
}

/// The declared hook points of each registered hook, in registration order.
pub open spec fn declared_points<H>(hooks: Seq<RegisteredHook<H>>) -> Seq<Seq<HookPoint>> {
    hooks.map_values(|h: RegisteredHook<H>| h.points@)
}

/// Dispatcher of the hooks registered at each hook point.
pub struct HookDispatcher<H> {
    hooks: Vec<RegisteredHook<H>>,
    pre_handler_timeout: Duration,
    post_handler_timeout: Duration,
}

impl<H> HookDispatcher<H> {
    /// The declared hook points of each hook, in registration order.
    pub closed spec fn spec_points(&self) -> Seq<Seq<HookPoint>> {
        declared_points(self.hooks@)
    }

    /// The names of the hooks, in registration order.
    pub closed spec fn spec_names(&self) -> Seq<Seq<char>> {
        self.hooks@.map_values(|h: RegisteredHook<H>| h.name@)
    }

    /// The number of hooks known to the dispatcher.
    pub closed spec fn spec_len(&self) -> nat {
        self.hooks@.len()
    }

    /// The hook at a position in registration order.
    pub closed spec fn spec_hook(&self, i: int) -> H {
        self.hooks@[i].hook
    }

    /// The configured pre-handler timeout.
    pub closed spec fn spec_pre_timeout(&self) -> Duration {
        self.pre_handler_timeout
    }

    /// The configured post-handler timeout.
    pub closed spec fn spec_post_timeout(&self) -> Duration {
        self.post_handler_timeout
    }

    /// The hooks that run at `p`, as positions in registration order.
    pub open spec fn spec_hooks_at(&self, p: HookPoint) -> Seq<int> {
        hooks_at(self.spec_points(), p)
    }

    /// Creates a dispatcher for the given hooks, each with its name and the
    /// hook points it declared, and the given timeouts.
    pub fn new(hooks: Vec<RegisteredHook<H>>, pre_handler_timeout: Duration, post_handler_timeout: Duration) -> (r: Self)
        ensures
            r.spec_points() == declared_points(hooks@),
            r.spec_names() == hooks@.map_values(|h: RegisteredHook<H>| h.name@),
            r.spec_len() == hooks@.len(),
            forall|i: int| 0 <= i < hooks@.len() ==> r.spec_hook(i) == (#[trigger] hooks@[i]).hook,
            r.spec_pre_timeout() == pre_handler_timeout,
            r.spec_post_timeout() == post_handler_timeout,
    {
        HookDispatcher { hooks, pre_handler_timeout, post_handler_timeout }
    }

    /// Creates a dispatcher with the default timeouts (200 ms before, 30 s
    /// after the operation).
    pub fn from_hooks_default(hooks: Vec<RegisteredHook<H>>) -> (r: Self)
        ensures
            r.spec_points() == declared_points(hooks@),
            r.spec_names() == hooks@.map_values(|h: RegisteredHook<H>| h.name@),
            r.spec_len() == hooks@.len(),
            forall|i: int| 0 <= i < hooks@.len() ==> r.spec_hook(i) == (#[trigger] hooks@[i]).hook,
            r.spec_pre_timeout() == default_pre_handler_timeout(),
            r.spec_post_timeout() == default_post_handler_timeout(),
    {
        Self::new(hooks, millis(200), millis(30000))
    }

    /// Creates a dispatcher with no hooks and the default timeouts.
    pub fn empty() -> (r: Self)
        ensures
            r.spec_len() == 0,
            r.spec_points() == Seq::<Seq<HookPoint>>::empty(),
            r.spec_pre_timeout() == default_pre_handler_timeout(),
            r.spec_post_timeout() == default_post_handler_timeout(),
    {
        let r = Self::new(Vec::new(), millis(200), millis(30000));
        assert(r.spec_points() =~= Seq::<Seq<HookPoint>>::empty());
        r
    }

    /// The positions (in registration order) of the hooks that run at
    /// `point`, a hook once for every time it declared the point.
    pub fn hook_indices(&self, point: HookPoint) -> (r: Vec<usize>)
        ensures
            r@.map_values(|i: usize| i as int) == self.spec_hooks_at(point),
            forall|k: int| 0 <= k < r@.len() ==> r@[k] < self.spec_len(),
    {
        let ghost regs = self.spec_points();
        let mut r: Vec<usize> = Vec::new();
        let mut i: usize = 0;
        while i < self.hooks.len()
            invariant
                0 <= i <= self.hooks@.len(),
                regs == declared_points(self.hooks@),
                regs.len() == self.hooks@.len(),
                r@.map_values(|x: usize| x as int) == hooks_at(regs.subrange(0, i as int), point),
                forall|k: int| 0 <= k < r@.len() ==> r@[k] < i,
            decreases self.hooks@.len() - i,
        {
            let points = &self.hooks[i].points;
            let ghost base = r@.map_values(|x: usize| x as int);
            let mut j: usize = 0;
            while j < points.len()
                invariant
                    0 <= i < self.hooks@.len(),
                    points@ == regs[i as int],
                    0 <= j <= points@.len(),
                    r@.map_values(|x: usize| x as int) == base + Seq::new(
                        point_count(points@.subrange(0, j as int), point),
                        |k: int| i as int,
                    ),
                    forall|k: int| 0 <= k < r@.len() ==> r@[k] <= i,
                decreases points@.len() - j,
            {
                proof {
                    assert(points@.subrange(0, j + 1).drop_last() =~= points@.subrange(0, j as int));
                    assert(points@.subrange(0, j + 1).last() == points@[j as int]);
                }
                if points[j] == point {
                    let ghost prev = r@;
                    r.push(i);
                    proof {
                        assert(point_count(points@.subrange(0, j + 1), point)
                            == point_count(points@.subrange(0, j as int), point) + 1);
                        assert(r@.map_values(|x: usize| x as int) =~= prev.map_values(|x: usize| x as int).push(i as int));
                        assert(r@.map_values(|x: usize| x as int) =~= base + Seq::new(
                            point_count(points@.subrange(0, j + 1), point),
                            |k: int| i as int,
                        ));
                    }
                } else {
                    proof {
                        assert(Seq::new(point_count(points@.subrange(0, j + 1), point), |k: int| i as int)
                            =~= Seq::new(point_count(points@.subrange(0, j as int), point), |k: int| i as int));
                    }
                }
                j = j + 1;
            }
            proof {
                assert(points@.subrange(0, points@.len() as int) =~= points@);
                assert(regs.subrange(0, i + 1).drop_last() =~= regs.subrange(0, i as int));
                assert(regs.subrange(0, i + 1).last() == regs[i as int]);
            }
            i = i + 1;
        }
        proof {
            assert(regs.subrange(0, regs.len() as int) =~= regs);
        }
        r
    }

    /// The number of hooks registered for a hook point.
    pub fn hook_count(&self, point: HookPoint) -> (r: usize)
        ensures
            r == self.spec_hooks_at(point).len(),
            r == point_occurrences(self.spec_points(), point),
    {
        proof {
            lemma_hooks_at_counts_declarations(self.spec_points(), point);
        }
        self.hook_indices(point).len()
    }

    /// The total number of hook registrations over all hook points; a hook
    /// registered for several points counts once for each.
    pub fn total_hook_registrations(&self) -> (r: usize)
        requires
            total_declarations(self.spec_points()) <= usize::MAX,
        ensures
            r == total_declarations(self.spec_points()),
    {
        let ghost regs = self.spec_points();
        let mut total: usize = 0;
        let mut i: usize = 0;
        while i < self.hooks.len()
            invariant
                0 <= i <= self.hooks@.len(),
                regs == declared_points(self.hooks@),
                total == total_declarations(regs.subrange(0, i as int)),
                total_declarations(regs) <= usize::MAX,
            decreases self.hooks@.len() - i,
        {
            proof {
                assert(regs.subrange(0, i + 1).drop_last() =~= regs.subrange(0, i as int));
                lemma_prefix_declarations(regs, i + 1);
            }
            total = total + self.hooks[i].points.len();
            i = i + 1;
        }
        proof {
            assert(regs.subrange(0, regs.len() as int) =~= regs);
        }
        total
    }

    /// Whether any hooks are registered for a hook point.
    pub fn has_hooks(&self, point: HookPoint) -> (r: bool)
        ensures
            r == (self.spec_hooks_at(point).len() > 0),
    {
        self.hook_count(point) > 0
    }

    /// The configured pre-handler timeout.
    pub fn pre_handler_timeout(&self) -> (r: Duration)
        ensures
            r == self.spec_pre_timeout(),
    {
        self.pre_handler_timeout
    }

    /// The configured post-handler timeout.
    pub fn post_handler_timeout(&self) -> (r: Duration)
        ensures
            r == self.spec_post_timeout(),
    {
        self.post_handler_timeout
    }

    /// The hook at a position in registration order.
    pub fn hook(&self, index: usize) -> (r: &H)
        requires
            index < self.spec_len(),
        ensures
            *r == self.spec_hook(index as int),
    {
        &self.hooks[index].hook
    }

    /// The name of the hook at a position in registration order.
    pub fn hook_name(&self, index: usize) -> (r: &str)
        requires
            index < self.spec_len(),
        ensures
            r@ == self.spec_names()[index as int],
    {
        self.hooks[index].name.as_str()
    }
}

/// The messages that a dispatch of response handlers collects, in order:
/// one from each handler that succeeded with a message.
pub open spec fn response_messages(reports: Seq<HandlerReport<HookResponse>>) -> Seq<Seq<char>>
    decreases reports.len(),
{
    if reports.len() == 0 {
        Seq::empty()
    } else {
        let rest = response_messages(reports.drop_last());
        match report_message(reports.last()) {
            Some(m) => rest.push(m),
            None => rest,
        }
    }
}

/// The message a response handler's run contributes: its message when it
/// succeeded with one.
pub open spec fn report_message(report: HandlerReport<HookResponse>) -> Option<Seq<char>> {
    if report.overran {
        None
    } else {
        match report.outcome {
            HandlerOutcome::Returned(Ok(resp)) => opt_text(resp.message),
            _ => None,
        }
    }
}

/// Messages joined with newlines.
pub open spec fn join_lines(msgs: Seq<Seq<char>>) -> Seq<char>
    decreases msgs.len(),
{
    if msgs.len() == 0 {
        Seq::empty()
    } else if msgs.len() == 1 {
        msgs[0]
    } else {
        join_lines(msgs.drop_last()) + "\n"@ + msgs.last()
    }
}

/// The merged message of a dispatch: none when no handler gave one, else
/// all given messages joined with newlines.
pub open spec fn merged_message(msgs: Seq<Seq<char>>) -> Option<Seq<char>> {
    if msgs.len() == 0 {
        None
    } else {
        Some(join_lines(msgs))
    }
}

/// The view of an optional string.
pub open spec fn opt_text(s: Option<String>) -> Option<Seq<char>> {
    match s {
        Some(v) => Some(v@),
        None => None,
    }
}

impl<H> HookDispatcher<H> {
    /// The name of the hook behind the `k`-th run at `p`.
    pub open spec fn spec_name_at(&self, p: HookPoint, k: int) -> Seq<char> {
        self.spec_names()[self.spec_hooks_at(p)[k]]
    }

    /// Decides the result of the pre-handlers of a hook point from the runs
    /// of all of them, given in registration order (every pre-handler runs,
    /// even after one has failed). The first run that did not succeed gives
    /// the error, which vetoes the operation.
    pub fn dispatch_pre(&self, point: HookPoint, reports: Vec<HandlerReport<()>>) -> (r: Result<(), HookError>)
        requires
            reports@.len() == self.spec_hooks_at(point).len(),
        ensures
            r is Ok <==> (forall|k: int| 0 <= k < reports@.len() ==> report_succeeds(#[trigger] reports@[k])),
            r matches Err(e) ==> exists|k: int| 0 <= k < reports@.len()
                && !report_succeeds(#[trigger] reports@[k])
                && (forall|j: int| 0 <= j < k ==> report_succeeds(#[trigger] reports@[j]))
                && settled(self.spec_name_at(point, k), self.spec_pre_timeout(), reports@[k], Err(e)),
    {
        let indices = self.hook_indices(point);
        let ghost orig = reports@;
        let ghost n = orig.len() as int;
        let mut rest = reports;
        let mut first_error: Option<HookError> = None;
        let mut k: usize = 0;
        while k < indices.len()
            invariant
                indices@.len() == n,
                orig.len() == n,
                0 <= k <= n,
                rest@ == orig.subrange(k as int, n),
                indices@.map_values(|i: usize| i as int) == self.spec_hooks_at(point),
                forall|m: int| 0 <= m < indices@.len() ==> indices@[m] < self.spec_len(),
                first_error is None <==> (forall|j: int| 0 <= j < k ==> report_succeeds(#[trigger] orig[j])),
                first_error matches Some(e) ==> exists|m: int| 0 <= m < k
                    && !report_succeeds(#[trigger] orig[m])
                    && (forall|j: int| 0 <= j < m ==> report_succeeds(#[trigger] orig[j]))
                    && settled(self.spec_name_at(point, m), self.spec_pre_timeout(), orig[m], Err(e)),
            decreases n - k,
        {
            let report = rest.remove(0);
            proof {
                assert(report == orig[k as int]);
                assert(rest@ =~= orig.subrange(k + 1, n));
                assert(self.spec_hooks_at(point)[k as int] == indices@[k as int] as int);
            }
            let name = self.hook_name(indices[k]);
            let settled_result = settle_handler(name, self.pre_handler_timeout, report);
            match settled_result {
                Ok(()) => {},
                Err(e) => {
                    if first_error.is_none() {
                        first_error = Some(e);
                    }
                },
            }
            k = k + 1;
        }
        match first_error {
            Some(e) => Err(e),
            None => Ok(()),
        }
    }

    /// Decides the merged response of the response handlers of a hook point
    /// from the runs of all of them, given in registration order. Failures
    /// are not fatal: they contribute nothing. The messages of the handlers
    /// that succeeded with one are joined with newlines.
    pub fn dispatch_response(&self, point: HookPoint, reports: Vec<HandlerReport<HookResponse>>) -> (r: HookResponse)
        requires
            reports@.len() == self.spec_hooks_at(point).len(),
        ensures
            opt_text(r.message) == merged_message(response_messages(reports@)),
    {
        let ghost orig = reports@;
        let ghost n = orig.len() as int;
        let count = reports.len();
        let mut rest = reports;
        let mut joined = String::new();
        let mut any = false;
        let mut k: usize = 0;
        while k < count
            invariant
                count == n,
                0 <= k <= n,
                rest@ == orig.subrange(k as int, n),
                orig.len() == n,
                any <==> response_messages(orig.subrange(0, k as int)).len() > 0,
                any ==> joined@ == join_lines(response_messages(orig.subrange(0, k as int))),
            decreases n - k,
        {
            let report = rest.remove(0);
            proof {
                assert(report == orig[k as int]);
                assert(rest@ =~= orig.subrange(k + 1, n));
                assert(orig.subrange(0, k + 1).drop_last() =~= orig.subrange(0, k as int));
                assert(orig.subrange(0, k + 1).last() == orig[k as int]);
            }
            let ghost before = response_messages(orig.subrange(0, k as int));
            let HandlerReport { outcome, overran } = report;
            if !overran {
                match outcome {
                    HandlerOutcome::Returned(Ok(resp)) => {
                        match resp.message {
                            Some(m) => {
                                if any {
                                    joined.append("\n");
                                    joined.append(m.as_str());
                                } else {
                                    joined = m;
                                    any = true;
                                }
                                proof {
                                    let now = response_messages(orig.subrange(0, k + 1));
                                    assert(now =~= before.push(m@));
                                    if before.len() > 0 {
                                        assert(now.drop_last() =~= before);
                                    }
                                }
                            },
                            None => {},
                        }
                    },
                    _ => {},
                }
            }
            k = k + 1;
        }
        proof {
            assert(orig.subrange(0, n) =~= orig);
        }
        if any {
            HookResponse { message: Some(joined) }
        } else {
            HookResponse { message: None }
        }
    }

    /// Decides what the run of the post-handler of the hook at `index` amounts
    /// to, under the post-handler timeout.
    pub fn settle_post(&self, index: usize, outcome: HandlerOutcome<()>) -> (r: Result<(), HookError>)
        requires
            index < self.spec_len(),
        ensures
            settled(self.spec_names()[index as int], self.spec_post_timeout(),
                HandlerReport { outcome, overran: false }, r),
    {
        settle_handler(self.hook_name(index), self.post_handler_timeout, HandlerReport { outcome, overran: false })
    }
}

impl<H> Default for HookDispatcher<H> {
    fn default() -> (r: Self)
        ensures
            r.spec_len() == 0,
            r.spec_pre_timeout() == default_pre_handler_timeout(),
            r.spec_post_timeout() == default_post_handler_timeout(),
    {
        Self::empty()
    }
}

/// The occurrences of the five hook points in a list of points account for
/// every element of the list.
proof fn lemma_point_counts_partition(points: Seq<HookPoint>)
    ensures
        point_count(points, HookPoint::BranchPush) + point_count(points, HookPoint::BranchCreate)
            + point_count(points, HookPoint::BranchDelete) + point_count(points, HookPoint::RepositoryCreate)
            + point_count(points, HookPoint::Obliterate) == points.len(),
    decreases points.len(),
{
    if points.len() > 0 {
        lemma_point_counts_partition(points.drop_last());
    }
}

/// `p` occurs in `points` exactly when it is counted there.
proof fn lemma_point_count_contains(points: Seq<HookPoint>, p: HookPoint)
    ensures
        (point_count(points, p) > 0) == points.contains(p),
    decreases points.len(),
{
    if points.len() > 0 {
        lemma_point_count_contains(points.drop_last(), p);
        if points.drop_last().contains(p) {
            let i = choose|i: int| 0 <= i < points.drop_last().len() && points.drop_last()[i] == p;
            assert(points[i] == p);
        }
        if points.contains(p) && points.last() != p {
            let i = choose|i: int| 0 <= i < points.len() && points[i] == p;
            assert(i < points.len() - 1);
            assert(points.drop_last()[i] == p);
        }
        if points.last() == p {
            assert(points[points.len() - 1] == p);
        }
    }
}

/// Law: every hook-point declaration is one registration at one point, so
/// the total number of registrations is the sum of the hook counts of the
/// five hook points.
pub proof fn lemma_registrations_partition_by_point(regs: Seq<Seq<HookPoint>>)
    ensures
        total_declarations(regs) == hooks_at(regs, HookPoint::BranchPush).len()
            + hooks_at(regs, HookPoint::BranchCreate).len() + hooks_at(regs, HookPoint::BranchDelete).len()
            + hooks_at(regs, HookPoint::RepositoryCreate).len() + hooks_at(regs, HookPoint::Obliterate).len(),
    decreases regs.len(),
{
    if regs.len() > 0 {
        lemma_registrations_partition_by_point(regs.drop_last());
        lemma_point_counts_partition(regs.last());
    }
}

/// Law: the hooks that run at a hook point are exactly those that declared
/// it, in registration order: positions never decrease along the list, and
/// a position occurs in it exactly when that hook declared the point.
pub proof fn lemma_hooks_at_membership_and_order(regs: Seq<Seq<HookPoint>>, p: HookPoint)
    ensures
        forall|i: int| #[trigger] hooks_at(regs, p).contains(i) <==> (0 <= i < regs.len() && regs[i].contains(p)),
        forall|a: int, b: int| 0 <= a <= b < hooks_at(regs, p).len()
            ==> hooks_at(regs, p)[a] <= hooks_at(regs, p)[b],
        forall|a: int| 0 <= a < hooks_at(regs, p).len() ==> 0 <= #[trigger] hooks_at(regs, p)[a] < regs.len(),
    decreases regs.len(),
{
    if regs.len() > 0 {
        let prev = regs.drop_last();
        lemma_hooks_at_membership_and_order(prev, p);
        lemma_point_count_contains(regs.last(), p);
        let head = hooks_at(prev, p);
        let tail = Seq::new(point_count(regs.last(), p), |k: int| (regs.len() - 1) as int);
        let all = hooks_at(regs, p);
        assert(all == head + tail);
        assert forall|i: int| #[trigger] all.contains(i) <==> (0 <= i < regs.len() && regs[i].contains(p)) by {
            if all.contains(i) {
                let k = choose|k: int| 0 <= k < all.len() && all[k] == i;
                if k < head.len() {
                    assert(head[k] == i);
                    assert(head.contains(i));
                    assert(prev[i] == regs[i]);
                } else {
                    assert(i == regs.len() - 1);
                }
            }
            if 0 <= i < regs.len() && regs[i].contains(p) {
                if i < regs.len() - 1 {
                    assert(prev[i] == regs[i]);
                    assert(head.contains(i));
                    let k = choose|k: int| 0 <= k < head.len() && head[k] == i;
                    assert(all[k] == i);
                } else {
                    assert(tail.len() > 0);
                    assert(all[head.len() as int] == i);
                }
            }
        }
        assert forall|a: int| 0 <= a < all.len() implies 0 <= #[trigger] all[a] < regs.len() by {
            if a < head.len() {
                assert(all[a] == head[a]);
            }
        }
        assert forall|a: int, b: int| 0 <= a <= b < all.len() implies all[a] <= all[b] by {
            if b < head.len() {
                assert(all[a] == head[a] && all[b] == head[b]);
            } else if a < head.len() {
                assert(all[a] == head[a]);
            }
        }
    }
}

} // verus!
