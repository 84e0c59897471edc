//! Paging through a branch's revision history, newest to oldest.
//!
//! A page is built by walking `parent_self` links from a start revision.
//! Loading each revision's state is left to the caller: the walk says which
//! revision it wants next, takes the loaded state, and says when the page is
//! complete and which step keys are worth backfilling on the way.
use vstd::arithmetic::div_mod::lemma_fundamental_div_mod;
use vstd::arithmetic::div_mod::lemma_mod_multiples_basic;
use vstd::prelude::*;
use vstd::string::*;

use crate::hooks::context::BranchId;
use crate::hooks::context::ContentHash;
use crate::status::RpcCode;
use crate::status::RpcStatus;

verus! {

/// The most items one page holds.
pub const MAX_REVISION_LIST_RESPONSE_ITEMS: usize = 100;

/// How the start of a listing was resolved.
#[derive(Debug, Clone, Copy, PartialEq, Eq, Structural)]
pub enum RevisionListStrategy {
    /// Walked from a revision given directly (or the branch tip).
    Direct,
    /// Resolved by iterating the branch history from its tip.
    FullIteration,
    /// Resolved through a history step key.
    HistoryStep,
    /// Served from the revision list cache.
    ListCache,
    /// Served from a cache segment built for this request.
    ListCacheBackfill,
}

/// The name under which a strategy is reported (in metrics and in the
/// response header).
pub open spec fn strategy_name(s: RevisionListStrategy) -> Seq<char> {
    match s {
        RevisionListStrategy::Direct => "direct"@,
        RevisionListStrategy::FullIteration => "full-iteration"@,
        RevisionListStrategy::HistoryStep => "history-step"@,
        RevisionListStrategy::ListCache => "list-cache"@,
        RevisionListStrategy::ListCacheBackfill => "list-cache-backfill"@,
    }
}

impl RevisionListStrategy {
    /// The name under which this strategy is reported.
    pub fn as_str(&self) -> (r: &'static str)
        ensures
            r@ == strategy_name(*self),
    {
        match self {
            RevisionListStrategy::Direct => "direct",
            RevisionListStrategy::FullIteration => "full-iteration",
            RevisionListStrategy::HistoryStep => "history-step",
            RevisionListStrategy::ListCache => "list-cache",
            RevisionListStrategy::ListCacheBackfill => "list-cache-backfill",
        }
    }
}

/// The kind of anchor a listing request starts from.
#[derive(Debug, Clone, Copy, PartialEq, Eq, Structural)]
pub enum StartKind {
    /// A `(branch, number)` identifier.
    Identifier,
    /// A revision signature.
    Signature,
}

/// The metric label value of a start kind.
pub open spec fn start_kind_name(k: StartKind) -> Seq<char> {
    match k {
        StartKind::Identifier => "identifier"@,
        StartKind::Signature => "signature"@,
    }
}

/// The metric label value of a start kind.
pub fn start_to_metric_value(kind: StartKind) -> (r: &'static str)
    ensures
        r@ == start_kind_name(kind),
{
    match kind {
        StartKind::Identifier => "identifier",
        StartKind::Signature => "signature",
    }
}

/// One revision of a page.
#[derive(Debug)]
pub struct RevisionItem {
    /// The revision number.
    pub number: u64,
    /// The revision's signature (the hash of its state).
    pub signature: ContentHash,
    /// The hash of the revision's metadata.
    pub metadata: ContentHash,
    /// The revision's serialized state.
    pub state: Vec<u8>,
}

/// What loading one revision's state yields.
pub struct RevisionState {
    /// The revision number.
    pub number: u64,
    /// The hash of the revision's metadata.
    pub metadata: ContentHash,
    /// The revision's `parent_self` link; zero for the root revision.
    pub parent: ContentHash,
    /// The revision's serialized state.
    pub state: Vec<u8>,
}

/// A history step key worth storing: the step boundary at `number` is
/// reached from `revision`, whose metadata (holding its branch) is `metadata`.
#[derive(Debug, Clone, Copy, PartialEq, Eq, Structural)]
pub struct StepBackfill {
    pub number: u64,
    pub revision: ContentHash,
    pub metadata: ContentHash,
}

/// `n` divided by `d`, rounded up.
pub open spec fn div_ceil(n: int, d: int) -> int {
    if n % d == 0 { n / d } else { n / d + 1 }
}

/// The lowest revision number of the history segment of `step` numbers that
/// holds revision `n`, computed as `(ceil(n / step) * step) - step + 1`,
/// where the subtraction stops at 0 and the addition at `u64::MAX`.
pub open spec fn segment_floor(n: u64, step: u64) -> int {
    let top = div_ceil(n as int, step as int) * step;
    let low = if top >= step { top - step } else { 0 };
    if low + 1 > u64::MAX { u64::MAX as int } else { low + 1 }
}

/// Whether the segment top of `n` (`ceil(n / step) * step`) fits in a `u64`.
pub open spec fn segment_top_fits(n: u64, step: u64) -> bool {
    div_ceil(n as int, step as int) * step <= u64::MAX
}

/// Computes the lowest revision number of the segment that holds `n`.
pub fn compute_segment_floor(n: u64, step: u64) -> (r: u64)
    requires
        step > 0,
        segment_top_fits(n, step),
    ensures
        r == segment_floor(n, step),
{
    let q = n / step;
    proof {
        assert(n % step != 0 ==> q < u64::MAX) by (nonlinear_arith)
            requires
                q == n / step,
                step > 0,
                n <= u64::MAX,
        {
            if n % step != 0 {
                assert(step > 1);
                assert(q * step <= n);
                assert(q * 2 <= q * step);
            }
        }
    }
    let up = if n % step == 0 { q } else { q + 1 };
    proof {
        assert(up as int == div_ceil(n as int, step as int));
        assert(up * step <= u64::MAX);
    }
    let top = up * step;
    top.saturating_sub(step).saturating_add(1)
}

/// The backward cursor a page ends with: the parent of its last item,
/// absent when the page is empty or its last item is the root revision.
pub open spec fn backward_cursor(parents: Seq<ContentHash>) -> Option<ContentHash> {
    if parents.len() == 0 || parents.last().spec_is_zero() {
        None
    } else {
        Some(parents.last())
    }
}

/// The step key backfill that the arrival of a revision numbered `number`
/// calls for, given the previous revision of a full-iteration walk: one for
/// the previous revision whenever the two lie in different step blocks.
pub open spec fn backfill_due(
    full_iteration: bool,
    backfill_step_keys: bool,
    prev: Option<StepBackfill>,
    number: u64,
    step: u64,
) -> Option<StepBackfill> {
    if full_iteration && backfill_step_keys && prev is Some
        && prev->0.number / step != number / step {
        prev
    } else {
        None
    }
}

/// A page of a revision listing being built by walking `parent_self` links.
pub struct Walk {
    items: Vec<RevisionItem>,
    parents: Ghost<Seq<ContentHash>>,
    start: ContentHash,
    current: ContentHash,
    floor: u64,
    next_older: Option<ContentHash>,
    prev_step: Option<StepBackfill>,
    finished: bool,
    stopped_below: Ghost<Option<u64>>,
    full_iteration: bool,
    backfill_step_keys: bool,
    step: u64,
}

impl Walk {
    /// The items gathered so far, newest first.
    pub closed spec fn spec_items(&self) -> Seq<RevisionItem> {
        self.items@
    }

    /// The `parent_self` link of each item gathered so far.
    pub closed spec fn spec_parents(&self) -> Seq<ContentHash> {
        self.parents@
    }

    /// The revision the walk started from.
    pub closed spec fn spec_start(&self) -> ContentHash {
        self.start
    }

    /// The revision the walk wants loaded next (while it is not finished).
    pub closed spec fn spec_current(&self) -> ContentHash {
        self.current
    }

    /// The lowest revision number the page may hold after its first item.
    pub closed spec fn spec_floor(&self) -> u64 {
        self.floor
    }

    /// Whether the page is complete.
    pub closed spec fn spec_finished(&self) -> bool {
        self.finished
    }

    /// The backward cursor of a complete page.
    pub closed spec fn spec_next_older(&self) -> Option<ContentHash> {
        self.next_older
    }

    /// The number of the revision below the segment floor that ended the
    /// page, if that is what ended it.
    pub closed spec fn spec_stopped_below(&self) -> Option<u64> {
        self.stopped_below@
    }

    /// The previous revision of a full-iteration walk, as a step key
    /// candidate.
    pub closed spec fn spec_prev_step(&self) -> Option<StepBackfill> {
        self.prev_step
    }

    /// The history step size.
    pub closed spec fn spec_step(&self) -> u64 {
        self.step
    }

    /// Whether the walk resolves its start by full iteration.
    pub closed spec fn spec_full_iteration(&self) -> bool {
        self.full_iteration
    }

    /// Whether step keys are backfilled.
    pub closed spec fn spec_backfill(&self) -> bool {
        self.backfill_step_keys
    }

    /// The walk's consistency: the page is a `parent_self` chain from the
    /// start, within the segment of its first item, of at most the page
    /// size; while the walk goes on it wants the parent of its last item;
    /// once complete, its backward cursor is the parent of its last item.
    pub open spec fn inv(&self) -> bool {
        let items = self.spec_items();
        let parents = self.spec_parents();
        &&& self.spec_step() > 0
        &&& items.len() == parents.len()
        &&& items.len() <= MAX_REVISION_LIST_RESPONSE_ITEMS
        &&& items.len() > 0 ==> items[0].signature == self.spec_start()
        &&& forall|i: int| 0 <= i < items.len() - 1 ==> (#[trigger] items[i + 1]).signature == parents[i]
        &&& items.len() > 0 ==> self.spec_floor() == segment_floor(items[0].number, self.spec_step())
        &&& items.len() > 0 ==> segment_top_fits(items[0].number, self.spec_step())
        &&& self.spec_stopped_below() matches Some(n) ==> (n < self.spec_floor() && self.spec_finished()
            && items.len() > 0)
        &&& forall|i: int| 1 <= i < items.len() ==> (#[trigger] items[i]).number >= self.spec_floor()
        &&& !self.spec_finished() ==> {
            &&& self.spec_current() == (if items.len() == 0 { self.spec_start() } else { parents.last() })
            &&& !self.spec_current().spec_is_zero()
            &&& items.len() < MAX_REVISION_LIST_RESPONSE_ITEMS
            &&& self.spec_stopped_below() is None
        }
        &&& self.spec_finished() ==> {
            &&& self.spec_next_older() == backward_cursor(parents)
            &&& (items.len() < MAX_REVISION_LIST_RESPONSE_ITEMS && self.spec_next_older() is Some)
                ==> (self.spec_stopped_below() matches Some(n) && n < self.spec_floor())
        }
        &&& (items.len() > 0 && self.spec_full_iteration()) ==> self.spec_prev_step() == Some(
            StepBackfill {
                number: items.last().number,
                revision: items.last().signature,
                metadata: items.last().metadata,
            },
        )
    }

    /// Starts a walk from `start` with the given history step size; a zero
    /// start gives a complete, empty page.
    pub fn start(start: ContentHash, full_iteration: bool, backfill_step_keys: bool, step: u64) -> (r: Self)
        requires
            step > 0,
        ensures
            r.inv(),
            r.spec_items().len() == 0,
            r.spec_start() == start,
            r.spec_finished() == start.spec_is_zero(),
            r.spec_full_iteration() == full_iteration,
            r.spec_backfill() == backfill_step_keys,
            r.spec_step() == step,
            r.spec_prev_step() is None,
    {
        Walk {
            items: Vec::new(),
            parents: Ghost(Seq::empty()),
            start,
            current: start,
            floor: 0,
            next_older: None,
            prev_step: None,
            finished: start.is_zero(),
            stopped_below: Ghost(None),
            full_iteration,
            backfill_step_keys,
            step,
        }
    }

    /// The revision whose state the walk needs next, or nothing once the
    /// page is complete.
    pub fn wanted(&self) -> (r: Option<ContentHash>)
        requires
            self.inv(),
        ensures
            r == (if self.spec_finished() { None } else { Some(self.spec_current()) }),
    {
        if self.finished { None } else { Some(self.current) }
    }

    /// Whether no item has been gathered yet (the next state loaded is the
    /// start revision's).
    pub fn is_first(&self) -> (r: bool)
        ensures
            r == (self.spec_items().len() == 0),
    {
        self.items.len() == 0
    }

    /// The answer to a failure to load the wanted state: a missing start
    /// revision is not found; anything else (a missing ancestor included) is
    /// internal. `revision` is the wanted revision's text and `detail` the
    /// failure's.
    pub fn load_failure(&self, not_found: bool, revision: &str, detail: &str) -> (r: RpcStatus)
        ensures
            (not_found && self.spec_items().len() == 0) ==> (r.code == RpcCode::NotFound
                && r.message@ == "Revision "@ + revision@ + " not found"@),
            !(not_found && self.spec_items().len() == 0) ==> (r.code == RpcCode::Internal
                && r.message@ == detail@),
    {
        if not_found && self.items.len() == 0 {
            let mut m = String::from_str("Revision ");
            m.append(revision);
            m.append(" not found");
            RpcStatus { code: RpcCode::NotFound, message: m }
        } else {
            RpcStatus { code: RpcCode::Internal, message: String::from_str(detail) }
        }
    }

    /// Takes the loaded state of the wanted revision. A revision below the
    /// segment floor of the first item ends the page without being added,
    /// and becomes its backward cursor; otherwise the revision is added, and
    /// the page ends when it is full or the revision is the root. Returns
    /// the step key worth backfilling, if any.
    pub fn advance(&mut self, state: RevisionState) -> (r: Option<StepBackfill>)
        requires
            old(self).inv(),
            !old(self).spec_finished(),
            old(self).spec_items().len() == 0 ==> segment_top_fits(state.number, old(self).spec_step()),
        ensures
            final(self).inv(),
            final(self).spec_start() == old(self).spec_start(),
            final(self).spec_step() == old(self).spec_step(),
            final(self).spec_full_iteration() == old(self).spec_full_iteration(),
            final(self).spec_backfill() == old(self).spec_backfill(),
            if old(self).spec_items().len() > 0 && state.number < old(self).spec_floor() {
                &&& final(self).spec_finished()
                &&& final(self).spec_items() == old(self).spec_items()
                &&& final(self).spec_parents() == old(self).spec_parents()
                &&& final(self).spec_next_older() == Some(old(self).spec_current())
                &&& final(self).spec_stopped_below() == Some(state.number)
                &&& r is None
            } else {
                &&& final(self).spec_items().len() == old(self).spec_items().len() + 1
                &&& final(self).spec_items().drop_last() == old(self).spec_items()
                &&& final(self).spec_items().last().number == state.number
                &&& final(self).spec_items().last().signature == old(self).spec_current()
                &&& final(self).spec_items().last().metadata == state.metadata
                &&& final(self).spec_items().last().state@ == state.state@
                &&& final(self).spec_parents() == old(self).spec_parents().push(state.parent)
                &&& final(self).spec_finished() == (final(self).spec_items().len()
                    == MAX_REVISION_LIST_RESPONSE_ITEMS || state.parent.spec_is_zero())
                &&& r == backfill_due(
                    old(self).spec_full_iteration(),
                    old(self).spec_backfill(),
                    old(self).spec_prev_step(),
                    state.number,
                    old(self).spec_step(),
                )
            },
    {
        let first = self.items.len() == 0;
        if first {
            self.floor = compute_segment_floor(state.number, self.step);
        } else if state.number < self.floor {
            self.next_older = Some(self.current);
            self.finished = true;
            self.stopped_below = Ghost(Some(state.number));
            return None;
        }
        let backfill = match self.prev_step {
            Some(prev) => {
                if self.full_iteration && self.backfill_step_keys
                    && prev.number / self.step != state.number / self.step {
                    Some(prev)
                } else {
                    None
                }
            },
            None => None,
        };
        if self.full_iteration {
            self.prev_step = Some(StepBackfill {
                number: state.number,
                revision: self.current,
                metadata: state.metadata,
            });
        }
        let parent = state.parent;
        let ghost old_items = self.items@;
        self.items.push(RevisionItem {
            number: state.number,
            signature: self.current,
            metadata: state.metadata,
            state: state.state,
        });
        self.parents = Ghost(self.parents@.push(parent));
        proof {
            assert(self.items@.drop_last() =~= old_items);
            assert forall|i: int| 0 <= i < self.items@.len() - 1
                implies (#[trigger] self.items@[i + 1]).signature == self.parents@[i] by {
                if i + 1 < old_items.len() {
                    assert(self.items@[i + 1] == old_items[i + 1]);
                }
            }
        }
        if self.items.len() == MAX_REVISION_LIST_RESPONSE_ITEMS {
            self.next_older = if parent.is_zero() { None } else { Some(parent) };
            self.finished = true;
        } else if parent.is_zero() {
            self.next_older = None;
            self.finished = true;
        } else {
            self.current = parent;
        }
        backfill
    }

    /// Ends a complete walk, giving its items (newest first) and its
    /// backward cursor.
    pub fn into_page(self) -> (r: (Vec<RevisionItem>, Option<ContentHash>))
        requires
            self.inv(),
            self.spec_finished(),
        ensures
            r.0@ == self.spec_items(),
            r.1 == backward_cursor(self.spec_parents()),
    {
        (self.items, self.next_older)
    }
}

/// One revision of a cached history segment.
pub struct CachedRevisionItem {
    /// The revision number.
    pub number: u64,
    /// The revision's signature.
    pub signature: ContentHash,
    /// The hash of the revision's metadata.
    pub metadata: ContentHash,
    /// The revision's `parent_self` link; zero for the root revision.
    pub parent: ContentHash,
    /// The revision's serialized state.
    pub state: Vec<u8>,
}

/// The parent links of a cached segment's items.
pub open spec fn cached_parents(items: Seq<CachedRevisionItem>) -> Seq<ContentHash> {
    items.map_values(|i: CachedRevisionItem| i.parent)
}

/// The backward cursor of a page served from a cached segment: the parent of
/// the segment's bottom item, absent when that item is the root revision.
pub fn cached_next_older(items: &Vec<CachedRevisionItem>) -> (r: Option<ContentHash>)
    ensures
        r == backward_cursor(cached_parents(items@)),
{
    if items.len() == 0 {
        return None;
    }
    let parent = items[items.len() - 1].parent;
    proof {
        assert(cached_parents(items@).last() == parent);
    }
    if parent.is_zero() { None } else { Some(parent) }
}

/// Whether a cached segment holds the revision of the given number.
pub fn segment_has_number(items: &Vec<CachedRevisionItem>, number: u64) -> (r: bool)
    ensures
        r == exists|i: int| 0 <= i < items@.len() && (#[trigger] items@[i]).number == number,
{
    let mut i: usize = 0;
    while i < items.len()
        invariant
            0 <= i <= items@.len(),
            forall|j: int| 0 <= j < i ==> (#[trigger] items@[j]).number != number,
        decreases items@.len() - i,
    {
        if items[i].number == number {
            return true;
        }
        i = i + 1;
    }
    false
}

/// Whether a cached segment holds the revision of the given signature.
pub fn segment_has_signature(items: &Vec<CachedRevisionItem>, signature: ContentHash) -> (r: bool)
    ensures
        r == exists|i: int| 0 <= i < items@.len() && (#[trigger] items@[i]).signature == signature,
{
    let mut i: usize = 0;
    while i < items.len()
        invariant
            0 <= i <= items@.len(),
            forall|j: int| 0 <= j < i ==> (#[trigger] items@[j]).signature != signature,
        decreases items@.len() - i,
    {
        if items[i].signature == signature {
            return true;
        }
        i = i + 1;
    }
    false
}

/// Builds a page from a cached segment, keeping each item's number,
/// signature, metadata and state.
pub fn cached_to_page(items: Vec<CachedRevisionItem>) -> (r: Vec<RevisionItem>)
    ensures
        r@.len() == items@.len(),
        forall|i: int| 0 <= i < items@.len() ==> {
            &&& (#[trigger] r@[i]).number == items@[i].number
            &&& r@[i].signature == items@[i].signature
            &&& r@[i].metadata == items@[i].metadata
            &&& r@[i].state@ == items@[i].state@
        },
{
    let ghost orig = items@;
    let n = items.len();
    let mut rest = items;
    let mut page: Vec<RevisionItem> = Vec::new();
    let mut k: usize = 0;
    while k < n
        invariant
            n == orig.len(),
            0 <= k <= n,
            rest@ == orig.subrange(k as int, n as int),
            page@.len() == k,
            forall|i: int| 0 <= i < k ==> {
                &&& (#[trigger] page@[i]).number == orig[i].number
                &&& page@[i].signature == orig[i].signature
                &&& page@[i].metadata == orig[i].metadata
                &&& page@[i].state@ == orig[i].state@
            },
        decreases n - k,
    {
        let item = rest.remove(0);
        proof {
            assert(item == orig[k as int]);
            assert(rest@ =~= orig.subrange(k + 1, n as int));
        }
        page.push(RevisionItem {
            number: item.number,
            signature: item.signature,
            metadata: item.metadata,
            state: item.state,
        });
        k = k + 1;
    }
    page
}

/// The revision a forward cursor must find: the one numbered one above the
/// page's first item, on the page's branch; nothing for an empty page, an
/// unknown branch or a first number of `u64::MAX`.
pub fn forward_target(items: &Vec<RevisionItem>, branch: Option<BranchId>) -> (r: Option<(BranchId, u64)>)
    ensures
        r == (if items@.len() == 0 || branch is None || items@[0].number == u64::MAX {
            None
        } else {
            Some((branch->0, (items@[0].number + 1) as u64))
        }),
{
    if items.len() == 0 {
        return None;
    }
    let number = items[0].number;
    if number == u64::MAX {
        return None;
    }
    match branch {
        Some(b) => Some((b, number + 1)),
        None => None,
    }
}

/// A listing request must say where the listing starts.
pub fn check_start(has_start: bool) -> (r: Result<(), RpcStatus>)
    ensures
        !has_start ==> (r matches Err(s) && s.code == RpcCode::InvalidArgument
            && s.message@ == "RevisionListRequest.start must be set"@),
        has_start ==> r is Ok,
{
    if has_start {
        Ok(())
    } else {
        Err(RpcStatus {
            code: RpcCode::InvalidArgument,
            message: String::from_str("RevisionListRequest.start must be set"),
        })
    }
}

/// The answer when the tip of the start branch cannot be loaded; `branch`
/// is the branch's text and `detail` the failure's.
pub fn branch_tip_not_found(branch: &str, detail: &str) -> (r: RpcStatus)
    ensures
        r.code == RpcCode::NotFound,
        r.message@ == "Branch "@ + branch@ + " not found: "@ + detail@,
{
    let mut m = String::from_str("Branch ");
    m.append(branch);
    m.append(" not found: ");
    m.append(detail);
    RpcStatus { code: RpcCode::NotFound, message: m }
}

/// The answer when a `(branch, number)` start resolves to no revision;
/// `detail` is the failure's text.
pub fn start_revision_not_found(detail: &str) -> (r: RpcStatus)
    ensures
        r.code == RpcCode::NotFound,
        r.message@ == "Revision not found: "@ + detail@,
{
    let mut m = String::from_str("Revision not found: ");
    m.append(detail);
    RpcStatus { code: RpcCode::NotFound, message: m }
}

/// What a search down a step block does at a revision.
#[derive(Debug, Clone, Copy, PartialEq, Eq, Structural)]
pub enum FindStep {
    /// The revision is the one sought.
    Match,
    /// The revision is already older than the one sought: give up.
    Abort,
    /// Keep going to older revisions.
    Continue,
}

/// The search step at a revision numbered `number`, looking for `target`
/// while walking from newer to older revisions.
pub fn exact_revision_step(number: u64, target: u64) -> (r: FindStep)
    ensures
        r == exact_step(number, target),
{
    if number == target {
        FindStep::Match
    } else if number < target {
        FindStep::Abort
    } else {
        FindStep::Continue
    }
}


/// Law: the segment of a revision number is aligned to the step: for a
/// revision numbered `n >= 1`, its segment floor is one above a multiple of
/// the step, and `n` lies in `[floor, floor + step)`. Walk-served pages
/// therefore line up with cache segments.
pub proof fn lemma_segment_floor_aligned(n: u64, step: u64)
    requires
        step > 0,
        n > 0,
        segment_top_fits(n, step),
    ensures
        segment_floor(n, step) <= n < segment_floor(n, step) + step,
        (segment_floor(n, step) - 1) % (step as int) == 0,
{
    let ni = n as int;
    let d = step as int;
    let q = ni / d;
    let r = ni % d;
    lemma_fundamental_div_mod(ni, d);
    assert(0 <= r < d);
    let qc = div_ceil(ni, d);
    if r == 0 {
        assert(qc == q);
        assert(q >= 1) by (nonlinear_arith)
            requires
                ni == d * q,
                ni > 0,
                d > 0,
        ;
        assert((qc - 1) * d < ni <= qc * d) by (nonlinear_arith)
            requires
                ni == d * q,
                qc == q,
                d > 0,
        ;
    } else {
        assert(qc == q + 1);
        assert(q >= 0) by (nonlinear_arith)
            requires
                q == ni / d,
                ni >= 0,
                d > 0,
        ;
        assert((qc - 1) * d < ni <= qc * d) by (nonlinear_arith)
            requires
                ni == d * q + r,
                qc == q + 1,
                0 < r < d,
        ;
    }
    assert(qc >= 1);
    assert(qc * d >= d && qc * d - d == (qc - 1) * d) by (nonlinear_arith)
        requires
            qc >= 1,
            d > 0,
    ;
    lemma_mod_multiples_basic(qc - 1, d);
}

/// Law: consecutive pages do not overlap. When a page ended at a revision
/// below its segment floor, that revision (where the next page, reached
/// through the backward cursor, starts) is numbered below every item of
/// the page.
pub proof fn lemma_page_above_cursor(w: Walk, stopped_at: u64)
    requires
        w.inv(),
        w.spec_finished(),
        w.spec_stopped_below() == Some(stopped_at),
        w.spec_items().len() > 0,
        w.spec_items()[0].number > 0,
    ensures
        forall|i: int| 0 <= i < w.spec_items().len() ==> #[trigger] w.spec_items()[i].number > stopped_at,
{
    let items = w.spec_items();
    lemma_segment_floor_aligned(items[0].number, w.spec_step());
}

/// What a search down a step block does at a revision numbered `number`,
/// looking for `target`.
pub open spec fn exact_step(number: u64, target: u64) -> FindStep {
    if number == target {
        FindStep::Match
    } else if number < target {
        FindStep::Abort
    } else {
        FindStep::Continue
    }
}

/// Where a search over revision numbers (newest first) stops with a match,
/// if it does.
pub open spec fn search_match(numbers: Seq<u64>, target: u64) -> Option<int>
    decreases numbers.len(),
{
    if numbers.len() == 0 {
        None
    } else {
        match exact_step(numbers[0], target) {
            FindStep::Match => Some(0),
            FindStep::Abort => None,
            FindStep::Continue => match search_match(numbers.drop_first(), target) {
                Some(i) => Some(i + 1),
                None => None,
            },
        }
    }
}

/// Law: over a chain whose numbers strictly decrease (a branch history
/// walked from newer to older), the search finds a revision exactly when
/// the target number is on the chain, and then finds that revision.
pub proof fn lemma_search_finds_target(numbers: Seq<u64>, target: u64)
    requires
        forall|i: int, j: int| 0 <= i < j < numbers.len() ==> numbers[i] > numbers[j],
    ensures
        (search_match(numbers, target) is Some) <==> numbers.contains(target),
        search_match(numbers, target) matches Some(i) ==> 0 <= i < numbers.len() && numbers[i] == target,
    decreases numbers.len(),
{
    if numbers.len() > 0 {
        let rest = numbers.drop_first();
        assert forall|i: int, j: int| 0 <= i < j < rest.len() implies rest[i] > rest[j] by {
            assert(rest[i] == numbers[i + 1] && rest[j] == numbers[j + 1]);
        }
        lemma_search_finds_target(rest, target);
        if numbers[0] == target {
            assert(numbers.contains(target)) by {
                assert(numbers[0] == target);
            }
        } else if numbers[0] < target {
            assert(!numbers.contains(target)) by {
                if numbers.contains(target) {
                    let k = choose|k: int| 0 <= k < numbers.len() && numbers[k] == target;
                    if k > 0 {
                        assert(numbers[0] > numbers[k]);
                    }
                }
            }
        } else {
            assert(numbers.contains(target) <==> rest.contains(target)) by {
                if numbers.contains(target) {
                    let k = choose|k: int| 0 <= k < numbers.len() && numbers[k] == target;
                    assert(k > 0);
                    assert(rest[k - 1] == target);
                }
                if rest.contains(target) {
                    let k = choose|k: int| 0 <= k < rest.len() && rest[k] == target;
                    assert(numbers[k + 1] == target);
                }
            }
            match search_match(rest, target) {
                Some(i) => {
                    assert(numbers[i + 1] == rest[i]);
                },
                None => {},
            }
        }
    }
}

/// How the start of a listing was resolved: a page already built from the
/// cache, or a revision to walk from.
pub enum ResolveStart {
    /// A page served from a cached segment.
    Items {
        items: Vec<RevisionItem>,
        branch: BranchId,
        next_older: Option<ContentHash>,
        strategy: RevisionListStrategy,
    },
    /// A revision to walk `parent_self` links from.
    Walk { start: ContentHash, strategy: RevisionListStrategy },
}

impl ResolveStart {
    /// The strategy that led here.
    pub open spec fn spec_strategy(&self) -> RevisionListStrategy {
        match self {
            ResolveStart::Items { strategy, .. } => *strategy,
            ResolveStart::Walk { strategy, .. } => *strategy,
        }
    }

    /// The strategy that led here.
    pub fn strategy(&self) -> (r: RevisionListStrategy)
        ensures
            r == self.spec_strategy(),
    {
        match self {
            ResolveStart::Items { strategy, .. } => *strategy,
            ResolveStart::Walk { strategy, .. } => *strategy,
        }
    }
}


/// Whether a page carries the cached items' numbers, signatures, metadata
/// and states, in their order.
pub open spec fn page_of(items: Seq<CachedRevisionItem>, page: Seq<RevisionItem>) -> bool {
    &&& page.len() == items.len()
    &&& forall|i: int| 0 <= i < items.len() ==> {
        &&& (#[trigger] page[i]).number == items[i].number
        &&& page[i].signature == items[i].signature
        &&& page[i].metadata == items[i].metadata
        &&& page[i].state@ == items[i].state@
    }
}

/// Where the cached segment that serves a listing comes from.
#[derive(Debug, Clone, Copy, PartialEq, Eq, Structural)]
pub enum SegmentSource {
    /// The revision list cache held it.
    Cached,
    /// It was built into the cache for this request.
    Backfilled,
}

/// The strategy reported for a page served from a segment.
pub open spec fn segment_source_strategy(source: SegmentSource) -> RevisionListStrategy {
    match source {
        SegmentSource::Cached => RevisionListStrategy::ListCache,
        SegmentSource::Backfilled => RevisionListStrategy::ListCacheBackfill,
    }
}

/// The strategy reported for a page served from a segment.
pub fn segment_strategy(source: SegmentSource) -> (r: RevisionListStrategy)
    ensures
        r == segment_source_strategy(source),
{
    match source {
        SegmentSource::Cached => RevisionListStrategy::ListCache,
        SegmentSource::Backfilled => RevisionListStrategy::ListCacheBackfill,
    }
}

/// The first segment a signature start tries: the cached one, when the
/// cache is enabled; otherwise none (the start is walked directly).
pub fn signature_first_load(list_cache: bool) -> (r: Option<SegmentSource>)
    ensures
        r == (if list_cache { Some(SegmentSource::Cached) } else { None::<SegmentSource> }),
{
    if list_cache { Some(SegmentSource::Cached) } else { None }
}

/// The segment a signature start tries when the one tried was absent: a
/// backfill after the cache; nothing after a backfill. (A segment that was
/// present but lacks the signature ends the search: the start is walked.)
pub fn signature_load_after_absent(source: SegmentSource) -> (r: Option<SegmentSource>)
    ensures
        r == (match source {
            SegmentSource::Cached => Some(SegmentSource::Backfilled),
            SegmentSource::Backfilled => None::<SegmentSource>,
        }),
{
    match source {
        SegmentSource::Cached => Some(SegmentSource::Backfilled),
        SegmentSource::Backfilled => None,
    }
}

/// Whether `r` is the page served from a segment of `branch` loaded from
/// `source`: the segment's items, its backward cursor and the segment's
/// strategy.
pub open spec fn served_from_segment(
    r: ResolveStart,
    items: Seq<CachedRevisionItem>,
    branch: BranchId,
    source: SegmentSource,
) -> bool {
    r matches ResolveStart::Items { items: page, branch: b, next_older, strategy } && page_of(items, page@)
        && b == branch && next_older == backward_cursor(cached_parents(items)) && strategy
        == segment_source_strategy(source)
}

fn segment_page(items: Vec<CachedRevisionItem>, branch: BranchId, source: SegmentSource) -> (r: ResolveStart)
    ensures
        served_from_segment(r, items@, branch, source),
{
    let next_older = cached_next_older(&items);
    let ghost orig = items@;
    let page = cached_to_page(items);
    let strategy = segment_strategy(source);
    proof {
        assert(page_of(orig, page@));
    }
    ResolveStart::Items { items: page, branch, next_older, strategy }
}

/// Serves a signature start from a loaded segment: the segment's page when
/// it holds the signature, nothing otherwise. A served page always holds
/// the requested signature.
pub fn serve_signature_from_segment(
    items: Vec<CachedRevisionItem>,
    branch: BranchId,
    source: SegmentSource,
    signature: ContentHash,
) -> (r: Option<ResolveStart>)
    ensures
        (r is Some) == (exists|i: int| 0 <= i < items@.len() && (#[trigger] items@[i]).signature == signature),
        r matches Some(s) ==> served_from_segment(s, items@, branch, source),
        r matches Some(ResolveStart::Items { items: page, .. }) ==> exists|i: int|
            0 <= i < page@.len() && (#[trigger] page@[i]).signature == signature,
{
    if !segment_has_signature(&items, signature) {
        return None;
    }
    let ghost orig = items@;
    let r = segment_page(items, branch, source);
    proof {
        let i = choose|i: int| 0 <= i < orig.len() && (#[trigger] orig[i]).signature == signature;
        if let ResolveStart::Items { items: page, .. } = &r {
            assert(page@[i].signature == signature);
        }
    }
    Some(r)
}

/// Serves a `(branch, number)` start from a loaded segment: the segment's
/// page when it holds the number, nothing otherwise (the next lookup is
/// then tried). A served page always holds the requested number.
pub fn serve_identifier_from_segment(
    items: Vec<CachedRevisionItem>,
    branch: BranchId,
    source: SegmentSource,
    number: u64,
) -> (r: Option<ResolveStart>)
    ensures
        (r is Some) == (exists|i: int| 0 <= i < items@.len() && (#[trigger] items@[i]).number == number),
        r matches Some(s) ==> served_from_segment(s, items@, branch, source),
        r matches Some(ResolveStart::Items { items: page, .. }) ==> exists|i: int|
            0 <= i < page@.len() && (#[trigger] page@[i]).number == number,
{
    if !segment_has_number(&items, number) {
        return None;
    }
    let ghost orig = items@;
    let r = segment_page(items, branch, source);
    proof {
        let i = choose|i: int| 0 <= i < orig.len() && (#[trigger] orig[i]).number == number;
        if let ResolveStart::Items { items: page, .. } = &r {
            assert(page@[i].number == number);
        }
    }
    Some(r)
}

/// The start of a listing walked directly from a revision: a signature
/// start that no segment served, or the branch tip for number 0.
pub fn direct_start(start: ContentHash) -> (r: ResolveStart)
    ensures
        r == (ResolveStart::Walk { start, strategy: RevisionListStrategy::Direct }),
{
    ResolveStart::Walk { start, strategy: RevisionListStrategy::Direct }
}

/// The start of a listing walked from the revision a lookup found: by the
/// step key or by full iteration.
pub fn lookup_start(start: ContentHash, lookup: IdentifierLookup) -> (r: ResolveStart)
    requires
        lookup == IdentifierLookup::StepKey || lookup == IdentifierLookup::FullIteration,
    ensures
        r == (ResolveStart::Walk { start, strategy: lookup_strategy_spec(lookup) }),
{
    ResolveStart::Walk { start, strategy: lookup_strategy(lookup) }
}

/// The lookups that resolve a `(branch, number)` start, tried in turn.
#[derive(Debug, Clone, Copy, PartialEq, Eq, Structural)]
pub enum IdentifierLookup {
    /// Load the branch tip (for number 0).
    BranchLatest,
    /// Load the cached segment that holds the number.
    CachedSegment,
    /// Build the segment that holds the number into the cache.
    BackfillSegment,
    /// Load the history step key of the number's block and search it.
    StepKey,
    /// Resolve `branch@number` by iterating the branch history.
    FullIteration,
}

/// The first lookup for a `(branch, number)` start.
pub open spec fn first_lookup_spec(number: u64, list_cache: bool, step_keys: bool) -> IdentifierLookup {
    if number == 0 {
        IdentifierLookup::BranchLatest
    } else if list_cache {
        IdentifierLookup::CachedSegment
    } else if step_keys {
        IdentifierLookup::StepKey
    } else {
        IdentifierLookup::FullIteration
    }
}

/// The lookup tried after `lookup` found nothing.
pub open spec fn lookup_after_miss_spec(lookup: IdentifierLookup, step_keys: bool) -> IdentifierLookup {
    match lookup {
        IdentifierLookup::CachedSegment => IdentifierLookup::BackfillSegment,
        IdentifierLookup::BackfillSegment => if step_keys {
            IdentifierLookup::StepKey
        } else {
            IdentifierLookup::FullIteration
        },
        _ => IdentifierLookup::FullIteration,
    }
}

/// The strategy reported when `lookup` resolves the start.
pub open spec fn lookup_strategy_spec(lookup: IdentifierLookup) -> RevisionListStrategy {
    match lookup {
        IdentifierLookup::BranchLatest => RevisionListStrategy::Direct,
        IdentifierLookup::CachedSegment => RevisionListStrategy::ListCache,
        IdentifierLookup::BackfillSegment => RevisionListStrategy::ListCacheBackfill,
        IdentifierLookup::StepKey => RevisionListStrategy::HistoryStep,
        IdentifierLookup::FullIteration => RevisionListStrategy::FullIteration,
    }
}

/// The first lookup for a `(branch, number)` start: the tip for number 0,
/// else the cache when enabled, else the step key when enabled, else full
/// iteration.
pub fn first_lookup(number: u64, list_cache: bool, step_keys: bool) -> (r: IdentifierLookup)
    ensures
        r == first_lookup_spec(number, list_cache, step_keys),
{
    if number == 0 {
        IdentifierLookup::BranchLatest
    } else if list_cache {
        IdentifierLookup::CachedSegment
    } else if step_keys {
        IdentifierLookup::StepKey
    } else {
        IdentifierLookup::FullIteration
    }
}

/// The lookup tried after a cache or step key lookup found nothing.
pub fn lookup_after_miss(lookup: IdentifierLookup, step_keys: bool) -> (r: IdentifierLookup)
    requires
        lookup == IdentifierLookup::CachedSegment || lookup == IdentifierLookup::BackfillSegment
            || lookup == IdentifierLookup::StepKey,
    ensures
        r == lookup_after_miss_spec(lookup, step_keys),
{
    match lookup {
        IdentifierLookup::CachedSegment => IdentifierLookup::BackfillSegment,
        IdentifierLookup::BackfillSegment => if step_keys {
            IdentifierLookup::StepKey
        } else {
            IdentifierLookup::FullIteration
        },
        _ => IdentifierLookup::FullIteration,
    }
}

/// The strategy reported when `lookup` resolves the start.
pub fn lookup_strategy(lookup: IdentifierLookup) -> (r: RevisionListStrategy)
    ensures
        r == lookup_strategy_spec(lookup),
{
    match lookup {
        IdentifierLookup::BranchLatest => RevisionListStrategy::Direct,
        IdentifierLookup::CachedSegment => RevisionListStrategy::ListCache,
        IdentifierLookup::BackfillSegment => RevisionListStrategy::ListCacheBackfill,
        IdentifierLookup::StepKey => RevisionListStrategy::HistoryStep,
        IdentifierLookup::FullIteration => RevisionListStrategy::FullIteration,
    }
}

/// Law: the lookups for a `(branch, number)` start end with full iteration
/// after at most three misses, touch the cache only when it is enabled, and
/// the step key only when step keys are enabled.
pub proof fn lemma_lookup_sequence(number: u64, list_cache: bool, step_keys: bool)
    ensures
        ({
            let l0 = first_lookup_spec(number, list_cache, step_keys);
            let l1 = lookup_after_miss_spec(l0, step_keys);
            let l2 = lookup_after_miss_spec(l1, step_keys);
            let l3 = lookup_after_miss_spec(l2, step_keys);
            &&& number != 0 ==> (l3 == IdentifierLookup::FullIteration || l2 == IdentifierLookup::FullIteration
                || l1 == IdentifierLookup::FullIteration || l0 == IdentifierLookup::FullIteration)
            &&& !list_cache ==> (l0 != IdentifierLookup::CachedSegment && l0 != IdentifierLookup::BackfillSegment
                && l1 != IdentifierLookup::CachedSegment && l1 != IdentifierLookup::BackfillSegment)
            &&& !step_keys ==> (l0 != IdentifierLookup::StepKey && l1 != IdentifierLookup::StepKey
                && l2 != IdentifierLookup::StepKey)
        }),
{
}

} // verus!
