//! Paging through revision history for the legacy listing service: pages of
//! up to 100 revisions along `parent_self` links, without segment alignment
//! or backward cursors.
use vstd::prelude::*;
use vstd::string::*;

use crate::hooks::context::ContentHash;
use crate::revision_list::StepBackfill;
use crate::status::RpcCode;
use crate::status::RpcStatus;

verus! {

/// The most items one legacy page holds.
pub const MAX_LEGACY_PAGE_ITEMS: usize = 100;

/// How the start of a legacy listing was resolved.
#[derive(Debug, Clone, Copy, PartialEq, Eq, Structural)]
pub enum RevisionListStrategy {
    /// Walked from a signature given directly.
    Direct,
    /// Resolved by iterating the branch history from its tip.
    FullIteration,
    /// Resolved through a history step key.
    HistoryStep,
}

/// The name under which a legacy strategy is reported.
pub open spec fn strategy_name(s: RevisionListStrategy) -> Seq<char> {
    match s {
        RevisionListStrategy::Direct => "direct"@,
        RevisionListStrategy::FullIteration => "full-iteration"@,
        RevisionListStrategy::HistoryStep => "history-step"@,
    }
}

impl RevisionListStrategy {
    /// The name under which this strategy is reported.
    pub fn as_str(&self) -> (r: &'static str)
        ensures
            r@ == strategy_name(*self),
    {
        match self {
            RevisionListStrategy::Direct => "direct",
            RevisionListStrategy::FullIteration => "full-iteration",
            RevisionListStrategy::HistoryStep => "history-step",
        }
    }
}

/// The strategy of a legacy `(branch, number)` start: the step key when it
/// was found, else full iteration.
pub fn identifier_strategy(step_key_found: bool) -> (r: RevisionListStrategy)
    ensures
        r == (if step_key_found { RevisionListStrategy::HistoryStep } else { RevisionListStrategy::FullIteration }),
{
    if step_key_found { RevisionListStrategy::HistoryStep } else { RevisionListStrategy::FullIteration }
}

/// A legacy listing request must say where the listing starts.
pub fn check_legacy_start(has_start: bool) -> (r: Result<(), RpcStatus>)
    ensures
        !has_start ==> (r matches Err(s) && s.code == RpcCode::InvalidArgument
            && s.message@ == "invalid start revision"@),
        has_start ==> r is Ok,
{
    if has_start {
        Ok(())
    } else {
        Err(RpcStatus { code: RpcCode::InvalidArgument, message: String::from_str("invalid start revision") })
    }
}

/// The answer when a `(branch, number)` start names no revision; `detail`
/// is the failure's text.
pub fn invalid_identifier(detail: &str) -> (r: RpcStatus)
    ensures
        r.code == RpcCode::InvalidArgument,
        r.message@ == "invalid identifier "@ + detail@,
{
    let mut m = String::from_str("invalid identifier ");
    m.append(detail);
    RpcStatus { code: RpcCode::InvalidArgument, message: m }
}

/// One revision of a legacy page.
#[derive(Debug, Clone, Copy, PartialEq, Eq, Structural)]
pub struct LegacyRevisionItem {
    pub number: u64,
    pub signature: ContentHash,
    pub metadata: ContentHash,
}

/// What loading one revision's state yields, for the legacy walk.
#[derive(Debug, Clone, Copy, PartialEq, Eq, Structural)]
pub struct LegacyRevisionState {
    pub number: u64,
    pub metadata: ContentHash,
    pub parent: ContentHash,
}

/// A legacy page being built. The state of every wanted revision is loaded,
/// the zero hash included: reaching it ends the page.
pub struct LegacyWalk {
    items: Vec<LegacyRevisionItem>,
    parents: Ghost<Seq<ContentHash>>,
    start: ContentHash,
    current: ContentHash,
    prev_step: Option<StepBackfill>,
    finished: bool,
    full_iteration: bool,
    step: u64,
}

impl LegacyWalk {
    /// The items gathered so far, newest first.
    pub closed spec fn spec_items(&self) -> Seq<LegacyRevisionItem> {
        self.items@
    }

    /// The `parent_self` link of each item gathered so far.
    pub closed spec fn spec_parents(&self) -> Seq<ContentHash> {
        self.parents@
    }

    /// The revision the walk started from.
    pub closed spec fn spec_start(&self) -> ContentHash {
        self.start
    }

    /// The revision the walk wants loaded next.
    pub closed spec fn spec_current(&self) -> ContentHash {
        self.current
    }

    /// Whether the page is complete.
    pub closed spec fn spec_finished(&self) -> bool {
        self.finished
    }

    /// The previous revision of a full-iteration walk.
    pub closed spec fn spec_prev_step(&self) -> Option<StepBackfill> {
        self.prev_step
    }

    /// Whether the start was resolved by full iteration.
    pub closed spec fn spec_full_iteration(&self) -> bool {
        self.full_iteration
    }

    /// The history step size.
    pub closed spec fn spec_step(&self) -> u64 {
        self.step
    }

    /// The page is a `parent_self` chain from the start of at most 100
    /// items, none of them the zero hash; while the walk goes on it wants
    /// the parent of its last item; it ends full or at the zero hash.
    pub open spec fn inv(&self) -> bool {
        let items = self.spec_items();
        let parents = self.spec_parents();
        &&& self.spec_step() > 0
        &&& items.len() == parents.len()
        &&& items.len() <= MAX_LEGACY_PAGE_ITEMS
        &&& items.len() > 0 ==> items[0].signature == self.spec_start()
        &&& forall|i: int| 0 <= i < items.len() - 1 ==> (#[trigger] items[i + 1]).signature == parents[i]
        &&& forall|i: int| 0 <= i < items.len() ==> !(#[trigger] items[i]).signature.spec_is_zero()
        &&& !self.spec_finished() ==> {
            &&& self.spec_current() == (if items.len() == 0 { self.spec_start() } else { parents.last() })
            &&& items.len() < MAX_LEGACY_PAGE_ITEMS
        }
        &&& self.spec_finished() ==> (items.len() == MAX_LEGACY_PAGE_ITEMS || self.spec_current().spec_is_zero())
        &&& (items.len() > 0 && self.spec_full_iteration()) ==> self.spec_prev_step() == Some(
            StepBackfill {
                number: items.last().number,
                revision: items.last().signature,
                metadata: items.last().metadata,
            },
        )
    }

    /// Starts a legacy walk from `start`.
    pub fn start(start: ContentHash, full_iteration: bool, step: u64) -> (r: Self)
        requires
            step > 0,
        ensures
            r.inv(),
            r.spec_items().len() == 0,
            r.spec_start() == start,
            !r.spec_finished(),
            r.spec_full_iteration() == full_iteration,
            r.spec_step() == step,
            r.spec_prev_step() is None,
    {
        LegacyWalk {
            items: Vec::new(),
            parents: Ghost(Seq::empty()),
            start,
            current: start,
            prev_step: None,
            finished: false,
            full_iteration,
            step,
        }
    }

    /// The revision whose state the walk needs next, or nothing once the
    /// page is complete.
    pub fn wanted(&self) -> (r: Option<ContentHash>)
        requires
            self.inv(),
        ensures
            r == (if self.spec_finished() { None } else { Some(self.spec_current()) }),
    {
        if self.finished { None } else { Some(self.current) }
    }

    /// Whether no item has been gathered yet.
    pub fn is_first(&self) -> (r: bool)
        ensures
            r == (self.spec_items().len() == 0),
    {
        self.items.len() == 0
    }

    /// The answer to a failure to load the wanted state: a missing base
    /// revision is not found; anything else is internal (`detail` is the
    /// failure's text).
    pub fn load_failure(&self, not_found: bool, detail: &str) -> (r: RpcStatus)
        ensures
            (not_found && self.spec_items().len() == 0) ==> (r.code == RpcCode::NotFound
                && r.message@ == "Base revision not found"@),
            !(not_found && self.spec_items().len() == 0) ==> (r.code == RpcCode::Internal
                && r.message@ == detail@),
    {
        if not_found && self.items.len() == 0 {
            RpcStatus { code: RpcCode::NotFound, message: String::from_str("Base revision not found") }
        } else {
            RpcStatus { code: RpcCode::Internal, message: String::from_str(detail) }
        }
    }

    /// Takes the loaded state of the wanted revision. The zero hash ends the
    /// page; any other revision is added, and the page ends once full.
    /// Returns the step key worth backfilling, if any: in a full-iteration
    /// walk, the previous revision when the two lie in different step blocks.
    pub fn advance(&mut self, state: LegacyRevisionState) -> (r: Option<StepBackfill>)
        requires
            old(self).inv(),
            !old(self).spec_finished(),
        ensures
            final(self).inv(),
            final(self).spec_start() == old(self).spec_start(),
            final(self).spec_step() == old(self).spec_step(),
            final(self).spec_full_iteration() == old(self).spec_full_iteration(),
            if old(self).spec_current().spec_is_zero() {
                &&& final(self).spec_finished()
                &&& final(self).spec_items() == old(self).spec_items()
                &&& r is None
            } else {
                &&& final(self).spec_items() == old(self).spec_items().push(LegacyRevisionItem {
                    number: state.number,
                    signature: old(self).spec_current(),
                    metadata: state.metadata,
                })
                &&& final(self).spec_parents() == old(self).spec_parents().push(state.parent)
                &&& final(self).spec_finished() == (final(self).spec_items().len() == MAX_LEGACY_PAGE_ITEMS)
                &&& r == (if old(self).spec_full_iteration() && old(self).spec_prev_step() is Some
                    && old(self).spec_prev_step()->0.number / old(self).spec_step()
                        != state.number / old(self).spec_step() {
                    old(self).spec_prev_step()
                } else {
                    None
                })
            },
    {
        if self.current.is_zero() {
            self.finished = true;
            return None;
        }
        let backfill = match self.prev_step {
            Some(prev) => {
                if self.full_iteration && prev.number / self.step != state.number / self.step {
                    Some(prev)
                } else {
                    None
                }
            },
            None => None,
        };
        let item = LegacyRevisionItem { number: state.number, signature: self.current, metadata: state.metadata };
        if self.full_iteration {
            self.prev_step = Some(StepBackfill {
                number: state.number,
                revision: self.current,
                metadata: state.metadata,
            });
        }
        let ghost old_items = self.items@;
        self.items.push(item);
        self.parents = Ghost(self.parents@.push(state.parent));
        proof {
            assert forall|i: int| 0 <= i < self.items@.len() - 1
                implies (#[trigger] self.items@[i + 1]).signature == self.parents@[i] by {
                if i + 1 < old_items.len() {
                    assert(self.items@[i + 1] == old_items[i + 1]);
                }
            }
            assert forall|i: int| 0 <= i < self.items@.len()
                implies !(#[trigger] self.items@[i]).signature.spec_is_zero() by {
                if i < old_items.len() {
                    assert(self.items@[i] == old_items[i]);
                }
            }
        }
        self.current = state.parent;
        if self.items.len() == MAX_LEGACY_PAGE_ITEMS {
            self.finished = true;
        }
        backfill
    }

    /// Ends a complete walk, giving its items, newest first.
    pub fn into_items(self) -> (r: Vec<LegacyRevisionItem>)
        requires
            self.inv(),
            self.spec_finished(),
        ensures
            r@ == self.spec_items(),
    {
        self.items
    }
}

} // verus!
