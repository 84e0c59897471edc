//! Revision state history: the signatures (and optionally the metadata
//! hashes) of a revision's `parent_self` ancestors, up to a capped depth.
//!
//! Loading states is left to the caller; the walk says which revision it
//! wants next and what the loaded state, or a failure to load it, means.
use vstd::prelude::*;
use vstd::string::*;

use crate::hooks::context::ContentHash;
use crate::status::RpcCode;
use crate::status::RpcStatus;

verus! {

/// The deepest history one request may ask for.
pub const MAX_STATE_HISTORY_DEPTH: usize = 100;

/// What loading one revision's state yields, for the history walk.
#[derive(Debug, Clone, Copy, PartialEq, Eq, Structural)]
pub struct HistoryState {
    pub metadata: ContentHash,
    pub parent_self: ContentHash,
    pub parent_other: ContentHash,
}

/// The depth a request is served with: its own, capped at 100.
pub open spec fn capped_depth(requested: u32) -> nat {
    if requested > MAX_STATE_HISTORY_DEPTH { MAX_STATE_HISTORY_DEPTH as nat } else { requested as nat }
}

/// A revision state history being gathered.
pub struct HistoryWalk {
    signatures: Vec<ContentHash>,
    metadata: Vec<ContentHash>,
    revision: ContentHash,
    depth: usize,
    base: bool,
    finished: bool,
    merge_refused: bool,
    with_metadata: bool,
    follow_merge: bool,
    visited: Ghost<Seq<ContentHash>>,
}

impl HistoryWalk {
    /// The signatures gathered so far (the base revision excluded).
    pub closed spec fn spec_signatures(&self) -> Seq<ContentHash> {
        self.signatures@
    }

    /// The metadata hashes gathered so far.
    pub closed spec fn spec_metadata(&self) -> Seq<ContentHash> {
        self.metadata@
    }

    /// The revision the walk wants loaded next.
    pub closed spec fn spec_revision(&self) -> ContentHash {
        self.revision
    }

    /// The depth still to walk.
    pub closed spec fn spec_depth(&self) -> nat {
        self.depth as nat
    }

    /// Whether the next state loaded is the base revision's.
    pub closed spec fn spec_base(&self) -> bool {
        self.base
    }

    /// Whether the walk is over.
    pub closed spec fn spec_finished(&self) -> bool {
        self.finished
    }

    /// Whether the walk ended on a merge it may not follow.
    pub closed spec fn spec_merge_refused(&self) -> bool {
        self.merge_refused
    }

    /// Whether metadata hashes are gathered.
    pub closed spec fn spec_with_metadata(&self) -> bool {
        self.with_metadata
    }

    /// Whether merges are to be followed.
    pub closed spec fn spec_follow_merge(&self) -> bool {
        self.follow_merge
    }

    /// The revisions whose states were loaded, in order.
    pub closed spec fn spec_visited(&self) -> Seq<ContentHash> {
        self.visited@
    }

    /// The walk's consistency: every revision loaded after the base one is
    /// recorded, along with its metadata when asked for; no more are loaded
    /// than the depth allows.
    pub open spec fn inv(&self) -> bool {
        let visited = self.spec_visited();
        let sigs = self.spec_signatures();
        &&& self.spec_base() <==> visited.len() == 0
        &&& visited.len() > 0 ==> sigs == visited.drop_first()
        &&& visited.len() == 0 ==> sigs.len() == 0
        &&& self.spec_with_metadata() ==> self.spec_metadata().len() == sigs.len()
        &&& !self.spec_with_metadata() ==> self.spec_metadata().len() == 0
        &&& visited.len() + self.spec_depth() <= MAX_STATE_HISTORY_DEPTH + 1
        &&& visited.len() <= MAX_STATE_HISTORY_DEPTH
        &&& !self.spec_finished() ==> self.spec_depth() > 0
            && visited.len() + self.spec_depth() <= MAX_STATE_HISTORY_DEPTH
        &&& self.spec_merge_refused() ==> self.spec_finished()
    }

    /// Starts gathering the history of `revision` to the requested depth,
    /// capped at 100; a depth of 0 gathers nothing.
    pub fn start(revision: ContentHash, depth: u32, with_metadata: bool, follow_merge: bool) -> (r: Self)
        ensures
            r.inv(),
            r.spec_revision() == revision,
            r.spec_depth() == capped_depth(depth),
            r.spec_finished() == (capped_depth(depth) == 0),
            r.spec_base(),
            !r.spec_merge_refused(),
            r.spec_with_metadata() == with_metadata,
            r.spec_follow_merge() == follow_merge,
    {
        let d: usize = if depth as u64 > 100 { 100 } else { depth as usize };
        HistoryWalk {
            signatures: Vec::new(),
            metadata: Vec::new(),
            revision,
            depth: d,
            base: true,
            finished: d == 0,
            merge_refused: false,
            with_metadata,
            follow_merge,
            visited: Ghost(Seq::empty()),
        }
    }

    /// The revision whose state the walk needs next, or nothing once it is
    /// over.
    pub fn wanted(&self) -> (r: Option<ContentHash>)
        ensures
            r == (if self.spec_finished() { None } else { Some(self.spec_revision()) }),
    {
        if self.finished { None } else { Some(self.revision) }
    }

    /// The answer to a failure to load the wanted state: a missing base
    /// revision is not found; a missing ancestor, or any other failure, is
    /// internal (`detail` describes the other failure).
    pub fn load_failure(&self, not_found: bool, detail: &str) -> (r: RpcStatus)
        ensures
            (not_found && self.spec_base()) ==> (r.code == RpcCode::NotFound
                && r.message@ == "Base revision not found"@),
            (not_found && !self.spec_base()) ==> (r.code == RpcCode::Internal
                && r.message@ == "Failed reading state data from immutable store"@),
            !not_found ==> (r.code == RpcCode::Internal && r.message@ == detail@),
    {
        if not_found {
            if self.base {
                RpcStatus { code: RpcCode::NotFound, message: String::from_str("Base revision not found") }
            } else {
                RpcStatus {
                    code: RpcCode::Internal,
                    message: String::from_str("Failed reading state data from immutable store"),
                }
            }
        } else {
            RpcStatus { code: RpcCode::Internal, message: String::from_str(detail) }
        }
    }

    /// Takes the loaded state of the wanted revision. A revision after the
    /// base one is recorded (with its metadata when asked for); the zero
    /// revision ends the walk; otherwise the walk moves to the parent, one
    /// level deeper, unless it meets a merge it may not follow.
    pub fn advance(&mut self, state: HistoryState)
        requires
            old(self).inv(),
            !old(self).spec_finished(),
        ensures
            final(self).inv(),
            final(self).spec_with_metadata() == old(self).spec_with_metadata(),
            final(self).spec_follow_merge() == old(self).spec_follow_merge(),
            final(self).spec_visited() == old(self).spec_visited().push(old(self).spec_revision()),
            final(self).spec_metadata() == (if old(self).spec_with_metadata() && !old(self).spec_base() {
                old(self).spec_metadata().push(state.metadata)
            } else {
                old(self).spec_metadata()
            }),
            old(self).spec_revision().spec_is_zero() ==> final(self).spec_finished() && !final(self).spec_merge_refused(),
            !old(self).spec_revision().spec_is_zero() ==> {
                &&& final(self).spec_revision() == state.parent_self
                &&& final(self).spec_depth() == old(self).spec_depth() - 1
                &&& final(self).spec_merge_refused() == (old(self).spec_follow_merge()
                    && !state.parent_other.spec_is_zero())
                &&& final(self).spec_finished() == (final(self).spec_merge_refused()
                    || final(self).spec_depth() == 0)
            },
    {
        let ghost old_visited = self.visited@;
        if !self.base {
            self.signatures.push(self.revision);
            if self.with_metadata {
                self.metadata.push(state.metadata);
            }
        }
        self.visited = Ghost(self.visited@.push(self.revision));
        proof {
            if old_visited.len() > 0 {
                assert(self.visited@.drop_first() =~= old_visited.drop_first().push(self.revision));
            } else {
                assert(self.visited@.drop_first() =~= Seq::<ContentHash>::empty());
            }
            assert(self.signatures@ == self.visited@.drop_first());
            assert(self.with_metadata ==> self.metadata@.len() == self.signatures@.len());
        }
        if self.revision.is_zero() {
            self.base = false;
            self.finished = true;
            return;
        }
        self.revision = state.parent_self;
        self.base = false;
        self.depth = self.depth - 1;
        if self.follow_merge && !state.parent_other.is_zero() {
            self.merge_refused = true;
            self.finished = true;
            return;
        }
        if self.depth == 0 {
            self.finished = true;
        }
    }

    /// Ends the walk: the signatures and metadata gathered, or the refusal
    /// of a merge it may not follow.
    pub fn into_result(self) -> (r: Result<(Vec<ContentHash>, Vec<ContentHash>), RpcStatus>)
        requires
            self.inv(),
            self.spec_finished(),
        ensures
            self.spec_merge_refused() ==> (r matches Err(s) && s.code == RpcCode::Unimplemented
                && s.message@ == "Revision state history follow merge not implemented"@),
            !self.spec_merge_refused() ==> (r matches Ok(p) && p.0@ == self.spec_signatures()
                && p.1@ == self.spec_metadata()),
    {
        if self.merge_refused {
            Err(RpcStatus {
                code: RpcCode::Unimplemented,
                message: String::from_str("Revision state history follow merge not implemented"),
            })
        } else {
            Ok((self.signatures, self.metadata))
        }
    }
}

/// Law: however deep a request asks to go, its walk loads at most 100
/// revision states and answers with fewer than 100 signatures.
pub proof fn lemma_history_loads_capped(w: HistoryWalk)
    requires
        w.inv(),
    ensures
        w.spec_visited().len() <= MAX_STATE_HISTORY_DEPTH,
        w.spec_signatures().len() < MAX_STATE_HISTORY_DEPTH,
{
}

} // verus!
