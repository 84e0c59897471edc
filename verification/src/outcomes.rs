//! How request handlers answer: input checks, the limits they apply, and
//! the statuses that the outcomes of repository operations map to.
use vstd::prelude::*;
use vstd::string::*;

use crate::hooks::context::BranchId;
use crate::hooks::context::ContentHash;
use crate::status::append_decimal;
use crate::status::decimal_text;
use crate::status::RpcCode;
use crate::status::RpcStatus;

verus! {

/// The most revisions one branch revision listing returns.
pub const REVISIONS_LIMIT: u32 = 100;

/// The number of revisions a branch revision listing asks for: the
/// requested number (100 when none is given), capped at 100.
pub fn branch_revision_list_limit(requested: Option<u32>) -> (r: u32)
    ensures
        r == (match requested {
            Some(n) => if n < REVISIONS_LIMIT { n } else { REVISIONS_LIMIT },
            None => REVISIONS_LIMIT,
        }),
{
    let n = match requested {
        Some(n) => n,
        None => REVISIONS_LIMIT,
    };
    if n < REVISIONS_LIMIT { n } else { REVISIONS_LIMIT }
}

/// A branch revision listing needs a branch unless it gives a source
/// revision.
pub fn check_branch_revision_list(branch: Option<BranchId>, source: Option<ContentHash>) -> (r: Result<(), RpcStatus>)
    ensures
        (branch is None && source is None) ==> (r matches Err(s) && s.code == RpcCode::InvalidArgument
            && s.message@ == "branch is required when source is not provided"@),
        !(branch is None && source is None) ==> r is Ok,
{
    if branch.is_none() && source.is_none() {
        Err(RpcStatus {
            code: RpcCode::InvalidArgument,
            message: String::from_str("branch is required when source is not provided"),
        })
    } else {
        Ok(())
    }
}

/// Why listing a branch's revisions failed.
pub enum ListRevisionsFailure {
    /// The branch does not exist.
    BranchNotFound,
    /// The arguments are invalid (with the failure's text).
    InvalidArguments(String),
    /// Anything else.
    Other,
}

/// The status a failed branch revision listing answers with.
pub fn list_revisions_failure_status(failure: ListRevisionsFailure) -> (r: RpcStatus)
    ensures
        match failure {
            ListRevisionsFailure::BranchNotFound => r.code == RpcCode::NotFound
                && r.message@ == "Branch does not exist"@,
            ListRevisionsFailure::InvalidArguments(m) => r.code == RpcCode::InvalidArgument && r.message@ == m@,
            ListRevisionsFailure::Other => r.code == RpcCode::Internal
                && r.message@ == "Failed to retrieve the branch revision list"@,
        },
{
    match failure {
        ListRevisionsFailure::BranchNotFound => RpcStatus {
            code: RpcCode::NotFound,
            message: String::from_str("Branch does not exist"),
        },
        ListRevisionsFailure::InvalidArguments(m) => RpcStatus { code: RpcCode::InvalidArgument, message: m },
        ListRevisionsFailure::Other => RpcStatus {
            code: RpcCode::Internal,
            message: String::from_str("Failed to retrieve the branch revision list"),
        },
    }
}

/// How deleting a branch went.
pub enum DeleteOutcome {
    /// The branch was deleted.
    Deleted,
    /// There was no such branch.
    BranchNotFound,
    /// The branch is protected against deletion.
    DeleteProtected,
    /// Anything else (with the failure's text).
    Failed(String),
}

/// The answer to a branch deletion: success, with whether the deletion is
/// to be announced (notification and post hooks) — only a branch actually
/// deleted is; deleting a missing branch succeeds quietly; a protected
/// branch is a failed precondition.
pub fn delete_outcome_answer(outcome: DeleteOutcome) -> (r: Result<bool, RpcStatus>)
    ensures
        match outcome {
            DeleteOutcome::Deleted => r == Ok::<bool, RpcStatus>(true),
            DeleteOutcome::BranchNotFound => r == Ok::<bool, RpcStatus>(false),
            DeleteOutcome::DeleteProtected => r matches Err(s) && s.code == RpcCode::FailedPrecondition
                && s.message@ == "Branch is delete protected"@,
            DeleteOutcome::Failed(m) => r matches Err(s) && s.code == RpcCode::Internal && s.message@ == m@,
        },
{
    match outcome {
        DeleteOutcome::Deleted => Ok(true),
        DeleteOutcome::BranchNotFound => Ok(false),
        DeleteOutcome::DeleteProtected => Err(RpcStatus {
            code: RpcCode::FailedPrecondition,
            message: String::from_str("Branch is delete protected"),
        }),
        DeleteOutcome::Failed(m) => Err(RpcStatus { code: RpcCode::Internal, message: m }),
    }
}

/// Why protecting a branch failed (with the failure's text).
pub enum ProtectFailure {
    BranchNotFound(String),
    Other(String),
}

/// The status a failed branch protection answers with.
pub fn protect_failure_status(failure: ProtectFailure) -> (r: RpcStatus)
    ensures
        match failure {
            ProtectFailure::BranchNotFound(m) => r.code == RpcCode::NotFound && r.message@ == m@,
            ProtectFailure::Other(m) => r.code == RpcCode::Internal && r.message@ == m@,
        },
{
    match failure {
        ProtectFailure::BranchNotFound(m) => RpcStatus { code: RpcCode::NotFound, message: m },
        ProtectFailure::Other(m) => RpcStatus { code: RpcCode::Internal, message: m },
    }
}

/// Why diffing two branches failed (with the failure's text).
pub enum DiffFailure {
    /// The branches have no common history.
    Divergent(String),
    /// The search for a common ancestor went deeper than allowed.
    MaxHistorySearchDepth(String),
    /// Anything else.
    Other(String),
}

/// The status a failed branch diff answers with.
pub fn diff_failure_status(failure: DiffFailure) -> (r: RpcStatus)
    ensures
        match failure {
            DiffFailure::Divergent(m) => r.code == RpcCode::InvalidArgument && r.message@ == m@,
            DiffFailure::MaxHistorySearchDepth(m) => r.code == RpcCode::ResourceExhausted && r.message@ == m@,
            DiffFailure::Other(m) => r.code == RpcCode::Internal && r.message@ == m@,
        },
{
    match failure {
        DiffFailure::Divergent(m) => RpcStatus { code: RpcCode::InvalidArgument, message: m },
        DiffFailure::MaxHistorySearchDepth(m) => RpcStatus { code: RpcCode::ResourceExhausted, message: m },
        DiffFailure::Other(m) => RpcStatus { code: RpcCode::Internal, message: m },
    }
}

/// The revision a branch diff compares on one side: the one requested, or
/// else the branch's latest.
pub fn diff_side_revision(requested: Option<ContentHash>, latest: ContentHash) -> (r: ContentHash)
    ensures
        r == (match requested { Some(h) => h, None => latest }),
{
    match requested {
        Some(h) => h,
        None => latest,
    }
}

/// The answer to a branch listing whose listing failed: a repository
/// without branches lists none (an empty answer, `Ok`); any other failure
/// is internal (`detail` is its text).
pub fn branch_list_failure_answer(no_branches: bool, detail: String) -> (r: Result<(), RpcStatus>)
    ensures
        no_branches ==> r is Ok,
        !no_branches ==> (r matches Err(s) && s.code == RpcCode::Internal && s.message@ == detail@),
{
    if no_branches {
        Ok(())
    } else {
        Err(RpcStatus { code: RpcCode::Internal, message: detail })
    }
}

/// A listed branch: its identifier and its record.
#[derive(Debug)]
pub struct ListedBranch<R> {
    pub id: BranchId,
    pub record: R,
}

/// The values present in a sequence of optional values, in order.
pub open spec fn present<T>(s: Seq<Option<T>>) -> Seq<T>
    decreases s.len(),
{
    if s.len() == 0 {
        Seq::empty()
    } else {
        let rest = present(s.drop_last());
        match s.last() {
            Some(v) => rest.push(v),
            None => rest,
        }
    }
}

/// The branches of a listing whose records loaded, in order; a branch
/// whose metadata failed to load is left out.
pub fn loaded_branches<R>(loaded: Vec<Option<ListedBranch<R>>>) -> (r: Vec<ListedBranch<R>>)
    ensures
        r@ == present(loaded@),
{
    let ghost orig = loaded@;
    let n = loaded.len();
    let mut rest = loaded;
    let mut r: Vec<ListedBranch<R>> = Vec::new();
    let mut k: usize = 0;
    while k < n
        invariant
            n == orig.len(),
            0 <= k <= n,
            rest@ == orig.subrange(k as int, n as int),
            r@ == present(orig.subrange(0, k as int)),
        decreases n - k,
    {
        let item = rest.remove(0);
        proof {
            assert(item == orig[k as int]);
            assert(rest@ =~= orig.subrange(k + 1, n as int));
            assert(orig.subrange(0, k + 1).drop_last() =~= orig.subrange(0, k as int));
            assert(orig.subrange(0, k + 1).last() == orig[k as int]);
        }
        match item {
            Some(b) => r.push(b),
            None => {},
        }
        k = k + 1;
    }
    proof {
        assert(orig.subrange(0, n as int) =~= orig);
    }
    r
}

/// The identifiers of the listed branches, in order.
pub fn listed_ids<R>(listed: &Vec<ListedBranch<R>>) -> (r: Vec<BranchId>)
    ensures
        r@ == listed@.map_values(|b: ListedBranch<R>| b.id),
{
    let mut r: Vec<BranchId> = Vec::new();
    let mut i: usize = 0;
    while i < listed.len()
        invariant
            0 <= i <= listed@.len(),
            r@ == listed@.subrange(0, i as int).map_values(|b: ListedBranch<R>| b.id),
        decreases listed@.len() - i,
    {
        r.push(listed[i].id);
        proof {
            assert(listed@.subrange(0, i + 1).map_values(|b: ListedBranch<R>| b.id)
                =~= listed@.subrange(0, i as int).map_values(|b: ListedBranch<R>| b.id).push(listed@[i as int].id));
        }
        i = i + 1;
    }
    proof {
        assert(listed@.subrange(0, listed@.len() as int) =~= listed@);
    }
    r
}

/// Completes a branch listing: when the repository's default branch is
/// set, is missing from the listing and its record loaded (`default`), it
/// is appended, once; otherwise the listing stays as it is.
pub fn with_default_branch<R>(listed: Vec<ListedBranch<R>>, default_branch: BranchId, default: Option<ListedBranch<R>>) -> (r: Vec<ListedBranch<R>>)
    requires
        default matches Some(d) ==> d.id == default_branch,
    ensures
        ({
            let ids = listed@.map_values(|b: ListedBranch<R>| b.id);
            if default_branch.value != 0 && !ids.contains(default_branch) && default is Some {
                r@ == listed@.push(default->0)
            } else {
                r@ == listed@
            }
        }),
{
    let ids = listed_ids(&listed);
    let missing = default_branch_missing(default_branch, &ids);
    let mut listed = listed;
    if missing {
        match default {
            Some(d) => listed.push(d),
            None => {},
        }
    }
    listed
}

/// Law: a completed branch listing holds the loaded branches, in order,
/// and then at most the default branch; once completed, it lists the
/// default branch whenever that is set and its record loaded, and lists it
/// once when it was missing before.
pub proof fn lemma_branch_list_answer<R>(
    loaded: Seq<Option<ListedBranch<R>>>,
    default_branch: BranchId,
    default: Option<ListedBranch<R>>,
    answer: Seq<ListedBranch<R>>,
)
    requires
        default matches Some(d) ==> d.id == default_branch,
        ({
            let listed = present(loaded);
            let ids = listed.map_values(|b: ListedBranch<R>| b.id);
            if default_branch.value != 0 && !ids.contains(default_branch) && default is Some {
                answer == listed.push(default->0)
            } else {
                answer == listed
            }
        }),
    ensures
        answer.subrange(0, present(loaded).len() as int) == present(loaded),
        answer.len() <= present(loaded).len() + 1,
        answer.len() == present(loaded).len() + 1 ==> answer.last() == default->0,
        (default_branch.value != 0 && default is Some) ==> answer.map_values(|b: ListedBranch<R>| b.id).contains(default_branch),
        (!present(loaded).map_values(|b: ListedBranch<R>| b.id).contains(default_branch)) ==> forall|i: int, j: int|
            0 <= i < j < answer.len() && answer[i].id == default_branch ==> answer[j].id != default_branch,
{
    let listed = present(loaded);
    let ids = listed.map_values(|b: ListedBranch<R>| b.id);
    let aids = answer.map_values(|b: ListedBranch<R>| b.id);
    assert(answer.subrange(0, listed.len() as int) =~= listed);
    if default_branch.value != 0 && default is Some {
        if ids.contains(default_branch) {
            let k = choose|k: int| 0 <= k < ids.len() && ids[k] == default_branch;
            assert(aids[k] == default_branch);
        } else {
            assert(aids[listed.len() as int] == default_branch);
        }
    }
    if !ids.contains(default_branch) {
        assert forall|i: int, j: int| 0 <= i < j < answer.len() && answer[i].id == default_branch
            implies answer[j].id != default_branch by {
            if i < listed.len() {
                assert(ids[i] == answer[i].id);
            }
        }
    }
}

/// The answer when a diffed branch's metadata cannot be loaded (`detail`
/// is the failure's text).
pub fn diff_branch_not_found(detail: String) -> (r: RpcStatus)
    ensures
        r.code == RpcCode::NotFound,
        r.message@ == detail@,
{
    RpcStatus { code: RpcCode::NotFound, message: detail }
}

/// What a branch deletion does next.
pub enum DeleteStep {
    /// Delete the branch.
    Delete,
    /// Announce the deletion (notification, then post hooks) and answer
    /// with success.
    Announce,
    /// Answer with this result; nothing more is done.
    Answer(Result<(), RpcStatus>),
}

/// The step after the pre-hooks: a veto (given as its status) is the
/// answer and nothing is deleted; otherwise the branch is deleted.
pub fn delete_after_pre_hooks(pre: Result<(), RpcStatus>) -> (r: DeleteStep)
    ensures
        match pre {
            Ok(()) => r is Delete,
            Err(s) => r == DeleteStep::Answer(Err(s)),
        },
{
    match pre {
        Ok(()) => DeleteStep::Delete,
        Err(s) => DeleteStep::Answer(Err(s)),
    }
}

/// The step after the deletion: a deleted branch is announced; a missing
/// branch is a quiet success; a protected branch a failed precondition;
/// any other failure internal. Only a deleted branch is announced.
pub fn delete_after_delete(outcome: DeleteOutcome) -> (r: DeleteStep)
    ensures
        match outcome {
            DeleteOutcome::Deleted => r is Announce,
            DeleteOutcome::BranchNotFound => r == DeleteStep::Answer(Ok(())),
            DeleteOutcome::DeleteProtected => r matches DeleteStep::Answer(Err(s))
                && s.code == RpcCode::FailedPrecondition && s.message@ == "Branch is delete protected"@,
            DeleteOutcome::Failed(m) => r matches DeleteStep::Answer(Err(s)) && s.code == RpcCode::Internal
                && s.message@ == m@,
        },
{
    match delete_outcome_answer(outcome) {
        Ok(true) => DeleteStep::Announce,
        Ok(false) => DeleteStep::Answer(Ok(())),
        Err(s) => DeleteStep::Answer(Err(s)),
    }
}

/// The effects of a branch deletion, in order, given whether the
/// pre-hooks let it go ahead and how the deletion went.
#[derive(Debug, Clone, Copy, PartialEq, Eq, Structural)]
pub enum DeleteEffect {
    RunPreHooks,
    DeleteBranch,
    Notify,
    SpawnPostHooks,
}

/// The effects of a deletion: the pre-hooks always run; the branch is
/// deleted only when they let it; the deletion is announced (notification,
/// then post hooks) only when the branch was deleted.
pub open spec fn delete_effects(pre_ok: bool, outcome_deleted: bool) -> Seq<DeleteEffect> {
    if !pre_ok {
        seq![DeleteEffect::RunPreHooks]
    } else if !outcome_deleted {
        seq![DeleteEffect::RunPreHooks, DeleteEffect::DeleteBranch]
    } else {
        seq![DeleteEffect::RunPreHooks, DeleteEffect::DeleteBranch, DeleteEffect::Notify, DeleteEffect::SpawnPostHooks]
    }
}

/// Law: following the deletion steps, the branch is deleted only after
/// pre-hooks that let it go ahead, and announced (notification before the
/// post hooks) exactly when it was deleted.
pub proof fn lemma_delete_order(pre: Result<(), RpcStatus>, outcome: DeleteOutcome, first: DeleteStep, second: DeleteStep)
    requires
        match pre {
            Ok(()) => first is Delete,
            Err(s) => first == DeleteStep::Answer(Err(s)),
        },
        first is Delete ==> match outcome {
            DeleteOutcome::Deleted => second is Announce,
            DeleteOutcome::BranchNotFound => second == DeleteStep::Answer(Ok(())),
            DeleteOutcome::DeleteProtected => second matches DeleteStep::Answer(Err(s))
                && s.code == RpcCode::FailedPrecondition,
            DeleteOutcome::Failed(m) => second matches DeleteStep::Answer(Err(s)) && s.code == RpcCode::Internal,
        },
    ensures
        (first is Delete) == (pre is Ok),
        (first is Delete && second is Announce) == (pre is Ok && outcome is Deleted),
        delete_effects(pre is Ok, outcome is Deleted).contains(DeleteEffect::Notify)
            == (first is Delete && second is Announce),
{
    if pre is Ok && outcome is Deleted {
        assert(delete_effects(true, true)[2] == DeleteEffect::Notify);
    }
    if !(pre is Ok && outcome is Deleted) {
        let e = delete_effects(pre is Ok, outcome is Deleted);
        assert(!e.contains(DeleteEffect::Notify)) by {
            if e.contains(DeleteEffect::Notify) {
                let k = choose|k: int| 0 <= k < e.len() && e[k] == DeleteEffect::Notify;
            }
        }
    }
}

/// Whether a branch listing must add the repository's default branch: it
/// has one (non-zero) and none of the listed branches is it.
pub fn default_branch_missing(default_branch: BranchId, listed: &Vec<BranchId>) -> (r: bool)
    ensures
        r == (default_branch.value != 0 && !listed@.contains(default_branch)),
{
    if default_branch.is_zero() {
        return false;
    }
    let mut i: usize = 0;
    while i < listed.len()
        invariant
            0 <= i <= listed@.len(),
            forall|j: int| 0 <= j < i ==> listed@[j] != default_branch,
        decreases listed@.len() - i,
    {
        if listed[i] == default_branch {
            assert(listed@[i as int] == default_branch);
            return false;
        }
        i = i + 1;
    }
    true
}

/// The status of a failed obliteration: an absent address is not found (so
/// that clients can treat it as done), anything else internal. `address`
/// is the address's text and `detail` the failure's.
pub fn obliterate_failure_status(address: &str, absent: bool, detail: &str) -> (r: RpcStatus)
    ensures
        absent ==> (r.code == RpcCode::NotFound && r.message@ == "Address not found: "@ + address@),
        !absent ==> (r.code == RpcCode::Internal
            && r.message@ == "Failed to obliterate "@ + address@ + ": "@ + detail@),
{
    if absent {
        let mut m = String::from_str("Address not found: ");
        m.append(address);
        RpcStatus { code: RpcCode::NotFound, message: m }
    } else {
        let mut m = String::from_str("Failed to obliterate ");
        m.append(address);
        m.append(": ");
        m.append(detail);
        RpcStatus { code: RpcCode::Internal, message: m }
    }
}

/// The answer to an obliteration the caller may not perform.
pub fn obliterate_permission_denied() -> (r: RpcStatus)
    ensures
        r.code == RpcCode::PermissionDenied,
        r.message@ == "Permission denied"@,
{
    RpcStatus { code: RpcCode::PermissionDenied, message: String::from_str("Permission denied") }
}

/// The answer when an obliteration could not be announced.
pub fn obliterate_notification_failed() -> (r: RpcStatus)
    ensures
        r.code == RpcCode::Internal,
        r.message@ == "Obliterate failed"@,
{
    RpcStatus { code: RpcCode::Internal, message: String::from_str("Obliterate failed") }
}

/// A point a new branch starts from: a branch and a revision on it.
#[derive(Debug, Clone, PartialEq, Eq)]
pub struct BranchPoint<B, R> {
    pub branch: B,
    pub revision: R,
}

/// The stack of a branch to create: the one requested, or, when it is
/// empty and the request gives both the older parent branch and revision
/// fields, the single point they name.
pub fn creation_stack<B, R>(stack: Vec<BranchPoint<B, R>>, parent: Option<B>, revision: Option<R>) -> (r: Vec<BranchPoint<B, R>>)
    ensures
        (stack@.len() == 0 && parent is Some && revision is Some) ==> r@ == seq![
            BranchPoint { branch: parent->0, revision: revision->0 },
        ],
        !(stack@.len() == 0 && parent is Some && revision is Some) ==> r@ == stack@,
{
    let mut stack = stack;
    if stack.len() == 0 {
        match (parent, revision) {
            (Some(branch), Some(revision)) => {
                stack.push(BranchPoint { branch, revision });
                proof {
                    assert(stack@ =~= seq![BranchPoint { branch, revision }]);
                }
            },
            _ => {},
        }
    }
    stack
}

/// A branch lookup must say whether it is by id or by name.
pub fn check_branch_get_query(has_query: bool) -> (r: Result<(), RpcStatus>)
    ensures
        !has_query ==> (r matches Err(s) && s.code == RpcCode::InvalidArgument
            && s.message@ == "BranchGetRequest.query must be set (id or name)"@),
        has_query ==> r is Ok,
{
    if has_query {
        Ok(())
    } else {
        Err(RpcStatus {
            code: RpcCode::InvalidArgument,
            message: String::from_str("BranchGetRequest.query must be set (id or name)"),
        })
    }
}

/// The answer when no branch has the looked-up id (`id` is its text).
pub fn branch_id_not_found(id: &str) -> (r: RpcStatus)
    ensures
        r.code == RpcCode::NotFound,
        r.message@ == "Branch "@ + id@ + " not found"@,
{
    let mut m = String::from_str("Branch ");
    m.append(id);
    m.append(" not found");
    RpcStatus { code: RpcCode::NotFound, message: m }
}

/// The answer when no live branch has the looked-up name.
pub fn branch_name_not_found(name: &str) -> (r: RpcStatus)
    ensures
        r.code == RpcCode::NotFound,
        r.message@ == "Branch named '"@ + name@ + "' not found"@,
{
    let mut m = String::from_str("Branch named '");
    m.append(name);
    m.append("' not found");
    RpcStatus { code: RpcCode::NotFound, message: m }
}

/// What describing a revision failed to load.
#[derive(Debug, Clone, Copy, PartialEq, Eq, Structural)]
pub enum DescribeFailure {
    /// The revision's state.
    State,
    /// The revision's metadata.
    Metadata,
    /// The state of its `parent_self`.
    ParentState,
    /// The state of its `parent_other`.
    ParentOtherState,
}

/// The text a describe failure is answered with.
pub open spec fn describe_failure_text(f: DescribeFailure) -> Seq<char> {
    match f {
        DescribeFailure::State => "Invalid revision state"@,
        DescribeFailure::Metadata => "Invalid revision metadata"@,
        DescribeFailure::ParentState => "Invalid parent revision state"@,
        DescribeFailure::ParentOtherState => "Invalid parent other revision state"@,
    }
}

/// The status a failed revision description answers with: an invalid
/// argument naming what could not be loaded.
pub fn describe_failure_status(failure: DescribeFailure) -> (r: RpcStatus)
    ensures
        r.code == RpcCode::InvalidArgument,
        r.message@ == describe_failure_text(failure),
{
    let m = match failure {
        DescribeFailure::State => "Invalid revision state",
        DescribeFailure::Metadata => "Invalid revision metadata",
        DescribeFailure::ParentState => "Invalid parent revision state",
        DescribeFailure::ParentOtherState => "Invalid parent other revision state",
    };
    RpcStatus { code: RpcCode::InvalidArgument, message: String::from_str(m) }
}

/// The status of a revision diff whose state could not be loaded: the
/// `from` side (`from_side`) or the `to` side.
pub fn revision_diff_load_failure(from_side: bool) -> (r: RpcStatus)
    ensures
        r.code == RpcCode::InvalidArgument,
        from_side ==> r.message@ == "Invalid from state"@,
        !from_side ==> r.message@ == "Invalid to state"@,
{
    if from_side {
        RpcStatus { code: RpcCode::InvalidArgument, message: String::from_str("Invalid from state") }
    } else {
        RpcStatus { code: RpcCode::InvalidArgument, message: String::from_str("Invalid to state") }
    }
}

/// The HTTP answers of the health check.
#[derive(Debug, Clone, Copy, PartialEq, Eq, Structural)]
pub enum HealthStatus {
    /// The server is healthy (HTTP 200).
    Healthy,
    /// The server cannot serve (HTTP 503).
    ServiceUnavailable,
}

/// The health check: unavailable only when the store's health is checked
/// and the store is not available.
pub fn health_check_status(store_health_check: bool, available: bool) -> (r: HealthStatus)
    ensures
        r == (if store_health_check && !available { HealthStatus::ServiceUnavailable } else { HealthStatus::Healthy }),
{
    if store_health_check && !available {
        HealthStatus::ServiceUnavailable
    } else {
        HealthStatus::Healthy
    }
}

/// The amount of memory a server reports: whole gibibytes, rounded down.
pub fn ram_text(total_memory_bytes: u64) -> (r: String)
    ensures
        r@ == decimal_text((total_memory_bytes / 1073741824) as nat) + " GiB"@,
{
    let mut m = String::new();
    append_decimal(&mut m, total_memory_bytes / 1024 / 1024 / 1024);
    m.append(" GiB");
    proof {
        assert(total_memory_bytes / 1024 / 1024 / 1024 == total_memory_bytes / 1073741824) by (nonlinear_arith);
    }
    m
}

} // verus!
