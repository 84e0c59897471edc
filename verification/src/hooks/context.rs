//! The read-only context handed to hooks, its builder, and the identifier
//! types it carries.
use vstd::prelude::*;
use vstd::string::*;

use crate::hooks::traits::HookPoint;

verus! {

/// Identifier of a repository (a 128-bit UUID).
#[derive(Debug, Clone, Copy, PartialEq, Eq, Hash, Structural)]
pub struct RepositoryId {
    pub value: u128,
}

/// Identifier of a branch (a 128-bit UUID).
#[derive(Debug, Clone, Copy, PartialEq, Eq, Hash, Structural)]
pub struct BranchId {
    pub value: u128,
}

/// A 256-bit content hash, as its high and low 128-bit halves.
#[derive(Debug, Clone, Copy, PartialEq, Eq, Hash, Structural)]
pub struct ContentHash {
    pub high: u128,
    pub low: u128,
}

impl RepositoryId {
    /// Whether this is the all-zero identifier.
    pub fn is_zero(&self) -> (r: bool)
        ensures
            r == (self.value == 0),
    {
        self.value == 0
    }
}

impl BranchId {
    /// Whether this is the all-zero identifier.
    pub fn is_zero(&self) -> (r: bool)
        ensures
            r == (self.value == 0),
    {
        self.value == 0
    }
}

impl ContentHash {
    /// Whether this is the zero sentinel hash.
    pub open spec fn spec_is_zero(&self) -> bool {
        self.high == 0 && self.low == 0
    }

    /// Whether this is the zero sentinel hash.
    pub fn is_zero(&self) -> (r: bool)
        ensures
            r == self.spec_is_zero(),
    {
        self.high == 0 && self.low == 0
    }
}

impl Default for RepositoryId {
    fn default() -> (r: Self)
        ensures
            r.value == 0,
    {
        RepositoryId { value: 0 }
    }
}

impl Default for BranchId {
    fn default() -> (r: Self)
        ensures
            r.value == 0,
    {
        BranchId { value: 0 }
    }
}

impl Default for ContentHash {
    fn default() -> (r: Self)
        ensures
            r.spec_is_zero(),
    {
        ContentHash { high: 0, low: 0 }
    }
}

/// A map from string keys to string values, kept as a list of entries in
/// which no key occurs twice.
#[derive(Debug)]
pub struct StringMap {
    entries: Vec<(String, String)>,
}

/// Whether `k` is the key of some entry.
pub open spec fn entries_have_key(entries: Seq<(String, String)>, k: Seq<char>) -> bool {
    exists|i: int| 0 <= i < entries.len() && (#[trigger] entries[i]).0@ == k
}

/// The map that a list of entries with distinct keys stands for.
pub open spec fn entries_map(entries: Seq<(String, String)>) -> Map<Seq<char>, Seq<char>> {
    Map::new(
        |k: Seq<char>| entries_have_key(entries, k),
        |k: Seq<char>|
            entries[choose|i: int| 0 <= i < entries.len() && (#[trigger] entries[i]).0@ == k].1@,
    )
}

/// No key occurs twice among the entries.
pub open spec fn keys_distinct(entries: Seq<(String, String)>) -> bool {
    forall|i: int, j: int|
        0 <= i < entries.len() && 0 <= j < entries.len() && i != j
            ==> (#[trigger] entries[i]).0@ != (#[trigger] entries[j]).0@
}

impl View for StringMap {
    type V = Map<Seq<char>, Seq<char>>;

    closed spec fn view(&self) -> Map<Seq<char>, Seq<char>> {
        entries_map(self.entries@)
    }
}

impl StringMap {
    #[verifier::type_invariant]
    closed spec fn inv(&self) -> bool {
        keys_distinct(self.entries@)
    }

    /// An empty map.
    pub fn new() -> (r: Self)
        ensures
            r@ == Map::<Seq<char>, Seq<char>>::empty(),
    {
        let r = StringMap { entries: Vec::new() };
        assert(r@ =~= Map::<Seq<char>, Seq<char>>::empty());
        r
    }

    spec fn prefix_keys(&self, n: int) -> Set<Seq<char>> {
        Set::new(|k: Seq<char>| exists|i: int| 0 <= i < n && (#[trigger] self.entries@[i]).0@ == k)
    }

    proof fn lemma_dom_len_rec(&self, n: int)
        requires
            keys_distinct(self.entries@),
            0 <= n <= self.entries@.len(),
        ensures
            self.prefix_keys(n).finite(),
            self.prefix_keys(n).len() == n,
        decreases n,
    {
        if n == 0 {
            assert(self.prefix_keys(0) =~= Set::empty());
        } else {
            self.lemma_dom_len_rec(n - 1);
            let k = self.entries@[n - 1].0@;
            assert(self.prefix_keys(n) =~= self.prefix_keys(n - 1).insert(k));
            assert(!self.prefix_keys(n - 1).contains(k));
        }
    }

    /// The number of entries, which is the number of distinct keys.
    pub fn len(&self) -> (r: usize)
        ensures
            self@.dom().finite(),
            r == self@.dom().len(),
    {
        proof {
            use_type_invariant(self);
            self.lemma_dom_len_rec(self.entries@.len() as int);
            assert(self@.dom() =~= self.prefix_keys(self.entries@.len() as int));
        }
        self.entries.len()
    }

    /// Whether the map has no entries.
    pub fn is_empty(&self) -> (r: bool)
        ensures
            r == (self@ == Map::<Seq<char>, Seq<char>>::empty()),
    {
        proof {
            if self.entries@.len() > 0 {
                assert(self@.dom().contains(self.entries@[0].0@));
            } else {
                assert(self@ =~= Map::<Seq<char>, Seq<char>>::empty());
            }
        }
        self.entries.len() == 0
    }

    /// Looks up the value stored under `key`.
    pub fn get(&self, key: &str) -> (r: Option<&str>)
        ensures
            match r {
                Some(v) => self@.contains_key(key@) && v@ == self@[key@],
                None => !self@.contains_key(key@),
            },
    {
        proof { use_type_invariant(self); }
        let k = String::from_str(key);
        let mut i: usize = 0;
        while i < self.entries.len()
            invariant
                0 <= i <= self.entries@.len(),
                k@ == key@,
                keys_distinct(self.entries@),
                forall|j: int| 0 <= j < i ==> (#[trigger] self.entries@[j]).0@ != key@,
            decreases self.entries@.len() - i,
        {
            if self.entries[i].0 == k {
                proof {
                    assert(self.entries@[i as int].0@ == key@);
                    let c = choose|j: int| 0 <= j < self.entries@.len() && (#[trigger] self.entries@[j]).0@ == key@;
                    assert(c == i as int);
                }
                return Some(self.entries[i].1.as_str());
            }
            i = i + 1;
        }
        None
    }

    /// A copy of this map.
    pub fn clone(&self) -> (r: Self)
        ensures
            r@ == self@,
    {
        proof { use_type_invariant(self); }
        let mut copy: Vec<(String, String)> = Vec::new();
        let mut i: usize = 0;
        while i < self.entries.len()
            invariant
                0 <= i <= self.entries@.len(),
                copy@.len() == i,
                keys_distinct(self.entries@),
                forall|j: int| 0 <= j < i ==> (#[trigger] copy@[j]).0@ == self.entries@[j].0@
                    && copy@[j].1@ == self.entries@[j].1@,
            decreases self.entries@.len() - i,
        {
            let k = self.entries[i].0.clone();
            let v = self.entries[i].1.clone();
            copy.push((k, v));
            i = i + 1;
        }
        proof {
            assert forall|a: int, b: int|
                0 <= a < copy@.len() && 0 <= b < copy@.len() && a != b
                    implies (#[trigger] copy@[a]).0@ != (#[trigger] copy@[b]).0@ by {
                assert(self.entries@[a].0@ == copy@[a].0@);
                assert(self.entries@[b].0@ == copy@[b].0@);
            }
            lemma_same_views_same_map(self.entries@, copy@);
        }
        StringMap { entries: copy }
    }

    /// Stores `value` under `key`, replacing any earlier value.
    pub fn insert(&mut self, key: String, value: String)
        ensures
            final(self)@ == old(self)@.insert(key@, value@),
    {
        proof { use_type_invariant(&*self); }
        let mut entries: Vec<(String, String)> = Vec::new();
        std::mem::swap(&mut entries, &mut self.entries);
        let ghost before = entries@;
        insert_entry(&mut entries, key, value);
        self.entries = entries;
    }
}

/// Stores `value` under `key` in a list of entries with distinct keys.
fn insert_entry(entries: &mut Vec<(String, String)>, key: String, value: String)
    requires
        keys_distinct(old(entries)@),
    ensures
        keys_distinct(final(entries)@),
        entries_map(final(entries)@) == entries_map(old(entries)@).insert(key@, value@),
{
    let ghost before = entries@;
    let mut i: usize = 0;
    while i < entries.len()
        invariant
            0 <= i <= entries@.len(),
            entries@ == before,
            before == old(entries)@,
            keys_distinct(before),
            forall|j: int| 0 <= j < i ==> (#[trigger] entries@[j]).0@ != key@,
        decreases entries@.len() - i,
    {
        if entries[i].0 == key {
            let ghost kv = key@;
            let ghost vv = value@;
            proof { assert(before[i as int].0@ == kv); }
            entries.set(i, (key, value));
            proof {
                assert(entries@[i as int].0@ == kv);
                assert(entries@[i as int].1@ == vv);
                assert(forall|j: int| 0 <= j < before.len() && j != i ==> entries@[j] == before[j]);
                assert forall|a: int, b: int|
                    0 <= a < entries@.len() && 0 <= b < entries@.len() && a != b
                        implies (#[trigger] entries@[a]).0@ != (#[trigger] entries@[b]).0@ by {
                    assert(before[a].0@ == entries@[a].0@);
                    assert(before[b].0@ == entries@[b].0@);
                }
                lemma_map_after_update(before, entries@, i as int);
                assert(entries_map(entries@) == entries_map(before).insert(kv, vv));
                assert(kv == key@);
                assert(vv == value@);
            }
            return;
        }
        i = i + 1;
    }
    entries.push((key, value));
    proof {
        let n = before.len() as int;
        assert forall|a: int, b: int|
            0 <= a < entries@.len() && 0 <= b < entries@.len() && a != b
                implies (#[trigger] entries@[a]).0@ != (#[trigger] entries@[b]).0@ by {
            if a < n && b < n {
                assert(before[a] == entries@[a] && before[b] == entries@[b]);
            }
        }
        lemma_map_after_push(before, entries@);
    }
}

/// Two entry lists whose keys and values have equal views stand for the
/// same map.
proof fn lemma_same_views_same_map(a: Seq<(String, String)>, b: Seq<(String, String)>)
    requires
        a.len() == b.len(),
        forall|j: int| 0 <= j < a.len() ==> (#[trigger] b[j]).0@ == a[j].0@ && b[j].1@ == a[j].1@,
        keys_distinct(a),
    ensures
        entries_map(a) == entries_map(b),
{
    assert forall|k: Seq<char>| entries_have_key(a, k) <==> entries_have_key(b, k) by {
        if entries_have_key(a, k) {
            let c = choose|j: int| 0 <= j < a.len() && (#[trigger] a[j]).0@ == k;
            assert(b[c].0@ == k);
        }
        if entries_have_key(b, k) {
            let c = choose|j: int| 0 <= j < b.len() && (#[trigger] b[j]).0@ == k;
            assert(a[c].0@ == k);
        }
    }
    assert forall|k: Seq<char>| #[trigger] entries_map(a).contains_key(k)
        implies entries_map(a)[k] == entries_map(b)[k] by {
        let c = choose|j: int| 0 <= j < a.len() && (#[trigger] a[j]).0@ == k;
        let d = choose|j: int| 0 <= j < b.len() && (#[trigger] b[j]).0@ == k;
        assert(a[d].0@ == k);
        assert(c == d);
    }
    assert(entries_map(a) =~= entries_map(b));
}

/// Replacing the entry at `i` by one with the same key changes only that
/// key's value.
proof fn lemma_map_after_update(before: Seq<(String, String)>, after: Seq<(String, String)>, i: int)
    requires
        keys_distinct(before),
        keys_distinct(after),
        0 <= i < before.len(),
        after.len() == before.len(),
        after[i].0@ == before[i].0@,
        forall|j: int| 0 <= j < before.len() && j != i ==> after[j] == before[j],
    ensures
        entries_map(after) == entries_map(before).insert(after[i].0@, after[i].1@),
{
    let key = after[i].0@;
    let value = after[i].1@;
    assert forall|k: Seq<char>| entries_have_key(after, k) <==> (k == key || entries_have_key(before, k)) by {
        if entries_have_key(before, k) {
            let c = choose|j: int| 0 <= j < before.len() && (#[trigger] before[j]).0@ == k;
            if c == i { assert(after[i].0@ == k); } else { assert(after[c].0@ == k); }
        }
        if entries_have_key(after, k) {
            let c = choose|j: int| 0 <= j < after.len() && (#[trigger] after[j]).0@ == k;
            if c == i { assert(before[i].0@ == k); } else { assert(before[c].0@ == k); }
        }
        if k == key { assert(after[i].0@ == k); }
    }
    assert forall|k: Seq<char>| #[trigger] entries_map(after).contains_key(k)
        implies entries_map(after)[k] == entries_map(before).insert(key, value)[k] by {
        let c = choose|j: int| 0 <= j < after.len() && (#[trigger] after[j]).0@ == k;
        if k == key {
            assert(after[i].0@ == k);
        } else {
            assert(before[c].0@ == k);
            let d = choose|j: int| 0 <= j < before.len() && (#[trigger] before[j]).0@ == k;
            assert(c == d);
        }
    }
    assert(entries_map(after) =~= entries_map(before).insert(key, value));
}

/// Appending an entry with a new key adds that key with its value.
proof fn lemma_map_after_push(before: Seq<(String, String)>, after: Seq<(String, String)>)
    requires
        keys_distinct(after),
        after.len() == before.len() + 1,
        forall|j: int| 0 <= j < before.len() ==> after[j] == before[j],
    ensures
        entries_map(after) == entries_map(before).insert(
            after[before.len() as int].0@,
            after[before.len() as int].1@,
        ),
{
    let n = before.len() as int;
    let key = after[n].0@;
    let value = after[n].1@;
    assert forall|k: Seq<char>| entries_have_key(after, k) <==> (k == key || entries_have_key(before, k)) by {
        if entries_have_key(before, k) {
            let c = choose|j: int| 0 <= j < before.len() && (#[trigger] before[j]).0@ == k;
            assert(after[c].0@ == k);
        }
        if entries_have_key(after, k) {
            let c = choose|j: int| 0 <= j < after.len() && (#[trigger] after[j]).0@ == k;
            if c < n { assert(before[c].0@ == k); }
        }
        if k == key { assert(after[n].0@ == k); }
    }
    assert forall|k: Seq<char>| #[trigger] entries_map(after).contains_key(k)
        implies entries_map(after)[k] == entries_map(before).insert(key, value)[k] by {
        let c = choose|j: int| 0 <= j < after.len() && (#[trigger] after[j]).0@ == k;
        if k == key {
            assert(after[n].0@ == k);
        } else {
            assert(c < n);
            assert(before[c].0@ == k);
            let d = choose|j: int| 0 <= j < before.len() && (#[trigger] before[j]).0@ == k;
            assert(after[d].0@ == k);
        }
    }
    assert(entries_map(after) =~= entries_map(before).insert(key, value));
}

/// What a hook context holds, as plain values.
pub struct ContextView {
    pub correlation_id: Seq<char>,
    pub hook_point: HookPoint,
    pub repository: RepositoryId,
    pub user: Option<Seq<char>>,
    pub branch: Option<BranchId>,
    pub revision: Option<ContentHash>,
    pub revision_number: Option<u64>,
    pub metadata: Map<Seq<char>, Seq<char>>,
}

/// What a context builder holds, as plain values.
pub struct BuilderView {
    pub correlation_id: Option<Seq<char>>,
    pub hook_point: Option<HookPoint>,
    pub repository: Option<RepositoryId>,
    pub user: Option<Seq<char>>,
    pub branch: Option<BranchId>,
    pub revision: Option<ContentHash>,
    pub revision_number: Option<u64>,
    pub metadata: Map<Seq<char>, Seq<char>>,
}

/// The view of an optional string.
pub open spec fn opt_view(s: Option<String>) -> Option<Seq<char>> {
    match s {
        Some(v) => Some(v@),
        None => None,
    }
}

/// Context data passed to hooks: fixed when the context is built, except
/// for the revision number, which a handler may set after the operation.
#[derive(Debug)]
pub struct HookContext {
    correlation_id: String,
    hook_point: HookPoint,
    repository: RepositoryId,
    user: Option<String>,
    branch: Option<BranchId>,
    revision: Option<ContentHash>,
    revision_number: Option<u64>,
    metadata: StringMap,
}

impl View for HookContext {
    type V = ContextView;

    closed spec fn view(&self) -> ContextView {
        ContextView {
            correlation_id: self.correlation_id@,
            hook_point: self.hook_point,
            repository: self.repository,
            user: opt_view(self.user),
            branch: self.branch,
            revision: self.revision,
            revision_number: self.revision_number,
            metadata: self.metadata@,
        }
    }
}

/// The message `try_build` reports for the first required field that is
/// missing, if any.
pub open spec fn missing_field_message(b: BuilderView) -> Option<Seq<char>> {
    if b.correlation_id is None {
        Some("correlation_id is required for HookContext"@)
    } else if b.hook_point is None {
        Some("hook_point is required for HookContext"@)
    } else if b.repository is None {
        Some("repository is required for HookContext"@)
    } else {
        None
    }
}

/// The context that a builder with every required field set produces.
pub open spec fn built_context(b: BuilderView) -> ContextView {
    ContextView {
        correlation_id: b.correlation_id->0,
        hook_point: b.hook_point->0,
        repository: b.repository->0,
        user: b.user,
        branch: b.branch,
        revision: b.revision,
        revision_number: b.revision_number,
        metadata: b.metadata,
    }
}

impl HookContext {
    /// Creates a new builder for constructing a context.
    pub fn builder() -> (r: HookContextBuilder)
        ensures
            r@ == empty_builder_view(),
    {
        HookContextBuilder::new()
    }

    /// The correlation ID of this operation.
    pub fn correlation_id(&self) -> (r: &str)
        ensures
            r@ == self@.correlation_id,
    {
        self.correlation_id.as_str()
    }

    /// The hook point that triggered this hook execution.
    pub fn hook_point(&self) -> (r: HookPoint)
        ensures
            r == self@.hook_point,
    {
        self.hook_point
    }

    /// The repository of this operation.
    pub fn repository(&self) -> (r: RepositoryId)
        ensures
            r == self@.repository,
    {
        self.repository
    }

    /// The user performing this operation, if set.
    pub fn user(&self) -> (r: Option<&str>)
        ensures
            match r {
                Some(u) => self@.user == Some(u@),
                None => self@.user is None,
            },
    {
        match &self.user {
            Some(u) => Some(u.as_str()),
            None => None,
        }
    }

    /// The target branch of this operation, if set.
    pub fn branch(&self) -> (r: Option<BranchId>)
        ensures
            r == self@.branch,
    {
        self.branch
    }

    /// The target revision of this operation, if set.
    pub fn revision(&self) -> (r: Option<ContentHash>)
        ensures
            r == self@.revision,
    {
        self.revision
    }

    /// The revision number of this operation, if set.
    pub fn revision_number(&self) -> (r: Option<u64>)
        ensures
            r == self@.revision_number,
    {
        self.revision_number
    }

    /// Sets the revision number, leaving everything else unchanged.
    pub fn set_revision_number(&mut self, revision_number: u64)
        ensures
            final(self)@ == (ContextView { revision_number: Some(revision_number), ..old(self)@ }),
    {
        self.revision_number = Some(revision_number);
    }

    /// Looks up one metadata value.
    pub fn get_metadata(&self, key: &str) -> (r: Option<&str>)
        ensures
            match r {
                Some(v) => self@.metadata.contains_key(key@) && v@ == self@.metadata[key@],
                None => !self@.metadata.contains_key(key@),
            },
    {
        self.metadata.get(key)
    }

    /// All metadata.
    pub fn metadata(&self) -> (r: &StringMap)
        ensures
            r@ == self@.metadata,
    {
        &self.metadata
    }

    /// A copy of this context.
    pub fn clone(&self) -> (r: Self)
        ensures
            r@ == self@,
    {
        let user = match &self.user {
            Some(u) => Some(u.clone()),
            None => None,
        };
        HookContext {
            correlation_id: self.correlation_id.clone(),
            hook_point: self.hook_point,
            repository: self.repository,
            user,
            branch: self.branch,
            revision: self.revision,
            revision_number: self.revision_number,
            metadata: self.metadata.clone(),
        }
    }
}

/// The view of a builder with nothing set.
pub open spec fn empty_builder_view() -> BuilderView {
    BuilderView {
        correlation_id: None,
        hook_point: None,
        repository: None,
        user: None,
        branch: None,
        revision: None,
        revision_number: None,
        metadata: Map::empty(),
    }
}

/// Builder for [`HookContext`] values.
#[derive(Debug)]
pub struct HookContextBuilder {
    correlation_id: Option<String>,
    hook_point: Option<HookPoint>,
    repository: Option<RepositoryId>,
    user: Option<String>,
    branch: Option<BranchId>,
    revision: Option<ContentHash>,
    revision_number: Option<u64>,
    metadata: StringMap,
}

impl View for HookContextBuilder {
    type V = BuilderView;

    closed spec fn view(&self) -> BuilderView {
        BuilderView {
            correlation_id: opt_view(self.correlation_id),
            hook_point: self.hook_point,
            repository: self.repository,
            user: opt_view(self.user),
            branch: self.branch,
            revision: self.revision,
            revision_number: self.revision_number,
            metadata: self.metadata@,
        }
    }
}

impl HookContextBuilder {
    /// Creates a builder with nothing set.
    pub fn new() -> (r: Self)
        ensures
            r@ == empty_builder_view(),
    {
        HookContextBuilder {
            correlation_id: None,
            hook_point: None,
            repository: None,
            user: None,
            branch: None,
            revision: None,
            revision_number: None,
            metadata: StringMap::new(),
        }
    }

    /// Sets the correlation ID (required).
    pub fn correlation_id(self, correlation_id: &str) -> (r: Self)
        ensures
            r@ == (BuilderView { correlation_id: Some(correlation_id@), ..self@ }),
    {
        HookContextBuilder { correlation_id: Some(String::from_str(correlation_id)), ..self }
    }

    /// Sets the hook point (required).
    pub fn hook_point(self, hook_point: HookPoint) -> (r: Self)
        ensures
            r@ == (BuilderView { hook_point: Some(hook_point), ..self@ }),
    {
        HookContextBuilder { hook_point: Some(hook_point), ..self }
    }

    /// Sets the repository (required).
    pub fn repository(self, repository: RepositoryId) -> (r: Self)
        ensures
            r@ == (BuilderView { repository: Some(repository), ..self@ }),
    {
        HookContextBuilder { repository: Some(repository), ..self }
    }

    /// Sets the user.
    pub fn user(self, user: &str) -> (r: Self)
        ensures
            r@ == (BuilderView { user: Some(user@), ..self@ }),
    {
        HookContextBuilder { user: Some(String::from_str(user)), ..self }
    }

    /// Sets the branch.
    pub fn branch(self, branch: BranchId) -> (r: Self)
        ensures
            r@ == (BuilderView { branch: Some(branch), ..self@ }),
    {
        HookContextBuilder { branch: Some(branch), ..self }
    }

    /// Sets the revision hash.
    pub fn revision(self, revision: ContentHash) -> (r: Self)
        ensures
            r@ == (BuilderView { revision: Some(revision), ..self@ }),
    {
        HookContextBuilder { revision: Some(revision), ..self }
    }

    /// Sets the revision number.
    pub fn revision_number(self, revision_number: u64) -> (r: Self)
        ensures
            r@ == (BuilderView { revision_number: Some(revision_number), ..self@ }),
    {
        HookContextBuilder { revision_number: Some(revision_number), ..self }
    }

    /// Adds a metadata entry, replacing any earlier value of the key.
    pub fn metadata(self, key: &str, value: &str) -> (r: Self)
        ensures
            r@ == (BuilderView { metadata: self@.metadata.insert(key@, value@), ..self@ }),
    {
        let mut b = self;
        b.metadata.insert(String::from_str(key), String::from_str(value));
        b
    }

    /// Builds the context; every required field must have been set.
    pub fn build(self) -> (r: HookContext)
        requires
            missing_field_message(self@) is None,
        ensures
            r@ == built_context(self@),
    {
        HookContext {
            correlation_id: self.correlation_id.unwrap(),
            hook_point: self.hook_point.unwrap(),
            repository: self.repository.unwrap(),
            user: self.user,
            branch: self.branch,
            revision: self.revision,
            revision_number: self.revision_number,
            metadata: self.metadata,
        }
    }

    /// Builds the context, or names the first required field that is
    /// missing (checked in the order correlation ID, hook point, repository).
    pub fn try_build(self) -> (r: Result<HookContext, &'static str>)
        ensures
            match r {
                Ok(ctx) => missing_field_message(self@) is None && ctx@ == built_context(self@),
                Err(e) => missing_field_message(self@) == Some(e@),
            },
    {
        let correlation_id = match self.correlation_id {
            Some(c) => c,
            None => return Err("correlation_id is required for HookContext"),
        };
        let hook_point = match self.hook_point {
            Some(h) => h,
            None => return Err("hook_point is required for HookContext"),
        };
        let repository = match self.repository {
            Some(r) => r,
            None => return Err("repository is required for HookContext"),
        };
        Ok(HookContext {
            correlation_id,
            hook_point,
            repository,
            user: self.user,
            branch: self.branch,
            revision: self.revision,
            revision_number: self.revision_number,
            metadata: self.metadata,
        })
    }
}

impl Default for HookContextBuilder {
    fn default() -> (r: Self)
        ensures
            r@ == empty_builder_view(),
    {
        HookContextBuilder::new()
    }
}

} // verus!
