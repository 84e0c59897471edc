//! Validation of request inputs: field lengths of a new branch, non-zero
//! identifiers, and what a metadata update may change.
use vstd::prelude::*;
use vstd::string::*;

use crate::hooks::context::BranchId;
use crate::hooks::context::ContentHash;
use crate::hooks::context::RepositoryId;
use crate::status::append_decimal;
use crate::status::decimal_text;
use crate::status::RpcCode;
use crate::status::RpcStatus;

verus! {

/// The longest byte lengths that names may have.
#[derive(Debug, Clone, Copy)]
pub struct NameLimits {
    /// The longest branch name (and branch category), in bytes.
    pub branch_name: usize,
    /// The longest repository-level name (such as a branch's creator), in
    /// bytes.
    pub repository_name: usize,
}

/// The error, if any, for the fields of a branch to create: the first of
/// name, category and creator that is longer than its limit.
pub open spec fn create_input_error(
    name_len: nat,
    category_len: nat,
    creator_len: nat,
    limits: NameLimits,
) -> Option<Seq<char>> {
    if name_len > limits.branch_name {
        Some("Branch name exceeds maximum length of "@ + decimal_text(limits.branch_name as nat) + " bytes"@)
    } else if category_len > limits.branch_name {
        Some("Branch category exceeds maximum length of "@ + decimal_text(limits.branch_name as nat) + " bytes"@)
    } else if creator_len > limits.repository_name {
        Some("Creator exceeds maximum length of "@ + decimal_text(limits.repository_name as nat) + " bytes"@)
    } else {
        None
    }
}

/// Rejects oversized fields of a branch to create, early, as an invalid
/// argument.
pub fn validate_create_input(name: &str, category: &str, creator: &str, limits: NameLimits) -> (r: Result<(), RpcStatus>)
    ensures
        match create_input_error(name.len() as nat, category.len() as nat, creator.len() as nat, limits) {
            None => r is Ok,
            Some(m) => r matches Err(s) && s.code == RpcCode::InvalidArgument && s.message@ == m,
        },
{
    if name.len() > limits.branch_name {
        let mut m = String::from_str("Branch name exceeds maximum length of ");
        append_decimal(&mut m, limits.branch_name as u64);
        m.append(" bytes");
        assert(m@ == "Branch name exceeds maximum length of "@ + decimal_text(limits.branch_name as nat) + " bytes"@);
        return Err(RpcStatus { code: RpcCode::InvalidArgument, message: m });
    }
    if category.len() > limits.branch_name {
        let mut m = String::from_str("Branch category exceeds maximum length of ");
        append_decimal(&mut m, limits.branch_name as u64);
        m.append(" bytes");
        assert(m@ == "Branch category exceeds maximum length of "@ + decimal_text(limits.branch_name as nat) + " bytes"@);
        return Err(RpcStatus { code: RpcCode::InvalidArgument, message: m });
    }
    if creator.len() > limits.repository_name {
        let mut m = String::from_str("Creator exceeds maximum length of ");
        append_decimal(&mut m, limits.repository_name as u64);
        m.append(" bytes");
        assert(m@ == "Creator exceeds maximum length of "@ + decimal_text(limits.repository_name as nat) + " bytes"@);
        return Err(RpcStatus { code: RpcCode::InvalidArgument, message: m });
    }
    Ok(())
}

/// Rejects the zero branch identifier, which names no branch.
pub fn require_nonzero_branch(branch: BranchId) -> (r: Result<(), RpcStatus>)
    ensures
        branch.value == 0 ==> (r matches Err(s) && s.code == RpcCode::InvalidArgument
            && s.message@ == "Branch id must be non-zero"@),
        branch.value != 0 ==> r is Ok,
{
    if branch.is_zero() {
        Err(RpcStatus {
            code: RpcCode::InvalidArgument,
            message: String::from_str("Branch id must be non-zero"),
        })
    } else {
        Ok(())
    }
}

/// Rejects the zero branch identifier of a branch metadata lookup.
pub fn require_branch(branch: BranchId) -> (r: Result<(), RpcStatus>)
    ensures
        branch.value == 0 ==> (r matches Err(s) && s.code == RpcCode::InvalidArgument
            && s.message@ == "Missing branch ID"@),
        branch.value != 0 ==> r is Ok,
{
    if branch.is_zero() {
        Err(RpcStatus { code: RpcCode::InvalidArgument, message: String::from_str("Missing branch ID") })
    } else {
        Ok(())
    }
}

/// The answer when an address of an update names no stored blob
/// (`address` is its text).
pub fn blob_not_found(address: &str) -> (r: RpcStatus)
    ensures
        r.code == RpcCode::NotFound,
        r.message@ == "binary blob not found: "@ + address@,
{
    let mut m = String::from_str("binary blob not found: ");
    m.append(address);
    RpcStatus { code: RpcCode::NotFound, message: m }
}

/// The types of metadata values.
#[derive(Debug, Clone, Copy, PartialEq, Eq, Structural)]
pub enum MetadataType {
    Address,
    Boolean,
    Context,
    ContentHash,
    Numeric,
    String,
    Binary,
}

/// One entry of a metadata blob.
#[derive(Debug)]
pub struct MetadataEntry {
    pub key: String,
    pub value: Vec<u8>,
    pub value_type: MetadataType,
}

/// The typed value stored under a key: that of the first entry with the key.
pub open spec fn typed_value(entries: Seq<MetadataEntry>, key: Seq<char>) -> Option<(Seq<u8>, MetadataType)>
    decreases entries.len(),
{
    if entries.len() == 0 {
        None
    } else if entries[0].key@ == key {
        Some((entries[0].value@, entries[0].value_type))
    } else {
        typed_value(entries.drop_first(), key)
    }
}

/// Looks up the typed value stored under a key.
pub fn get_typed(entries: &Vec<MetadataEntry>, key: &String) -> (r: Option<usize>)
    ensures
        match r {
            Some(i) => i < entries@.len() && typed_value(entries@, key@)
                == Some((entries@[i as int].value@, entries@[i as int].value_type))
                && entries@[i as int].key@ == key@
                && (forall|j: int| 0 <= j < i ==> (#[trigger] entries@[j]).key@ != key@),
            None => typed_value(entries@, key@) is None
                && (forall|j: int| 0 <= j < entries@.len() ==> (#[trigger] entries@[j]).key@ != key@),
        },
{
    let mut i: usize = 0;
    assert(entries@.subrange(0, entries@.len() as int) =~= entries@);
    while i < entries.len()
        invariant
            0 <= i <= entries@.len(),
            typed_value(entries@, key@) == typed_value(entries@.subrange(i as int, entries@.len() as int), key@),
            forall|j: int| 0 <= j < i ==> (#[trigger] entries@[j]).key@ != key@,
        decreases entries@.len() - i,
    {
        let ghost tail = entries@.subrange(i as int, entries@.len() as int);
        proof {
            assert(tail.drop_first() =~= entries@.subrange(i + 1, entries@.len() as int));
            assert(tail[0] == entries@[i as int]);
        }
        if entries[i].key == *key {
            return Some(i);
        }
        i = i + 1;
    }
    proof {
        assert(entries@.subrange(i as int, entries@.len() as int).len() == 0);
    }
    None
}

fn bytes_equal(a: &Vec<u8>, b: &Vec<u8>) -> (r: bool)
    ensures
        r == (a@ == b@),
{
    if a.len() != b.len() {
        return false;
    }
    let mut i: usize = 0;
    while i < a.len()
        invariant
            a@.len() == b@.len(),
            0 <= i <= a@.len(),
            forall|j: int| 0 <= j < i ==> a@[j] == b@[j],
        decreases a@.len() - i,
    {
        if a[i] != b[i] {
            return false;
        }
        i = i + 1;
    }
    assert(a@ =~= b@);
    true
}

/// What a read-only key's values before and after an update say: a change
/// of type or bytes is a modification, a value that disappears a removal,
/// and anything else is allowed.
pub open spec fn read_only_violation(key: Seq<char>, current: Option<(Seq<u8>, MetadataType)>, proposed: Option<(Seq<u8>, MetadataType)>) -> Option<Seq<char>> {
    match (current, proposed) {
        (Some(c), Some(p)) => if c.1 != p.1 || c.0 != p.0 {
            Some("cannot modify read-only key '"@ + key + "'"@)
        } else {
            None
        },
        (Some(_), None) => Some("cannot remove read-only key '"@ + key + "'"@),
        (None, _) => None,
    }
}

/// The first violation among the read-only keys, in their order.
pub open spec fn first_read_only_violation(keys: Seq<String>, current: Seq<MetadataEntry>, proposed: Seq<MetadataEntry>) -> Option<Seq<char>>
    decreases keys.len(),
{
    if keys.len() == 0 {
        None
    } else {
        match read_only_violation(keys[0]@, typed_value(current, keys[0]@), typed_value(proposed, keys[0]@)) {
            Some(m) => Some(m),
            None => first_read_only_violation(keys.drop_first(), current, proposed),
        }
    }
}

/// Checks that an update of a metadata blob leaves its read-only keys as
/// they were: none may change type or bytes, or disappear (a read-only key
/// may be added). The first violation is an invalid argument.
pub fn validate_read_only_fields(
    read_only_keys: &Vec<String>,
    current: &Vec<MetadataEntry>,
    proposed: &Vec<MetadataEntry>,
) -> (r: Result<(), RpcStatus>)
    ensures
        match first_read_only_violation(read_only_keys@, current@, proposed@) {
            None => r is Ok,
            Some(m) => r matches Err(s) && s.code == RpcCode::InvalidArgument && s.message@ == m,
        },
        r is Ok ==> forall|i: int| 0 <= i < read_only_keys@.len()
            && (#[trigger] typed_value(current@, read_only_keys@[i]@)) is Some
            ==> typed_value(proposed@, read_only_keys@[i]@) == typed_value(current@, read_only_keys@[i]@),
        r is Err ==> (r matches Err(s) && s.code == RpcCode::InvalidArgument),
{
    proof {
        if first_read_only_violation(read_only_keys@, current@, proposed@) is None {
            lemma_accepted_update_keeps_read_only(read_only_keys@, current@, proposed@);
        }
    }
    let mut i: usize = 0;
    assert(read_only_keys@.subrange(0, read_only_keys@.len() as int) =~= read_only_keys@);
    while i < read_only_keys.len()
        invariant
            0 <= i <= read_only_keys@.len(),
            first_read_only_violation(read_only_keys@, current@, proposed@)
                == first_read_only_violation(read_only_keys@.subrange(i as int, read_only_keys@.len() as int), current@, proposed@),
        decreases read_only_keys@.len() - i,
    {
        let ghost tail = read_only_keys@.subrange(i as int, read_only_keys@.len() as int);
        proof {
            assert(tail.drop_first() =~= read_only_keys@.subrange(i + 1, read_only_keys@.len() as int));
            assert(tail[0] == read_only_keys@[i as int]);
        }
        let key = &read_only_keys[i];
        let c = get_typed(current, key);
        let p = get_typed(proposed, key);
        match c {
            Some(ci) => {
                match p {
                    Some(pi) => {
                        if current[ci].value_type != proposed[pi].value_type
                            || !bytes_equal(&current[ci].value, &proposed[pi].value) {
                            let mut m = String::from_str("cannot modify read-only key '");
                            m.append(key.as_str());
                            m.append("'");
                            return Err(RpcStatus { code: RpcCode::InvalidArgument, message: m });
                        }
                    },
                    None => {
                        let mut m = String::from_str("cannot remove read-only key '");
                        m.append(key.as_str());
                        m.append("'");
                        return Err(RpcStatus { code: RpcCode::InvalidArgument, message: m });
                    },
                }
            },
            None => {},
        }
        i = i + 1;
    }
    proof {
        assert(read_only_keys@.subrange(i as int, read_only_keys@.len() as int).len() == 0);
    }
    Ok(())
}

/// The values of the address-typed entries whose size is that of an
/// address, in order: the binary blobs an update refers to.
pub open spec fn referenced_addresses(entries: Seq<MetadataEntry>, address_size: nat) -> Seq<Seq<u8>>
    decreases entries.len(),
{
    if entries.len() == 0 {
        Seq::empty()
    } else {
        let rest = referenced_addresses(entries.drop_last(), address_size);
        let last = entries.last();
        if last.value_type == MetadataType::Address && last.value@.len() == address_size {
            rest.push(last.value@)
        } else {
            rest
        }
    }
}

/// Collects the addresses that the address-typed entries of a metadata
/// blob refer to (each of which must name an existing blob).
pub fn collect_addresses(entries: &Vec<MetadataEntry>, address_size: usize) -> (r: Vec<Vec<u8>>)
    ensures
        r@.map_values(|a: Vec<u8>| a@) == referenced_addresses(entries@, address_size as nat),
{
    let mut r: Vec<Vec<u8>> = Vec::new();
    let mut i: usize = 0;
    while i < entries.len()
        invariant
            0 <= i <= entries@.len(),
            r@.map_values(|a: Vec<u8>| a@) == referenced_addresses(entries@.subrange(0, i as int), address_size as nat),
        decreases entries@.len() - i,
    {
        proof {
            assert(entries@.subrange(0, i + 1).drop_last() =~= entries@.subrange(0, i as int));
            assert(entries@.subrange(0, i + 1).last() == entries@[i as int]);
        }
        if entries[i].value_type == MetadataType::Address && entries[i].value.len() == address_size {
            let ghost prev = r@;
            let copy = copy_bytes(&entries[i].value);
            r.push(copy);
            proof {
                assert(r@.map_values(|a: Vec<u8>| a@) =~= prev.map_values(|a: Vec<u8>| a@).push(entries@[i as int].value@));
            }
        }
        i = i + 1;
    }
    proof {
        assert(entries@.subrange(0, entries@.len() as int) =~= entries@);
    }
    r
}

fn copy_bytes(v: &Vec<u8>) -> (r: Vec<u8>)
    ensures
        r@ == v@,
{
    let mut r: Vec<u8> = Vec::new();
    let mut i: usize = 0;
    while i < v.len()
        invariant
            0 <= i <= v@.len(),
            r@ == v@.subrange(0, i as int),
        decreases v@.len() - i,
    {
        r.push(v[i]);
        proof {
            assert(r@ =~= v@.subrange(0, i + 1));
        }
        i = i + 1;
    }
    proof {
        assert(v@.subrange(0, v@.len() as int) =~= v@);
    }
    r
}

/// The metadata pointer a branch metadata compare-and-swap answers with:
/// the updated pointer when the swap took place (the stored pointer was the
/// expected one), else the stored pointer, unchanged.
pub fn branch_metadata_cas_response(expected: ContentHash, updated: ContentHash, previous: ContentHash) -> (r: ContentHash)
    ensures
        previous == expected ==> r == updated,
        previous != expected ==> r == previous,
{
    if previous == expected { updated } else { previous }
}

/// The answer to a repository metadata compare-and-swap: whether the swap
/// took place, and the pointer stored afterwards.
pub fn repository_metadata_cas_response(expected: ContentHash, new_hash: ContentHash, previous: ContentHash) -> (r: (bool, ContentHash))
    ensures
        r.0 == (previous == expected),
        r.1 == (if previous == expected { new_hash } else { previous }),
{
    if previous == expected { (true, new_hash) } else { (false, previous) }
}

/// Rejects the zero repository identifier of a repository metadata update.
pub fn require_repository(repository: RepositoryId) -> (r: Result<(), RpcStatus>)
    ensures
        repository.value == 0 ==> (r matches Err(s) && s.code == RpcCode::InvalidArgument
            && s.message@ == "Missing repository ID"@),
        repository.value != 0 ==> r is Ok,
{
    if repository.is_zero() {
        Err(RpcStatus { code: RpcCode::InvalidArgument, message: String::from_str("Missing repository ID") })
    } else {
        Ok(())
    }
}

/// Whether looking a branch up by id must check the name mapping to tell
/// a deleted branch: only a branch whose metadata holds a non-empty name.
pub fn deletion_check_needed(name: Option<&str>) -> (r: bool)
    ensures
        r == (name matches Some(n) && n@.len() > 0),
{
    match name {
        Some(n) => !n.is_empty(),
        None => false,
    }
}

/// Whether a branch found by id has been deleted: deletion keeps the
/// metadata but clears the name-to-id mapping, so a branch with a non-empty
/// name is deleted unless its name still maps to it. `mapped` is what the
/// name maps to (absent when the lookup failed or was not needed).
pub fn branch_deleted(name: Option<&str>, mapped: Option<BranchId>, branch: BranchId) -> (r: bool)
    ensures
        r == ((name matches Some(n) && n@.len() > 0) && !(mapped == Some(branch))),
{
    if deletion_check_needed(name) {
        match mapped {
            Some(id) => id != branch,
            None => true,
        }
    } else {
        false
    }
}

/// Law: an update that leaves every read-only key that is present with the
/// same type and bytes (it may add one that was absent) is accepted.
pub proof fn lemma_unchanged_read_only_accepted(keys: Seq<String>, current: Seq<MetadataEntry>, proposed: Seq<MetadataEntry>)
    requires
        forall|i: int| 0 <= i < keys.len() ==> (typed_value(current, (#[trigger] keys[i])@) is None
            || typed_value(proposed, keys[i]@) == typed_value(current, keys[i]@)),
    ensures
        first_read_only_violation(keys, current, proposed) is None,
    decreases keys.len(),
{
    if keys.len() > 0 {
        let rest = keys.drop_first();
        assert forall|i: int| 0 <= i < rest.len() implies (typed_value(current, (#[trigger] rest[i])@) is None
            || typed_value(proposed, rest[i]@) == typed_value(current, rest[i]@)) by {
            assert(rest[i] == keys[i + 1]);
        }
        lemma_unchanged_read_only_accepted(rest, current, proposed);
        assert(keys[0] == keys[0]);
    }
}

/// Law: an update that drops a read-only key that is present is refused.
pub proof fn lemma_removed_read_only_refused(keys: Seq<String>, current: Seq<MetadataEntry>, proposed: Seq<MetadataEntry>, i: int)
    requires
        0 <= i < keys.len(),
        typed_value(current, keys[i]@) is Some,
        typed_value(proposed, keys[i]@) is None,
    ensures
        first_read_only_violation(keys, current, proposed) is Some,
    decreases keys.len(),
{
    if i > 0 {
        match read_only_violation(keys[0]@, typed_value(current, keys[0]@), typed_value(proposed, keys[0]@)) {
            Some(_) => {},
            None => {
                let rest = keys.drop_first();
                assert(rest[i - 1] == keys[i]);
                lemma_removed_read_only_refused(rest, current, proposed, i - 1);
            },
        }
    }
}

/// Law: the typed value stored under a key is the type and bytes of the
/// first entry with that key, and there is none when no entry has the key.
pub proof fn lemma_typed_value_first_entry(entries: Seq<MetadataEntry>, key: Seq<char>)
    ensures
        (typed_value(entries, key) is None) == (forall|j: int| 0 <= j < entries.len() ==> (#[trigger] entries[j]).key@ != key),
        typed_value(entries, key) is Some ==> exists|i: int| {
            &&& 0 <= i < entries.len()
            &&& (#[trigger] entries[i]).key@ == key
            &&& (forall|j: int| 0 <= j < i ==> (#[trigger] entries[j]).key@ != key)
            &&& typed_value(entries, key) == Some((entries[i].value@, entries[i].value_type))
        },
    decreases entries.len(),
{
    if entries.len() > 0 {
        let rest = entries.drop_first();
        lemma_typed_value_first_entry(rest, key);
        if entries[0].key@ != key {
            assert forall|j: int| 0 <= j < rest.len() implies rest[j] == entries[j + 1] by {}
            if typed_value(rest, key) is Some {
                let i = choose|i: int| {
                    &&& 0 <= i < rest.len()
                    &&& (#[trigger] rest[i]).key@ == key
                    &&& (forall|j: int| 0 <= j < i ==> (#[trigger] rest[j]).key@ != key)
                    &&& typed_value(rest, key) == Some((rest[i].value@, rest[i].value_type))
                };
                assert(entries[i + 1] == rest[i]);
                assert forall|j: int| 0 <= j < i + 1 implies (#[trigger] entries[j]).key@ != key by {
                    if j > 0 {
                        assert(entries[j] == rest[j - 1]);
                    }
                }
            } else {
                assert forall|j: int| 0 <= j < entries.len() implies (#[trigger] entries[j]).key@ != key by {
                    if j > 0 {
                        assert(entries[j] == rest[j - 1]);
                    }
                }
            }
        }
    }
}

/// Law: an update accepted by the read-only check leaves every read-only
/// key that is present with the same type and the same bytes.
pub proof fn lemma_accepted_update_keeps_read_only(keys: Seq<String>, current: Seq<MetadataEntry>, proposed: Seq<MetadataEntry>)
    requires
        first_read_only_violation(keys, current, proposed) is None,
    ensures
        forall|i: int| 0 <= i < keys.len() && (#[trigger] typed_value(current, keys[i]@)) is Some
            ==> typed_value(proposed, keys[i]@) == typed_value(current, keys[i]@),
    decreases keys.len(),
{
    if keys.len() > 0 {
        let rest = keys.drop_first();
        lemma_accepted_update_keeps_read_only(rest, current, proposed);
        assert forall|i: int| 0 <= i < keys.len() && (#[trigger] typed_value(current, keys[i]@)) is Some
            implies typed_value(proposed, keys[i]@) == typed_value(current, keys[i]@) by {
            if i > 0 {
                assert(keys[i] == rest[i - 1]);
                assert(typed_value(current, rest[i - 1]@) is Some);
            } else {
                let c = typed_value(current, keys[0]@);
                let p = typed_value(proposed, keys[0]@);
                assert(read_only_violation(keys[0]@, c, p) is None);
                let cv = c->0;
                let pv = p->0;
                assert(cv.0 =~= pv.0);
            }
        }
    }
}

/// Law: an update that changes the bytes or the type of a read-only key
/// present before and after is refused.
pub proof fn lemma_changed_read_only_refused(keys: Seq<String>, current: Seq<MetadataEntry>, proposed: Seq<MetadataEntry>, i: int)
    requires
        0 <= i < keys.len(),
        typed_value(current, keys[i]@) is Some,
        typed_value(proposed, keys[i]@) is Some,
        typed_value(proposed, keys[i]@) != typed_value(current, keys[i]@),
    ensures
        first_read_only_violation(keys, current, proposed) is Some,
{
    if first_read_only_violation(keys, current, proposed) is None {
        lemma_accepted_update_keeps_read_only(keys, current, proposed);
        assert(typed_value(current, keys[i]@) is Some);
    }
}

} // verus!
