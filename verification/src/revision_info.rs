//! Describing one revision to a thin client: the commit fields read out of
//! its metadata blob, the remaining entries rendered as text, and the
//! answers to a missing query or revision.
use vstd::prelude::*;
use vstd::string::*;

use crate::hooks::context::BranchId;
use crate::hooks::context::ContentHash;
use crate::status::append_decimal;
use crate::status::decimal_text;
use crate::status::RpcCode;
use crate::status::RpcStatus;
use crate::validation::MetadataType;

verus! {

/// The text that a byte string encodes, when it is valid UTF-8.
pub open spec fn utf8_text(bytes: Seq<u8>) -> Option<Seq<char>> {
    if vstd::utf8::valid_utf8(bytes) {
        Some(vstd::utf8::decode_utf8(bytes))
    } else {
        None
    }
}

/// Decodes bytes as UTF-8 with `std::str::from_utf8`, which accepts exactly
/// the valid UTF-8 byte strings (no overlong forms, surrogates or values
/// above U+10FFFF) and decodes them to their characters.
#[verifier::external_body]
fn decode_utf8(bytes: &[u8]) -> (r: Option<String>)
    ensures
        match r {
            Some(s) => utf8_text(bytes@) == Some(s@),
            None => utf8_text(bytes@) is None,
        },
{
    match std::str::from_utf8(bytes) {
        Ok(s) => Some(s.to_string()),
        Err(_) => None,
    }
}

/// The metadata keys that hold a revision's commit fields.
pub struct CommitKeys {
    pub message: String,
    pub timestamp: String,
    pub created_by: String,
    pub committed_by: String,
    /// The key of the branch the revision was made on, which is reported
    /// through the revision's identifier and not repeated as an entry.
    pub branch: String,
}

/// One entry of a revision's metadata blob, as its walk hands it out.
pub struct WalkedMetadata {
    pub key: Vec<u8>,
    pub value: Vec<u8>,
    pub value_type: MetadataType,
    /// The value rendered as text according to its type, when it decodes
    /// as that type (not used for binary values).
    pub rendered: Option<String>,
}

/// A metadata entry of the revision record.
#[derive(Debug)]
pub struct RevisionMetadataEntry {
    pub key: String,
    pub value: String,
    pub metadata_type: MetadataType,
}

/// The commit fields and remaining metadata entries of a revision.
#[derive(Debug)]
pub struct CommitSummary {
    pub commit_message: String,
    pub timestamp: u64,
    pub created_by: String,
    pub committed_by: String,
    pub metadata: Vec<RevisionMetadataEntry>,
}

/// A commit summary as plain values.
pub struct SummaryView {
    pub message: Seq<char>,
    pub timestamp: u64,
    pub created_by: Seq<char>,
    pub committed_by: Seq<char>,
    pub extra: Seq<(Seq<char>, Seq<char>, MetadataType)>,
}

/// An entry of the revision record as plain values.
pub open spec fn entry_view(m: RevisionMetadataEntry) -> (Seq<char>, Seq<char>, MetadataType) {
    (m.key@, m.value@, m.metadata_type)
}

/// A commit summary as plain values.
pub open spec fn summary_view(s: CommitSummary) -> SummaryView {
    SummaryView {
        message: s.commit_message@,
        timestamp: s.timestamp,
        created_by: s.created_by@,
        committed_by: s.committed_by@,
        extra: s.metadata@.map_values(|m: RevisionMetadataEntry| entry_view(m)),
    }
}

/// The little-endian value of a byte string.
pub open spec fn le_value(b: Seq<u8>) -> nat
    decreases b.len(),
{
    if b.len() == 0 {
        0
    } else {
        b[0] as nat + 256 * le_value(b.drop_first())
    }
}

/// `256` to the power `n`.
pub open spec fn pow256(n: nat) -> nat
    decreases n,
{
    if n == 0 {
        1
    } else {
        256 * pow256((n - 1) as nat)
    }
}

proof fn lemma_le_value_bound(b: Seq<u8>)
    ensures
        le_value(b) < pow256(b.len()),
    decreases b.len(),
{
    if b.len() > 0 {
        lemma_le_value_bound(b.drop_first());
        let x = le_value(b.drop_first());
        let p = pow256(b.drop_first().len());
        let d = b[0] as nat;
        assert(d + 256 * x < 256 * p) by (nonlinear_arith)
            requires
                x < p,
                d < 256,
        ;
    }
}

proof fn lemma_pow256_monotone(a: nat, b: nat)
    requires
        a <= b,
    ensures
        pow256(a) <= pow256(b),
    decreases b,
{
    if a < b {
        lemma_pow256_monotone(a, (b - 1) as nat);
    }
}

/// Decodes eight bytes as a little-endian `u64` (as `u64::from_le_bytes`).
fn le_u64(b: &Vec<u8>) -> (r: u64)
    requires
        b@.len() == 8,
    ensures
        r == le_value(b@),
{
    let mut acc: u64 = 0;
    let mut i: usize = 8;
    proof {
        assert(b@.subrange(8, 8).len() == 0);
    }
    while i > 0
        invariant
            0 <= i <= 8,
            b@.len() == 8,
            acc == le_value(b@.subrange(i as int, 8)),
        decreases i,
    {
        proof {
            let s = b@.subrange(i - 1, 8);
            let t = b@.subrange(i as int, 8);
            assert(s.drop_first() =~= t);
            assert(s[0] == b@[i - 1]);
            lemma_le_value_bound(t);
            lemma_pow256_monotone(t.len(), 7);
            assert(pow256(7) == 72057594037927936) by {
                reveal_with_fuel(pow256, 8);
            }
            assert(acc * 256 + 255 <= u64::MAX) by (nonlinear_arith)
                requires
                    acc < 72057594037927936,
            ;
        }
        acc = acc * 256 + b[i - 1] as u64;
        i = i - 1;
    }
    proof {
        assert(b@.subrange(0, 8) =~= b@);
    }
    acc
}

/// The text a binary value is shown as.
pub open spec fn binary_text(len: nat) -> Seq<char> {
    "<Binary, "@ + decimal_text(len) + " bytes>"@
}

/// The text of an optional string.
pub open spec fn rendered_text(r: Option<String>) -> Option<Seq<char>> {
    match r {
        Some(s) => Some(s@),
        None => None,
    }
}

/// The text an entry's value is shown as: its size for a binary value,
/// else its rendering, if it has one.
pub open spec fn encoded_value(value_len: nat, value_type: MetadataType, rendered: Option<Seq<char>>) -> Option<Seq<char>> {
    if value_type == MetadataType::Binary {
        Some(binary_text(value_len))
    } else {
        rendered
    }
}

/// Renders a metadata entry of the revision record; an entry whose value
/// has no rendering is left out.
pub fn encode_metadata_entry(key: String, value: &Vec<u8>, value_type: MetadataType, rendered: &Option<String>) -> (r: Option<RevisionMetadataEntry>)
    ensures
        match r {
            Some(m) => encoded_value(value@.len(), value_type, rendered_text(*rendered)) == Some(m.value@)
                && m.key@ == key@ && m.metadata_type == value_type,
            None => encoded_value(value@.len(), value_type, rendered_text(*rendered)) is None,
        },
{
    if value_type == MetadataType::Binary {
        let mut text = String::from_str("<Binary, ");
        append_decimal(&mut text, value.len() as u64);
        text.append(" bytes>");
        proof {
            assert(text@ == binary_text(value@.len()));
        }
        Some(RevisionMetadataEntry { key, value: text, metadata_type: value_type })
    } else {
        match rendered {
            Some(t) => Some(RevisionMetadataEntry { key, value: t.clone(), metadata_type: value_type }),
            None => None,
        }
    }
}

/// The summary before any entry is read.
pub open spec fn initial_summary() -> SummaryView {
    SummaryView {
        message: Seq::empty(),
        timestamp: 0,
        created_by: Seq::empty(),
        committed_by: Seq::empty(),
        extra: Seq::empty(),
    }
}

/// What one metadata entry does to the summary. An entry whose key is not
/// UTF-8 is skipped. The message is the value's text (empty when it is not
/// UTF-8); the timestamp is taken from an eight-byte value only; the
/// creator and committer from a UTF-8 value only; the branch entry is left
/// out; any other entry is added when its value can be shown.
pub open spec fn summary_step(s: SummaryView, e: WalkedMetadata, keys: CommitKeys) -> SummaryView {
    match utf8_text(e.key@) {
        None => s,
        Some(k) => if k == keys.message@ {
            SummaryView {
                message: match utf8_text(e.value@) {
                    Some(t) => t,
                    None => Seq::empty(),
                },
                ..s
            }
        } else if k == keys.timestamp@ {
            if e.value@.len() == 8 {
                SummaryView { timestamp: le_value(e.value@) as u64, ..s }
            } else {
                s
            }
        } else if k == keys.created_by@ {
            match utf8_text(e.value@) {
                Some(t) => SummaryView { created_by: t, ..s },
                None => s,
            }
        } else if k == keys.committed_by@ {
            match utf8_text(e.value@) {
                Some(t) => SummaryView { committed_by: t, ..s },
                None => s,
            }
        } else if k == keys.branch@ {
            s
        } else {
            match encoded_value(e.value@.len(), e.value_type, rendered_text(e.rendered)) {
                Some(v) => SummaryView { extra: s.extra.push((k, v, e.value_type)), ..s },
                None => s,
            }
        },
    }
}

/// The summary of a metadata blob's entries, read in order (a later entry
/// for a commit field overrides an earlier one).
pub open spec fn summarize(entries: Seq<WalkedMetadata>, keys: CommitKeys) -> SummaryView
    decreases entries.len(),
{
    if entries.len() == 0 {
        initial_summary()
    } else {
        summary_step(summarize(entries.drop_last(), keys), entries.last(), keys)
    }
}

fn apply_entry(r: &mut CommitSummary, e: &WalkedMetadata, keys: &CommitKeys)
    ensures
        summary_view(*final(r)) == summary_step(summary_view(*old(r)), *e, *keys),
{
    let ghost before = summary_view(*r);
    let k = decode_utf8(e.key.as_slice());
    match k {
        None => {},
        Some(k) => {
            if k == keys.message {
                match decode_utf8(e.value.as_slice()) {
                    Some(t) => r.commit_message = t,
                    None => r.commit_message = String::new(),
                }
            } else if k == keys.timestamp {
                if e.value.len() == 8 {
                    r.timestamp = le_u64(&e.value);
                }
            } else if k == keys.created_by {
                match decode_utf8(e.value.as_slice()) {
                    Some(t) => r.created_by = t,
                    None => {},
                }
            } else if k == keys.committed_by {
                match decode_utf8(e.value.as_slice()) {
                    Some(t) => r.committed_by = t,
                    None => {},
                }
            } else if k == keys.branch {
            } else {
                let ghost kv = k@;
                match encode_metadata_entry(k, &e.value, e.value_type, &e.rendered) {
                    Some(m) => {
                        let ghost old_entries = r.metadata@;
                        r.metadata.push(m);
                        proof {
                            assert(r.metadata@.map_values(|m: RevisionMetadataEntry| entry_view(m))
                                =~= old_entries.map_values(|m: RevisionMetadataEntry| entry_view(m)).push(
                                (kv, m.value@, e.value_type),
                            ));
                        }
                    },
                    None => {},
                }
            }
        },
    }
}

/// Reads a revision's commit fields out of its metadata entries and
/// renders the others for the revision record.
pub fn summarize_commit_metadata(entries: &Vec<WalkedMetadata>, keys: &CommitKeys) -> (r: CommitSummary)
    ensures
        summary_view(r) == summarize(entries@, *keys),
{
    let mut r = CommitSummary {
        commit_message: String::new(),
        timestamp: 0,
        created_by: String::new(),
        committed_by: String::new(),
        metadata: Vec::new(),
    };
    proof {
        assert(summary_view(r).extra =~= Seq::<(Seq<char>, Seq<char>, MetadataType)>::empty());
        assert(entries@.subrange(0, 0) =~= Seq::<WalkedMetadata>::empty());
    }
    let mut i: usize = 0;
    while i < entries.len()
        invariant
            0 <= i <= entries@.len(),
            summary_view(r) == summarize(entries@.subrange(0, i as int), *keys),
        decreases entries@.len() - i,
    {
        proof {
            assert(entries@.subrange(0, i + 1).drop_last() =~= entries@.subrange(0, i as int));
            assert(entries@.subrange(0, i + 1).last() == entries@[i as int]);
        }
        apply_entry(&mut r, &entries[i], keys);
        i = i + 1;
    }
    proof {
        assert(entries@.subrange(0, entries@.len() as int) =~= entries@);
    }
    r
}

/// A revision info request must say which revision it is about.
pub fn check_revision_info_query(has_query: bool) -> (r: Result<(), RpcStatus>)
    ensures
        !has_query ==> (r matches Err(s) && s.code == RpcCode::InvalidArgument
            && s.message@ == "RevisionInfoRequest.query must be set (identifier or signature)"@),
        has_query ==> r is Ok,
{
    if has_query {
        Ok(())
    } else {
        Err(RpcStatus {
            code: RpcCode::InvalidArgument,
            message: String::from_str("RevisionInfoRequest.query must be set (identifier or signature)"),
        })
    }
}

/// The answer when the described revision does not exist; `signature` is
/// the revision's text.
pub fn revision_not_found(signature: &str) -> (r: RpcStatus)
    ensures
        r.code == RpcCode::NotFound,
        r.message@ == "Revision "@ + signature@ + " not found"@,
{
    let mut m = String::from_str("Revision ");
    m.append(signature);
    m.append(" not found");
    RpcStatus { code: RpcCode::NotFound, message: m }
}

/// The parent to describe on one side: none for the zero hash.
pub fn parent_to_load(signature: ContentHash) -> (r: Option<ContentHash>)
    ensures
        r == (if signature.spec_is_zero() { None } else { Some(signature) }),
{
    if signature.is_zero() { None } else { Some(signature) }
}

/// A revision's identifier: its branch and its number on the branch.
#[derive(Debug, Clone, Copy, PartialEq, Eq, Structural)]
pub struct RevisionIdentifier {
    pub branch_id: BranchId,
    pub number: u64,
}

/// A parent of a described revision: its signature and identifier.
#[derive(Debug, Clone, Copy, PartialEq, Eq, Structural)]
pub struct ParentRecord {
    pub signature: ContentHash,
    pub identifier: RevisionIdentifier,
}

/// The record of a loaded parent: its signature, the branch its metadata
/// names, and its state's number.
pub fn parent_record(signature: ContentHash, branch_id: BranchId, number: u64) -> (r: ParentRecord)
    ensures
        r == (ParentRecord { signature, identifier: RevisionIdentifier { branch_id, number } }),
{
    ParentRecord { signature, identifier: RevisionIdentifier { branch_id, number } }
}

/// The record of a described revision.
#[derive(Debug)]
pub struct RevisionRecord {
    pub signature: ContentHash,
    pub identifier: RevisionIdentifier,
    pub commit_message: String,
    pub timestamp: u64,
    pub created_by: String,
    pub committed_by: String,
    pub metadata: Vec<RevisionMetadataEntry>,
    pub parent_self: Option<ParentRecord>,
    pub parent_other: Option<ParentRecord>,
    pub number: u64,
}

/// Assembles the record of a described revision: its signature, the
/// branch its metadata names and its number (as identifier and as number),
/// the commit fields and entries of its metadata, and its parents.
pub fn revision_record(
    signature: ContentHash,
    branch_id: BranchId,
    number: u64,
    summary: CommitSummary,
    parent_self: Option<ParentRecord>,
    parent_other: Option<ParentRecord>,
) -> (r: RevisionRecord)
    ensures
        r.signature == signature,
        r.identifier == (RevisionIdentifier { branch_id, number }),
        r.number == number,
        r.commit_message@ == summary.commit_message@,
        r.timestamp == summary.timestamp,
        r.created_by@ == summary.created_by@,
        r.committed_by@ == summary.committed_by@,
        r.metadata@ == summary.metadata@,
        r.parent_self == parent_self,
        r.parent_other == parent_other,
{
    RevisionRecord {
        signature,
        identifier: RevisionIdentifier { branch_id, number },
        commit_message: summary.commit_message,
        timestamp: summary.timestamp,
        created_by: summary.created_by,
        committed_by: summary.committed_by,
        metadata: summary.metadata,
        parent_self,
        parent_other,
        number,
    }
}

} // verus!
