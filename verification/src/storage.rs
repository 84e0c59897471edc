//! The decisions of the storage service: what a fragment copy answers at
//! each step, and the refusal of an unknown key type.
use vstd::prelude::*;
use vstd::string::*;

use crate::status::append_signed_decimal;
use crate::status::signed_decimal_text;
use crate::status::RpcCode;
use crate::status::RpcStatus;

verus! {

/// A copy request must name the fragment to copy.
pub fn check_copy_source(has_source_address: bool) -> (r: Result<(), RpcStatus>)
    ensures
        !has_source_address ==> (r matches Err(s) && s.code == RpcCode::InvalidArgument
            && s.message@ == "CopyRequest.source_address is required"@),
        has_source_address ==> r is Ok,
{
    if has_source_address {
        Ok(())
    } else {
        Err(RpcStatus {
            code: RpcCode::InvalidArgument,
            message: String::from_str("CopyRequest.source_address is required"),
        })
    }
}

/// Whether the copy lands in the source fragment's own context: it does
/// when the request gives no target context.
pub fn copy_keeps_source_context(target_context: &Vec<u8>) -> (r: bool)
    ensures
        r == (target_context@.len() == 0),
{
    target_context.len() == 0
}

/// A status with details attached: the copy answers carry the source
/// address (in its wire encoding) as details.
#[derive(Debug)]
pub struct DetailedStatus {
    pub status: RpcStatus,
    pub details: Vec<u8>,
}

/// The answer when the caller may not read the source repository;
/// `details` is the source address's encoding.
pub fn copy_authorization_denied(reason: String, details: Vec<u8>) -> (r: DetailedStatus)
    ensures
        r.status.code == RpcCode::PermissionDenied,
        r.status.message@ == reason@,
        r.details@ == details@,
{
    DetailedStatus { status: RpcStatus { code: RpcCode::PermissionDenied, message: reason }, details }
}

/// What the copy of one fragment came to.
pub enum CopyOutcome {
    /// The fragment was copied.
    Copied,
    /// The copy answered with a response of another kind.
    UnexpectedResponse,
    /// The source fragment does not exist.
    FragmentNotFound,
    /// The caller may not read the source (with the reason).
    AuthorizationFailure(String),
    /// Anything else (with the failure's text).
    Failed(String),
}

/// The answer for one copied fragment; `address` is the source address's
/// text and `details` its encoding, attached to every failure.
pub fn copy_outcome_answer(outcome: CopyOutcome, address: &str, details: Vec<u8>) -> (r: Result<(), DetailedStatus>)
    ensures
        match outcome {
            CopyOutcome::Copied => r is Ok,
            CopyOutcome::UnexpectedResponse => r matches Err(s) && s.status.code == RpcCode::Internal
                && s.status.message@ == "Copy handler returned wrong response type"@,
            CopyOutcome::FragmentNotFound => r matches Err(s) && s.status.code == RpcCode::NotFound
                && s.status.message@ == "Source fragment not found: "@ + address@ && s.details@ == details@,
            CopyOutcome::AuthorizationFailure(m) => r matches Err(s) && s.status.code
                == RpcCode::PermissionDenied && s.status.message@ == m@ && s.details@ == details@,
            CopyOutcome::Failed(t) => r matches Err(s) && s.status.code == RpcCode::Internal
                && s.status.message@ == "Error copying fragment: "@ + t@ && s.details@ == details@,
        },
        outcome is UnexpectedResponse ==> (r matches Err(s) && s.details@.len() == 0),
{
    match outcome {
        CopyOutcome::Copied => Ok(()),
        CopyOutcome::UnexpectedResponse => Err(DetailedStatus {
            status: RpcStatus {
                code: RpcCode::Internal,
                message: String::from_str("Copy handler returned wrong response type"),
            },
            details: Vec::new(),
        }),
        CopyOutcome::FragmentNotFound => {
            let mut m = String::from_str("Source fragment not found: ");
            m.append(address);
            Err(DetailedStatus { status: RpcStatus { code: RpcCode::NotFound, message: m }, details })
        },
        CopyOutcome::AuthorizationFailure(m) => Err(DetailedStatus {
            status: RpcStatus { code: RpcCode::PermissionDenied, message: m },
            details,
        }),
        CopyOutcome::Failed(t) => {
            let mut m = String::from_str("Error copying fragment: ");
            m.append(t.as_str());
            Err(DetailedStatus { status: RpcStatus { code: RpcCode::Internal, message: m }, details })
        },
    }
}

/// The refusal of a compare-and-swap whose key type is unknown.
pub fn invalid_key_type(key_type: i32) -> (r: RpcStatus)
    ensures
        r.code == RpcCode::InvalidArgument,
        r.message@ == "Invalid key_type: "@ + signed_decimal_text(key_type as int),
{
    let mut m = String::from_str("Invalid key_type: ");
    append_signed_decimal(&mut m, key_type as i64);
    RpcStatus { code: RpcCode::InvalidArgument, message: m }
}

} // verus!
