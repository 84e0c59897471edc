use lore_server::hooks::context::BranchId;
use lore_server::hooks::context::ContentHash;
use lore_server::hooks::context::RepositoryId;
use lore_server::notification::NotificationService;
use lore_server::outcomes::branch_revision_list_limit;
use lore_server::outcomes::check_branch_revision_list;
use lore_server::outcomes::default_branch_missing;
use lore_server::outcomes::delete_outcome_answer;
use lore_server::outcomes::diff_failure_status;
use lore_server::outcomes::diff_side_revision;
use lore_server::outcomes::list_revisions_failure_status;
use lore_server::outcomes::obliterate_failure_status;
use lore_server::outcomes::protect_failure_status;
use lore_server::outcomes::DeleteOutcome;
use lore_server::outcomes::DiffFailure;
use lore_server::outcomes::ListRevisionsFailure;
use lore_server::outcomes::ProtectFailure;
use lore_server::replication::GrpcReplicationServerBuilder;
use lore_server::status::decimal;
use lore_server::status::RpcCode;
use lore_server::validation::branch_deleted;
use lore_server::validation::branch_metadata_cas_response;
use lore_server::validation::collect_addresses;
use lore_server::validation::deletion_check_needed;
use lore_server::validation::get_typed;
use lore_server::validation::repository_metadata_cas_response;
use lore_server::validation::require_nonzero_branch;
use lore_server::validation::require_repository;
use lore_server::validation::validate_create_input;
use lore_server::validation::validate_read_only_fields;
use lore_server::validation::MetadataEntry;
use lore_server::validation::MetadataType;
use lore_server::validation::NameLimits;

/// Name limits of a deployment: branch names (and categories) and
/// repository-level names such as creators.
const LIMITS: NameLimits = NameLimits { branch_name: 256, repository_name: 128 };

fn h(n: u128) -> ContentHash {
    ContentHash { high: 1, low: n }
}

#[test]
fn accepts_valid_input() {
    validate_create_input("my-branch", "feature", "alice", LIMITS).expect("valid input should pass");
}

#[test]
fn accepts_name_at_max_length() {
    let name = "a".repeat(LIMITS.branch_name);
    validate_create_input(&name, "feature", "alice", LIMITS).expect("name at exactly MAX_NAME_LEN should pass");
}

#[test]
fn rejects_oversized_branch_name() {
    let long_name = "a".repeat(LIMITS.branch_name + 1);
    let err = validate_create_input(&long_name, "feature", "alice", LIMITS).expect_err("should reject oversized name");
    assert_eq!(err.code, RpcCode::InvalidArgument);
    assert!(err.message.contains("Branch name exceeds maximum length"));
}

#[test]
fn rejects_oversized_category() {
    let long_cat = "a".repeat(LIMITS.branch_name + 1);
    let err = validate_create_input("my-branch", &long_cat, "alice", LIMITS).expect_err("should reject oversized category");
    assert_eq!(err.code, RpcCode::InvalidArgument);
    assert!(err.message.contains("Branch category exceeds maximum length"));
}

#[test]
fn rejects_oversized_creator() {
    let long_creator = "a".repeat(LIMITS.repository_name + 1);
    let err = validate_create_input("my-branch", "feature", &long_creator, LIMITS).expect_err("should reject oversized creator");
    assert_eq!(err.code, RpcCode::InvalidArgument);
    assert!(err.message.contains("Creator exceeds maximum length"));
}

#[test]
fn test_create_input_exact_messages() {
    let long = "é".repeat(129);
    // Lengths are in bytes: 129 two-byte characters are 258 bytes.
    let err = validate_create_input(&long, "", "", LIMITS).unwrap_err();
    assert_eq!(err.message, "Branch name exceeds maximum length of 256 bytes");
    let err = validate_create_input("", "", &"x".repeat(129), LIMITS).unwrap_err();
    assert_eq!(err.message, "Creator exceeds maximum length of 128 bytes");
    // The name is checked before the category.
    let err = validate_create_input(&"n".repeat(300), &"c".repeat(300), "", LIMITS).unwrap_err();
    assert!(err.message.starts_with("Branch name"));
}

#[test]
fn test_nonzero_identifiers() {
    let err = require_nonzero_branch(BranchId { value: 0 }).unwrap_err();
    assert_eq!(err.code, RpcCode::InvalidArgument);
    assert_eq!(err.message, "Branch id must be non-zero");
    assert!(require_nonzero_branch(BranchId { value: 5 }).is_ok());
    let err = require_repository(RepositoryId { value: 0 }).unwrap_err();
    assert_eq!(err.code, RpcCode::InvalidArgument);
    assert_eq!(err.message, "Missing repository ID");
    assert!(require_repository(RepositoryId { value: 5 }).is_ok());
}

fn entry(key: &str, value: &[u8], value_type: MetadataType) -> MetadataEntry {
    MetadataEntry { key: key.to_string(), value: value.to_vec(), value_type }
}

#[test]
fn test_get_typed_first_entry_wins() {
    let entries = vec![
        entry("a", b"1", MetadataType::String),
        entry("b", b"2", MetadataType::String),
        entry("a", b"3", MetadataType::Numeric),
    ];
    assert_eq!(get_typed(&entries, &"a".to_string()), Some(0));
    assert_eq!(get_typed(&entries, &"b".to_string()), Some(1));
    assert_eq!(get_typed(&entries, &"c".to_string()), None);
}

#[test]
fn test_read_only_fields() {
    let keys = vec!["name".to_string(), "creator".to_string()];
    let current = vec![entry("name", b"repo", MetadataType::String), entry("creator", b"bob", MetadataType::String)];

    let same = vec![entry("creator", b"bob", MetadataType::String), entry("name", b"repo", MetadataType::String)];
    assert!(validate_read_only_fields(&keys, &current, &same).is_ok());

    let renamed = vec![entry("name", b"other", MetadataType::String), entry("creator", b"bob", MetadataType::String)];
    let err = validate_read_only_fields(&keys, &current, &renamed).unwrap_err();
    assert_eq!(err.code, RpcCode::InvalidArgument);
    assert_eq!(err.message, "cannot modify read-only key 'name'");

    let retyped = vec![entry("name", b"repo", MetadataType::Binary), entry("creator", b"bob", MetadataType::String)];
    let err = validate_read_only_fields(&keys, &current, &retyped).unwrap_err();
    assert_eq!(err.message, "cannot modify read-only key 'name'");

    let removed = vec![entry("name", b"repo", MetadataType::String)];
    let err = validate_read_only_fields(&keys, &current, &removed).unwrap_err();
    assert_eq!(err.message, "cannot remove read-only key 'creator'");

    // A read-only key may be added.
    let partial = vec![entry("name", b"repo", MetadataType::String)];
    assert!(validate_read_only_fields(&keys, &partial, &current).is_ok());
}

#[test]
fn test_collect_addresses() {
    let entries = vec![
        entry("a", &[1, 2, 3, 4], MetadataType::Address),
        entry("b", &[9, 9, 9, 9], MetadataType::Binary),
        entry("c", &[5, 6], MetadataType::Address),
        entry("d", &[7, 8, 9, 10], MetadataType::Address),
    ];
    assert_eq!(collect_addresses(&entries, 4), vec![vec![1, 2, 3, 4], vec![7, 8, 9, 10]]);
    assert!(collect_addresses(&Vec::new(), 4).is_empty());
}

#[test]
fn test_metadata_cas_responses() {
    assert_eq!(branch_metadata_cas_response(h(1), h(2), h(1)), h(2));
    assert_eq!(branch_metadata_cas_response(h(1), h(2), h(3)), h(3));
    assert_eq!(repository_metadata_cas_response(h(1), h(2), h(1)), (true, h(2)));
    assert_eq!(repository_metadata_cas_response(h(1), h(2), h(3)), (false, h(3)));
}

#[test]
fn test_branch_deletion_detection() {
    let b = BranchId { value: 4 };
    assert!(!deletion_check_needed(None));
    assert!(!deletion_check_needed(Some("")));
    assert!(deletion_check_needed(Some("main")));
    assert!(!branch_deleted(Some("main"), Some(b), b));
    assert!(branch_deleted(Some("main"), Some(BranchId { value: 5 }), b));
    assert!(branch_deleted(Some("main"), None, b));
    assert!(!branch_deleted(Some(""), None, b));
    assert!(!branch_deleted(None, None, b));
}

#[test]
fn test_branch_revision_list_inputs() {
    assert_eq!(branch_revision_list_limit(None), 100);
    assert_eq!(branch_revision_list_limit(Some(5)), 5);
    assert_eq!(branch_revision_list_limit(Some(100)), 100);
    assert_eq!(branch_revision_list_limit(Some(5000)), 100);
    let err = check_branch_revision_list(None, None).unwrap_err();
    assert_eq!(err.code, RpcCode::InvalidArgument);
    assert_eq!(err.message, "branch is required when source is not provided");
    assert!(check_branch_revision_list(Some(BranchId { value: 1 }), None).is_ok());
    assert!(check_branch_revision_list(None, Some(h(1))).is_ok());
    let s = list_revisions_failure_status(ListRevisionsFailure::BranchNotFound);
    assert_eq!((s.code, s.message.as_str()), (RpcCode::NotFound, "Branch does not exist"));
    let s = list_revisions_failure_status(ListRevisionsFailure::InvalidArguments("bad".to_string()));
    assert_eq!((s.code, s.message.as_str()), (RpcCode::InvalidArgument, "bad"));
    let s = list_revisions_failure_status(ListRevisionsFailure::Other);
    assert_eq!((s.code, s.message.as_str()), (RpcCode::Internal, "Failed to retrieve the branch revision list"));
}

#[test]
fn test_delete_outcomes() {
    assert_eq!(delete_outcome_answer(DeleteOutcome::Deleted).unwrap(), true);
    assert_eq!(delete_outcome_answer(DeleteOutcome::BranchNotFound).unwrap(), false);
    let s = delete_outcome_answer(DeleteOutcome::DeleteProtected).unwrap_err();
    assert_eq!((s.code, s.message.as_str()), (RpcCode::FailedPrecondition, "Branch is delete protected"));
    let s = delete_outcome_answer(DeleteOutcome::Failed("boom".to_string())).unwrap_err();
    assert_eq!((s.code, s.message.as_str()), (RpcCode::Internal, "boom"));
}

#[test]
fn test_protect_and_diff_failures() {
    let s = protect_failure_status(ProtectFailure::BranchNotFound("nope".to_string()));
    assert_eq!((s.code, s.message.as_str()), (RpcCode::NotFound, "nope"));
    let s = protect_failure_status(ProtectFailure::Other("bad".to_string()));
    assert_eq!((s.code, s.message.as_str()), (RpcCode::Internal, "bad"));
    let s = diff_failure_status(DiffFailure::Divergent("d".to_string()));
    assert_eq!((s.code, s.message.as_str()), (RpcCode::InvalidArgument, "d"));
    let s = diff_failure_status(DiffFailure::MaxHistorySearchDepth("m".to_string()));
    assert_eq!((s.code, s.message.as_str()), (RpcCode::ResourceExhausted, "m"));
    let s = diff_failure_status(DiffFailure::Other("o".to_string()));
    assert_eq!((s.code, s.message.as_str()), (RpcCode::Internal, "o"));
    assert_eq!(diff_side_revision(Some(h(1)), h(2)), h(1));
    assert_eq!(diff_side_revision(None, h(2)), h(2));
}

#[test]
fn test_default_branch_missing() {
    let listed = vec![BranchId { value: 1 }, BranchId { value: 2 }];
    assert!(!default_branch_missing(BranchId { value: 2 }, &listed));
    assert!(default_branch_missing(BranchId { value: 3 }, &listed));
    assert!(!default_branch_missing(BranchId { value: 0 }, &listed));
    assert!(default_branch_missing(BranchId { value: 3 }, &Vec::new()));
}

#[test]
fn test_obliterate_failures() {
    let s = obliterate_failure_status("abc", true, "x");
    assert_eq!((s.code, s.message.as_str()), (RpcCode::NotFound, "Address not found: abc"));
    let s = obliterate_failure_status("abc", false, "disk");
    assert_eq!((s.code, s.message.as_str()), (RpcCode::Internal, "Failed to obliterate abc: disk"));
}

#[test]
fn test_notification_service() {
    let service = NotificationService::new(17u32);
    assert_eq!(*service.sender(), 17);
    let s = service.check_subscription(RepositoryId { value: 0 }).unwrap_err();
    assert_eq!((s.code, s.message.as_str()), (RpcCode::FailedPrecondition, "invalid stream"));
    assert!(service.check_subscription(RepositoryId { value: 9 }).is_ok());
    let s = service.publish();
    assert_eq!(s.code, RpcCode::PermissionDenied);
    assert_eq!(s.message, "Publish is not supported by the local notification service");
}

#[test]
fn test_replication_builder_requires_local_store() {
    let err = GrpcReplicationServerBuilder::new().with_local_immutable_store("store", false).unwrap_err();
    assert_eq!(err, "Immutable store must be a local store");
}

#[test]
fn test_replication_builder_tls_all_or_none() {
    let b = GrpcReplicationServerBuilder::new().with_local_immutable_store("store", true).unwrap();
    let b = b.with_tls_config(Some("c"), Some("k"), Some("ca")).unwrap();
    let (store, tls) = b.into_parts();
    assert_eq!(store, "store");
    let tls = tls.unwrap();
    assert_eq!((tls.cert, tls.key, tls.cert_chain), ("c", "k", "ca"));

    let b = GrpcReplicationServerBuilder::new().with_local_immutable_store(5u8, true).unwrap();
    let (store, tls) = b.with_tls_config::<&str>(None, None, None).unwrap().into_parts();
    assert_eq!(store, 5);
    assert!(tls.is_none());

    let b = GrpcReplicationServerBuilder::new().with_local_immutable_store(5u8, true).unwrap();
    let err = b.with_tls_config(Some("c"), None, Some("ca")).unwrap_err();
    assert_eq!(
        err,
        "Replication TLS is partially configured: cert=true, key=false, cert_chain=true. Provide all three or none"
    );
}

#[test]
fn test_decimal_text() {
    assert_eq!(decimal(0), "0");
    assert_eq!(decimal(7), "7");
    assert_eq!(decimal(1234567890), "1234567890");
    assert_eq!(decimal(u64::MAX), "18446744073709551615");
}
