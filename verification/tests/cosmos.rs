use azure_sql_tco::cosmos::{
    map_consent_cosmos_error, map_cosmos_error, map_share_cosmos_error, map_snapshot_cosmos_error,
    is_conflict, newest_document, parse_utc_timestamp, retrieved_later, same_aws_state_version, valid_snapshot_id,
    validate_cosmos_item_size, AwsSnapshotStateDocument, StoreStatus, MAX_COSMOS_ITEM_BYTES,
};
use azure_sql_tco::pricing::{Provider, SnapshotMetadata, SnapshotRepositoryError};
use azure_sql_tco::privacy_consent::PrivacyConsentError;
use azure_sql_tco::project_share::ProjectShareError;
use azure_sql_tco::repository::RepositoryError;

fn st(code: u16) -> StoreStatus {
    StoreStatus { code, sub_status: 0 }
}

fn published_state() -> AwsSnapshotStateDocument {
    let snapshot_id = format!("aws-{}", "a".repeat(64));
    AwsSnapshotStateDocument {
        id: "aws-state-eu-west-1".to_owned(),
        snapshot_id: snapshot_id.clone(),
        metadata: SnapshotMetadata {
            snapshot_id,
            provider: Provider::Aws,
            currency: "USD".to_owned(),
            retrieved_at: "2026-08-10T12:00:00Z".to_owned(),
            content_sha256: "a".repeat(64),
        },
        ec2_content_sha256: "b".repeat(64),
        rds_content_sha256: "c".repeat(64),
        ebs_content_sha256: "d".repeat(64),
    }
}

#[test]
fn only_a_strictly_newer_retrieval_replaces_identical_content() {
    assert!(retrieved_later("2026-08-10T12:00:01Z", "2026-08-10T12:00:00Z").expect("valid timestamps"));
    assert!(!retrieved_later("2026-08-10T12:00:00Z", "2026-08-10T12:00:00Z").expect("valid timestamps"));
    assert!(!retrieved_later("2026-08-10T11:59:59Z", "2026-08-10T12:00:00Z").expect("valid timestamps"));
}

#[test]
fn point_reads_accept_only_canonical_snapshot_ids() {
    assert!(valid_snapshot_id(&format!("aws-{}", "a".repeat(64)), "aws-"));
    assert!(valid_snapshot_id(&format!("azure-{}", "0".repeat(64)), "azure-"));
    assert!(!valid_snapshot_id("aws-not-a-hash", "aws-"));
    assert!(!valid_snapshot_id(&format!("aws-{}", "g".repeat(64)), "aws-"));
    assert!(!valid_snapshot_id(&format!("aws-{}", "A".repeat(64)), "aws-"));
}

#[test]
fn oversized_component_documents_are_rejected_before_cosmos() {
    assert!(validate_cosmos_item_size(vec![0_u8; 16].len()).is_ok());
    assert_eq!(
        validate_cosmos_item_size("x".repeat(MAX_COSMOS_ITEM_BYTES).len()),
        Err(SnapshotRepositoryError::PayloadTooLarge)
    );
}

#[test]
fn older_writer_cannot_clean_components_after_newer_state_wins() {
    let published = published_state();
    let mut current = published.clone();
    current.snapshot_id = format!("aws-{}", "0".repeat(64));
    current.metadata.snapshot_id = current.snapshot_id.clone();
    current.metadata.content_sha256 = "0".repeat(64);

    assert!(!same_aws_state_version(&current, &published));
    assert!(same_aws_state_version(&published, &published));
}

#[test]
fn timestamps_must_be_utc() {
    assert!(parse_utc_timestamp("2026-08-10T12:00:00Z").is_ok());
    assert_eq!(parse_utc_timestamp("2026-08-10T12:00:00+02:00"), Err(SnapshotRepositoryError::InvalidData));
    assert_eq!(parse_utc_timestamp("yesterday"), Err(SnapshotRepositoryError::InvalidData));
    assert_eq!(retrieved_later("2026-08-10T12:00:00+02:00", "2026-08-10T12:00:00Z"), Err(SnapshotRepositoryError::InvalidData));
}

#[test]
fn the_newest_retrieval_is_chosen() {
    let times = vec![
        "2026-08-10T12:00:00Z".to_owned(),
        "2026-08-11T12:00:00Z".to_owned(),
        "2026-08-09T12:00:00Z".to_owned(),
    ];
    assert_eq!(newest_document(&times), Ok(Some(1)));
    assert_eq!(newest_document(&Vec::new()), Ok(None));
}

#[test]
fn conflicts_are_precondition_and_conflict_statuses() {
    assert!(is_conflict(st(409)));
    assert!(!is_conflict(st(412)));
    assert!(!is_conflict(st(404)));
}

#[test]
fn store_failures_map_by_status() {
    assert_eq!(map_cosmos_error(st(404)), RepositoryError::NotFound);
    assert_eq!(map_cosmos_error(st(412)), RepositoryError::PreconditionFailed);
    assert_eq!(map_cosmos_error(st(413)), RepositoryError::PayloadTooLarge);
    assert_eq!(map_cosmos_error(st(503)), RepositoryError::Unavailable);
    assert_eq!(map_share_cosmos_error(st(404)), ProjectShareError::NotFound);
    assert_eq!(map_share_cosmos_error(st(412)), ProjectShareError::Unavailable);
    assert_eq!(map_consent_cosmos_error(st(404)), PrivacyConsentError::Unavailable);
    assert_eq!(map_snapshot_cosmos_error(st(413)), SnapshotRepositoryError::PayloadTooLarge);
}

#[test]
fn a_not_found_status_with_a_sub_status_is_another_failure() {
    let session_not_available = StoreStatus { code: 404, sub_status: 1002 };
    assert!(!session_not_available.is_not_found());
    assert_eq!(map_cosmos_error(session_not_available), RepositoryError::Unavailable);
    assert_eq!(map_share_cosmos_error(session_not_available), ProjectShareError::Unavailable);
}
