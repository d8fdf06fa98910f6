use azure_sql_tco::config::MAX_PROVIDER_REFRESHES_PER_HOUR;
use azure_sql_tco::instant::parse_utc;
use azure_sql_tco::pricing::{
    content_digest, AwsPriceSnapshot, AzurePriceSnapshot, Provider, ProviderError, RefreshLeaseDecision,
    RefreshLeaseOutcome, SnapshotError, SnapshotMetadata,
};
use azure_sql_tco::pricing_cache::{
    remaining_seconds, AwsSnapshotDocument, AzureSnapshotDocument, PricingCacheDocumentError, RefreshLeaseDocument,
    RefreshLeaseStatus, RefreshQuotaDocument, RefreshQuotaMutation,
};

fn timestamp(value: &str) -> i128 {
    parse_utc(value).expect("valid test timestamp")
}

fn metadata(provider: Provider, content: &Vec<u8>) -> SnapshotMetadata {
    let digest = String::from_utf8(content_digest(content)).expect("hex digest");
    let prefix = match provider {
        Provider::Aws => "aws-",
        Provider::Azure => "azure-",
    };
    SnapshotMetadata {
        snapshot_id: format!("{prefix}{digest}"),
        provider,
        currency: "USD".to_owned(),
        retrieved_at: "2026-08-10T12:00:00Z".to_owned(),
        content_sha256: digest,
    }
}

fn aws_snapshot() -> AwsPriceSnapshot {
    let content = br#"{"ec2":[],"rds":[],"ebs":[]}"#.to_vec();
    AwsPriceSnapshot { metadata: metadata(Provider::Aws, &content), source_region: "eu-west-1".to_owned(), content }
}

fn azure_snapshot() -> AzurePriceSnapshot {
    let content = br#"{"managed_instance":[]}"#.to_vec();
    AzurePriceSnapshot {
        metadata: metadata(Provider::Azure, &content),
        target_region: "swedencentral".to_owned(),
        content,
    }
}

#[test]
fn snapshot_documents_round_trip_only_when_envelopes_and_hashes_match() {
    let aws = aws_snapshot();
    let azure = azure_snapshot();
    let expected_aws_id = aws.metadata.snapshot_id.clone();
    let expected_azure_id = azure.metadata.snapshot_id.clone();

    assert_eq!(
        AwsSnapshotDocument::new(aws).into_snapshot().expect("validated AWS snapshot").metadata.snapshot_id,
        expected_aws_id
    );
    assert_eq!(
        AzureSnapshotDocument::new(azure).into_snapshot().expect("validated Azure snapshot").metadata.snapshot_id,
        expected_azure_id
    );
}

#[test]
fn snapshot_documents_reject_tampered_envelopes_and_content() {
    let mut mismatched_envelope = AwsSnapshotDocument::new(aws_snapshot());
    mismatched_envelope.source_region = "us-east-1".to_owned();
    assert!(matches!(mismatched_envelope.into_snapshot(), Err(PricingCacheDocumentError::EnvelopeMismatch)));

    let mut mismatched_content = AzureSnapshotDocument::new(azure_snapshot());
    mismatched_content.snapshot.metadata.content_sha256 = "0".repeat(64);
    assert!(matches!(
        mismatched_content.into_snapshot(),
        Err(PricingCacheDocumentError::Snapshot(SnapshotError::StoredSnapshotMismatch))
    ));
}

#[test]
fn refresh_lease_exposes_terminal_results_only_to_overlapping_requests() {
    let leased_at = timestamp("2026-08-10T12:00:00Z");
    let lease = RefreshLeaseDocument::new(&"a".repeat(64), "11111111-1111-4111-8111-111111111111", leased_at)
        .expect("valid active lease");
    assert!(matches!(
        lease.decision(timestamp("2026-08-10T11:59:59Z"), leased_at).expect("active decision"),
        Some(RefreshLeaseDecision::Pending)
    ));

    let completed = lease
        .complete(
            "11111111-1111-4111-8111-111111111111",
            &RefreshLeaseOutcome::Succeeded(format!("aws-{}", "b".repeat(64))),
            timestamp("2026-08-10T12:00:30Z"),
        )
        .expect("complete lease");
    assert!(matches!(
        completed
            .decision(timestamp("2026-08-10T12:00:20Z"), timestamp("2026-08-10T12:00:31Z"))
            .expect("overlapping request decision"),
        Some(RefreshLeaseDecision::Succeeded(_))
    ));
    assert!(matches!(
        completed
            .decision(timestamp("2026-08-10T12:00:31Z"), timestamp("2026-08-10T12:00:31Z"))
            .expect("later request decision"),
        None
    ));
}

#[test]
fn refresh_lease_rejects_expired_ownership_and_tampering() {
    let leased_at = timestamp("2026-08-10T12:00:00Z");
    let lease = RefreshLeaseDocument::new(&"a".repeat(64), "11111111-1111-4111-8111-111111111111", leased_at)
        .expect("valid active lease");
    assert!(matches!(
        lease
            .decision(timestamp("2026-08-10T12:00:00Z"), timestamp("2026-08-10T12:02:30Z"))
            .expect("expired decision"),
        None
    ));
    assert!(lease
        .complete(
            "11111111-1111-4111-8111-111111111111",
            &RefreshLeaseOutcome::Failed(ProviderError::SchemaChanged),
            timestamp("2026-08-10T12:02:30Z")
        )
        .is_err());

    let mut tampered = lease;
    tampered.ttl = 151;
    assert!(tampered.validate().is_err());

    let mut future_completion =
        RefreshLeaseDocument::new(&"a".repeat(64), "11111111-1111-4111-8111-111111111111", leased_at)
            .expect("valid active lease");
    future_completion.status = RefreshLeaseStatus::Failed { error: ProviderError::TemporarilyUnavailable };
    future_completion.completed_at = Some("2026-08-10T12:02:31Z".to_owned());
    assert!(future_completion.validate().is_err());
}

#[test]
fn refresh_quota_is_idempotent_bounded_and_resets_after_expiry() {
    let identity = "a".repeat(64);
    let first_operation = "11111111-1111-4111-8111-111111111111";
    let second_operation = "22222222-2222-4222-8222-222222222222";
    let third_operation = "33333333-3333-4333-8333-333333333333";
    let started_at = timestamp("2026-08-10T12:00:00Z");
    let document =
        RefreshQuotaDocument::new(&identity, first_operation, 2, started_at).expect("valid quota document");
    assert!(matches!(
        document.consume(&identity, first_operation, 2, started_at).expect("idempotent operation"),
        RefreshQuotaMutation::Allowed
    ));

    let updated = match document
        .consume(&identity, second_operation, 2, timestamp("2026-08-10T12:00:00.5Z"))
        .expect("second operation")
    {
        RefreshQuotaMutation::Replace(updated) => updated,
        _ => panic!("second operation must update the counter"),
    };
    assert_eq!(updated.count, 2);
    assert_eq!(updated.ttl, 3_600);
    assert!(matches!(
        updated.consume(&identity, second_operation, 2, timestamp("2026-08-10T12:00:01Z")).expect("retried operation"),
        RefreshQuotaMutation::Allowed
    ));
    assert!(matches!(
        updated.consume(&identity, third_operation, 2, timestamp("2026-08-10T12:00:01Z")).expect("limited operation"),
        RefreshQuotaMutation::Limited(3_599)
    ));

    let reset = match updated
        .consume(&identity, third_operation, 2, timestamp("2026-08-10T13:00:00Z"))
        .expect("reset operation")
    {
        RefreshQuotaMutation::Replace(reset) => reset,
        _ => panic!("expired window must be replaced"),
    };
    assert_eq!(reset.count, 1);
    assert_eq!(reset.operation_tokens, vec![third_operation]);
}

#[test]
fn refresh_quota_merges_an_operation_after_a_conditional_write_conflict() {
    let identity = "a".repeat(64);
    let first_operation = "11111111-1111-4111-8111-111111111111";
    let competing_operation = "22222222-2222-4222-8222-222222222222";
    let retried_operation = "33333333-3333-4333-8333-333333333333";
    let now = timestamp("2026-08-10T12:00:00Z");
    let original = RefreshQuotaDocument::new(&identity, first_operation, 3, now).expect("valid quota document");
    let winner = match original.consume(&identity, competing_operation, 3, now).expect("competing operation") {
        RefreshQuotaMutation::Replace(updated) => updated,
        _ => panic!("competing operation must update the counter"),
    };
    let merged = match winner.consume(&identity, retried_operation, 3, now).expect("operation retried after conflict") {
        RefreshQuotaMutation::Replace(updated) => updated,
        _ => panic!("retried operation must merge with the winner"),
    };

    assert_eq!(merged.count, 3);
    assert_eq!(merged.operation_tokens, vec![first_operation, competing_operation, retried_operation]);
    assert!(matches!(
        merged.consume(&identity, retried_operation, 3, now).expect("replayed merged operation"),
        RefreshQuotaMutation::Allowed
    ));
}

#[test]
fn refresh_quota_rejects_tampered_or_unbounded_documents() {
    let identity = "a".repeat(64);
    let operation = "11111111-1111-4111-8111-111111111111";
    let mut document = RefreshQuotaDocument::new(&identity, operation, 2, timestamp("2026-08-10T12:00:00Z"))
        .expect("valid quota document");
    document.operation_tokens.push(operation.to_owned());
    document.count += 1;
    assert!(document.validate().is_err());
    assert!(RefreshQuotaDocument::new(
        &identity,
        operation,
        MAX_PROVIDER_REFRESHES_PER_HOUR + 1,
        timestamp("2026-08-10T12:00:00Z")
    )
    .is_err());

    let other = RefreshQuotaDocument::new(
        &"b".repeat(64),
        "22222222-2222-4222-8222-222222222222",
        2,
        timestamp("2026-08-10T12:00:00Z"),
    )
    .expect("independent identity quota");
    assert_ne!(document.id, other.id);
}

#[test]
fn remaining_seconds_round_up_to_whole_seconds() {
    let now = timestamp("2026-08-10T12:00:00Z");
    assert_eq!(remaining_seconds(timestamp("2026-08-10T12:00:01Z"), now), 1);
    assert_eq!(remaining_seconds(timestamp("2026-08-10T12:00:00.5Z"), now), 1);
    assert_eq!(remaining_seconds(now, now), 0);
}
