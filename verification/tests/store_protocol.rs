use azure_sql_tco::cosmos::StoreStatus;
use azure_sql_tco::instant::parse_utc;
use azure_sql_tco::pricing::{
    content_digest, AzurePriceSnapshot, Provider, ProviderError, RefreshLeaseDecision, RefreshLeaseOutcome,
    RefreshQuotaDecision, RefreshQuotaError, SnapshotMetadata, SnapshotRepositoryError,
};
use azure_sql_tco::pricing_cache::{AzureSnapshotDocument, RefreshLeaseDocument, RefreshLeaseStatus, RefreshQuotaDocument};
use azure_sql_tco::store_protocol::{
    ClaimAction, LeaseClaim, LeasePublish, PublishAction, QuotaAction, QuotaProtocol, SnapshotWrite,
    SnapshotWriteAction,
};

const OWNER: &str = "11111111-1111-4111-8111-111111111111";
const OTHER_OWNER: &str = "22222222-2222-4222-8222-222222222222";
const OPERATION: &str = "33333333-3333-4333-8333-333333333333";
const SECOND_OPERATION: &str = "44444444-4444-4444-8444-444444444444";

fn st(code: u16) -> StoreStatus {
    StoreStatus { code, sub_status: 0 }
}

fn timestamp(value: &str) -> i128 {
    parse_utc(value).expect("valid test timestamp")
}

fn key() -> String {
    "a".repeat(64)
}

fn etag() -> String {
    "\"etag-1\"".to_owned()
}

// ---------------------------------------------------------------------------
// Refresh quotas.
// ---------------------------------------------------------------------------

#[test]
fn quota_protocol_rejects_inputs_that_cannot_open_a_window() {
    let now = timestamp("2026-08-10T12:00:00Z");
    let (_, action) = QuotaProtocol::start("not-a-hash", OPERATION, 2, now);
    assert!(matches!(action, QuotaAction::Finish(Err(RefreshQuotaError::InvalidData))));
    let (_, action) = QuotaProtocol::start(&key(), "not-a-uuid", 2, now);
    assert!(matches!(action, QuotaAction::Finish(Err(RefreshQuotaError::InvalidData))));
}

#[test]
fn quota_protocol_creates_a_missing_window_and_allows_the_operation() {
    let now = timestamp("2026-08-10T12:00:00Z");
    let (mut protocol, action) = QuotaProtocol::start(&key(), OPERATION, 2, now);
    match action {
        QuotaAction::Read(id) => assert_eq!(id, format!("refresh-quota-{}", key())),
        other => panic!("expected a read, got {other:?}"),
    }
    match protocol.after_read(Err(st(404)), now) {
        QuotaAction::Create(candidate) => {
            assert_eq!(candidate.count, 1);
            assert_eq!(candidate.operation_tokens, vec![OPERATION.to_owned()]);
            assert_eq!(candidate.window_started_at, "2026-08-10T12:00:00Z");
        },
        other => panic!("expected a create, got {other:?}"),
    }
    assert!(matches!(protocol.after_write(Ok(())), QuotaAction::Finish(Ok(RefreshQuotaDecision::Allowed))));
}

#[test]
fn quota_protocol_consumes_an_existing_window_under_its_entity_tag() {
    let now = timestamp("2026-08-10T12:00:00Z");
    let existing = RefreshQuotaDocument::new(&key(), OPERATION, 2, now).expect("valid quota");
    let later = now + 60 * 1_000_000_000;

    let (mut protocol, _) = QuotaProtocol::start(&key(), SECOND_OPERATION, 2, later);
    match protocol.after_read(Ok((Ok(existing.clone()), etag())), later) {
        QuotaAction::Replace(updated, tag) => {
            assert_eq!(tag, etag());
            assert_eq!(updated.count, 2);
            assert_eq!(updated.operation_tokens, vec![OPERATION.to_owned(), SECOND_OPERATION.to_owned()]);
            assert_eq!(updated.ttl, 3540);
        },
        other => panic!("expected a replace, got {other:?}"),
    }

    let (mut replay, _) = QuotaProtocol::start(&key(), OPERATION, 2, later);
    assert!(matches!(
        replay.after_read(Ok((Ok(existing.clone()), etag())), later),
        QuotaAction::Finish(Ok(RefreshQuotaDecision::Allowed))
    ));

    let (mut limited, _) = QuotaProtocol::start(&key(), SECOND_OPERATION, 1, later);
    assert!(matches!(
        limited.after_read(Ok((Ok(existing), etag())), later),
        QuotaAction::Finish(Ok(RefreshQuotaDecision::Limited { retry_after_seconds: 3540 }))
    ));
}

#[test]
fn quota_protocol_rejects_unreadable_windows() {
    let now = timestamp("2026-08-10T12:00:00Z");
    let existing = RefreshQuotaDocument::new(&key(), OPERATION, 2, now).expect("valid quota");
    let (mut protocol, _) = QuotaProtocol::start(&key(), SECOND_OPERATION, 2, now);
    assert!(matches!(
        protocol.after_read(Ok((Ok(existing.clone()), String::new())), now),
        QuotaAction::Finish(Err(RefreshQuotaError::InvalidData))
    ));
    assert!(matches!(
        protocol.after_read(Ok((Err(st(500)), etag())), now),
        QuotaAction::Finish(Err(RefreshQuotaError::InvalidData))
    ));
    let mut tampered = existing;
    tampered.count = 5;
    assert!(matches!(
        protocol.after_read(Ok((Ok(tampered), etag())), now),
        QuotaAction::Finish(Err(RefreshQuotaError::InvalidData))
    ));
}

#[test]
fn quota_protocol_gives_up_after_five_lost_rounds() {
    let now = timestamp("2026-08-10T12:00:00Z");
    let (mut protocol, _) = QuotaProtocol::start(&key(), OPERATION, 2, now);
    for _ in 0..4 {
        assert!(matches!(protocol.after_write(Err(st(412))), QuotaAction::Read(_)));
    }
    assert!(matches!(protocol.after_write(Err(st(412))), QuotaAction::Finish(Err(RefreshQuotaError::Unavailable))));

    let (mut reads, _) = QuotaProtocol::start(&key(), OPERATION, 2, now);
    for _ in 0..4 {
        assert!(matches!(reads.after_read(Err(st(503)), now), QuotaAction::Read(_)));
    }
    assert!(matches!(reads.after_read(Err(st(503)), now), QuotaAction::Finish(Err(RefreshQuotaError::Unavailable))));
}

// ---------------------------------------------------------------------------
// Refresh lease claims.
// ---------------------------------------------------------------------------

#[test]
fn lease_claim_acquires_a_created_lease() {
    let now = timestamp("2026-08-10T12:00:00Z");
    let (mut claim, action) = LeaseClaim::start(&key(), OWNER, "2026-08-10T11:59:59Z", now);
    match action {
        ClaimAction::Create(lease) => {
            assert_eq!(lease.owner_token, OWNER);
            assert_eq!(lease.leased_at, "2026-08-10T12:00:00Z");
            assert_eq!(lease.expires_at, "2026-08-10T12:02:30Z");
        },
        other => panic!("expected a create, got {other:?}"),
    }
    assert!(matches!(claim.after_create(Ok(())), ClaimAction::Finish(Ok(RefreshLeaseDecision::Acquired))));
}

#[test]
fn lease_claim_rejects_a_start_time_that_is_not_utc() {
    let now = timestamp("2026-08-10T12:00:00Z");
    let (_, action) = LeaseClaim::start(&key(), OWNER, "2026-08-10T13:00:00+01:00", now);
    assert!(matches!(action, ClaimAction::Finish(Err(SnapshotRepositoryError::InvalidData))));
}

#[test]
fn lease_claim_waits_for_an_active_lease_and_takes_over_an_expired_one() {
    let leased_at = timestamp("2026-08-10T12:00:00Z");
    let existing = RefreshLeaseDocument::new(&key(), OTHER_OWNER, leased_at).expect("valid lease");

    let now = leased_at + 10 * 1_000_000_000;
    let (mut claim, _) = LeaseClaim::start(&key(), OWNER, "2026-08-10T12:00:10Z", now);
    match claim.after_create(Err(st(409))) {
        ClaimAction::Read(id) => assert_eq!(id, format!("refresh-lease-{}", key())),
        other => panic!("expected a read, got {other:?}"),
    }
    assert!(matches!(
        claim.after_read(Ok((Ok(existing.clone()), etag())), now),
        ClaimAction::Finish(Ok(RefreshLeaseDecision::Pending))
    ));

    let later = leased_at + 200 * 1_000_000_000;
    let (mut takeover, _) = LeaseClaim::start(&key(), OWNER, "2026-08-10T12:03:20Z", later);
    assert!(matches!(takeover.after_create(Err(st(409))), ClaimAction::Read(_)));
    match takeover.after_read(Ok((Ok(existing), etag())), later) {
        ClaimAction::Replace(lease, tag) => {
            assert_eq!(tag, etag());
            assert_eq!(lease.owner_token, OWNER);
            assert_eq!(lease.leased_at, "2026-08-10T12:03:20Z");
        },
        other => panic!("expected a replace, got {other:?}"),
    }
    assert!(matches!(takeover.after_replace(Ok(()), later), ClaimAction::Finish(Ok(RefreshLeaseDecision::Acquired))));
}

#[test]
fn lease_claim_reports_a_refresh_completed_since_the_request_started() {
    let leased_at = timestamp("2026-08-10T12:00:00Z");
    let lease = RefreshLeaseDocument::new(&key(), OTHER_OWNER, leased_at).expect("valid lease");
    let completed = lease
        .complete(OTHER_OWNER, &RefreshLeaseOutcome::Failed(ProviderError::SchemaChanged), leased_at + 5 * 1_000_000_000)
        .expect("completed lease");
    let now = leased_at + 6 * 1_000_000_000;
    let (mut claim, _) = LeaseClaim::start(&key(), OWNER, "2026-08-10T12:00:01Z", now);
    assert!(matches!(claim.after_create(Err(st(409))), ClaimAction::Read(_)));
    assert!(matches!(
        claim.after_read(Ok((Ok(completed), etag())), now),
        ClaimAction::Finish(Ok(RefreshLeaseDecision::Failed(ProviderError::SchemaChanged)))
    ));
}

#[test]
fn lease_claim_maps_store_failures_and_ends_pending_after_five_rounds() {
    let now = timestamp("2026-08-10T12:00:00Z");
    let (mut claim, _) = LeaseClaim::start(&key(), OWNER, "2026-08-10T12:00:00Z", now);
    assert!(matches!(claim.after_create(Err(st(413))), ClaimAction::Finish(Err(SnapshotRepositoryError::PayloadTooLarge))));
    assert!(matches!(claim.after_create(Err(st(503))), ClaimAction::Finish(Err(SnapshotRepositoryError::Unavailable))));

    let (mut racing, _) = LeaseClaim::start(&key(), OWNER, "2026-08-10T12:00:00Z", now);
    for _ in 0..4 {
        assert!(matches!(racing.after_replace(Err(st(412)), now), ClaimAction::Create(_)));
    }
    assert!(matches!(racing.after_replace(Err(st(412)), now), ClaimAction::Finish(Ok(RefreshLeaseDecision::Pending))));
}

// ---------------------------------------------------------------------------
// Publishing refresh outcomes.
// ---------------------------------------------------------------------------

fn snapshot_id() -> String {
    format!("azure-{}", "b".repeat(64))
}

#[test]
fn lease_publish_completes_the_owners_lease_once() {
    let leased_at = timestamp("2026-08-10T12:00:00Z");
    let lease = RefreshLeaseDocument::new(&key(), OWNER, leased_at).expect("valid lease");
    let outcome = RefreshLeaseOutcome::Succeeded(snapshot_id());
    let now = leased_at + 30 * 1_000_000_000;

    let (mut publish, action) = LeasePublish::start(&key(), OWNER, outcome.clone());
    match action {
        PublishAction::Read(id) => assert_eq!(id, format!("refresh-lease-{}", key())),
        other => panic!("expected a read, got {other:?}"),
    }
    let completed = match publish.after_read(Ok((Ok(lease), etag())), now) {
        PublishAction::Replace(completed, tag) => {
            assert_eq!(tag, etag());
            assert_eq!(completed.completed_at.as_deref(), Some("2026-08-10T12:00:30Z"));
            assert!(matches!(&completed.status, RefreshLeaseStatus::Succeeded { snapshot_id: id } if *id == snapshot_id()));
            completed
        },
        other => panic!("expected a replace, got {other:?}"),
    };
    assert!(matches!(publish.after_write(Ok(())), PublishAction::Finish(Ok(()))));

    let (mut again, _) = LeasePublish::start(&key(), OWNER, outcome);
    assert!(matches!(again.after_read(Ok((Ok(completed), etag())), now), PublishAction::Finish(Ok(()))));
}

#[test]
fn lease_publish_never_touches_a_missing_or_foreign_lease() {
    let leased_at = timestamp("2026-08-10T12:00:00Z");
    let foreign = RefreshLeaseDocument::new(&key(), OTHER_OWNER, leased_at).expect("valid lease");
    let outcome = RefreshLeaseOutcome::Failed(ProviderError::TemporarilyUnavailable);
    let now = leased_at + 1_000_000_000;

    let (mut missing, _) = LeasePublish::start(&key(), OWNER, outcome.clone());
    assert!(matches!(missing.after_read(Err(st(404)), now), PublishAction::Finish(Err(SnapshotRepositoryError::Unavailable))));

    let (mut other, _) = LeasePublish::start(&key(), OWNER, outcome.clone());
    assert!(matches!(
        other.after_read(Ok((Ok(foreign), etag())), now),
        PublishAction::Finish(Err(SnapshotRepositoryError::Unavailable))
    ));

    let (mut expired, _) = LeasePublish::start(&key(), OWNER, outcome);
    let own = RefreshLeaseDocument::new(&key(), OWNER, leased_at).expect("valid lease");
    assert!(matches!(
        expired.after_read(Ok((Ok(own), etag())), leased_at + 151 * 1_000_000_000),
        PublishAction::Finish(Err(SnapshotRepositoryError::Unavailable))
    ));
}

#[test]
fn lease_publish_reads_again_after_a_lost_race_up_to_five_rounds() {
    let (mut publish, _) = LeasePublish::start(&key(), OWNER, RefreshLeaseOutcome::Succeeded(snapshot_id()));
    for _ in 0..4 {
        assert!(matches!(publish.after_write(Err(st(412))), PublishAction::Read(_)));
    }
    assert!(matches!(publish.after_write(Err(st(404))), PublishAction::Finish(Err(SnapshotRepositoryError::Unavailable))));
}

// ---------------------------------------------------------------------------
// Snapshot writes.
// ---------------------------------------------------------------------------

fn azure_document(retrieved_at: &str) -> AzureSnapshotDocument {
    let content = br#"{"managed_instance":[]}"#.to_vec();
    let digest = String::from_utf8(content_digest(&content)).expect("hex digest");
    AzureSnapshotDocument::new(AzurePriceSnapshot {
        metadata: SnapshotMetadata {
            snapshot_id: format!("azure-{digest}"),
            provider: Provider::Azure,
            currency: "USD".to_owned(),
            retrieved_at: retrieved_at.to_owned(),
            content_sha256: digest,
        },
        target_region: "swedencentral".to_owned(),
        content,
    })
}

#[test]
fn snapshot_write_creates_a_new_document() {
    let (mut write, action) = SnapshotWrite::start(azure_document("2026-08-10T12:00:00Z"));
    assert!(matches!(action, SnapshotWriteAction::Create));
    assert!(matches!(write.after_create(Ok(())), SnapshotWriteAction::Finish(Ok(()))));
}

#[test]
fn snapshot_write_refuses_a_document_that_does_not_validate() {
    let mut document = azure_document("2026-08-10T12:00:00Z");
    document.snapshot.metadata.content_sha256 = "0".repeat(64);
    let (_, action) = SnapshotWrite::start(document);
    assert!(matches!(action, SnapshotWriteAction::Finish(Err(SnapshotRepositoryError::InvalidData))));
}

#[test]
fn snapshot_write_replaces_only_an_earlier_retrieval() {
    let (mut write, _) = SnapshotWrite::start(azure_document("2026-08-10T12:00:01Z"));
    let id = match write.after_create(Err(st(409))) {
        SnapshotWriteAction::Read(id) => id,
        other => panic!("expected a read, got {other:?}"),
    };
    assert_eq!(id, write.document().id);
    match write.after_read(Ok((Ok(azure_document("2026-08-10T12:00:00Z")), etag()))) {
        SnapshotWriteAction::Replace(tag) => assert_eq!(tag, etag()),
        other => panic!("expected a replace, got {other:?}"),
    }
    assert!(matches!(write.after_replace(Ok(())), SnapshotWriteAction::Finish(Ok(()))));

    let (mut stale, _) = SnapshotWrite::start(azure_document("2026-08-10T12:00:00Z"));
    assert!(matches!(stale.after_create(Err(st(409))), SnapshotWriteAction::Read(_)));
    assert!(matches!(
        stale.after_read(Ok((Ok(azure_document("2026-08-10T12:00:00Z")), etag()))),
        SnapshotWriteAction::Finish(Ok(()))
    ));
}

#[test]
fn snapshot_write_creates_a_document_gone_meanwhile_and_gives_up_after_three_rounds() {
    let (mut write, _) = SnapshotWrite::start(azure_document("2026-08-10T12:00:00Z"));
    assert!(matches!(write.after_create(Err(st(409))), SnapshotWriteAction::Read(_)));
    assert!(matches!(write.after_read(Err(st(404))), SnapshotWriteAction::Create));
    assert!(matches!(write.after_create(Err(st(409))), SnapshotWriteAction::Read(_)));
    assert!(matches!(write.after_replace(Err(st(412))), SnapshotWriteAction::Read(_)));
    assert!(matches!(
        write.after_replace(Err(st(412))),
        SnapshotWriteAction::Finish(Err(SnapshotRepositoryError::Unavailable))
    ));
    assert!(matches!(write.after_create(Err(st(413))), SnapshotWriteAction::Finish(Err(SnapshotRepositoryError::PayloadTooLarge))));
}
