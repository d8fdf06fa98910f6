use vstd::prelude::*;

use crate::instant::{parse_utc, utc_instant};
use crate::pricing::{SnapshotMetadata, SnapshotRepositoryError, RefreshQuotaError};
use crate::pricing_cache::PricingCacheDocumentError;
use crate::privacy_consent::PrivacyConsentError;
use crate::project_share::ProjectShareError;
use crate::repository::RepositoryError;
use crate::project::{is_snapshot_id, spec_is_snapshot_id};
use crate::text::text_equals;
use vstd::string::StringSliceAdditionalSpecFns;

verus! {

/// The largest item the document store accepts, in bytes (exclusive).
pub const MAX_COSMOS_ITEM_BYTES: usize = 2_097_152;

/// The published state of an AWS snapshot: its id and metadata, and the content
/// digests of its EC2, RDS and EBS price components.
#[derive(Clone, Debug)]
pub struct AwsSnapshotStateDocument {
    pub id: String,
    pub snapshot_id: String,
    pub metadata: SnapshotMetadata,
    pub ec2_content_sha256: String,
    pub rds_content_sha256: String,
    pub ebs_content_sha256: String,
}

/// Parses an RFC 3339 timestamp that must be in UTC.
pub fn parse_utc_timestamp(value: &str) -> (r: Result<i128, SnapshotRepositoryError>)
    ensures
        match utc_instant(value@) {
            Some(n) => r == Ok::<i128, SnapshotRepositoryError>(n as i128),
            None => r == Err::<i128, SnapshotRepositoryError>(SnapshotRepositoryError::InvalidData),
        },
{
    match parse_utc(value) {
        Some(t) => Ok(t),
        None => Err(SnapshotRepositoryError::InvalidData),
    }
}

/// Whether the incoming retrieval time is strictly later than the existing one;
/// both must be RFC 3339 UTC timestamps.
pub fn retrieved_later(incoming: &str, existing: &str) -> (r: Result<bool, SnapshotRepositoryError>)
    ensures
        match (utc_instant(incoming@), utc_instant(existing@)) {
            (Some(i), Some(e)) => r == Ok::<bool, SnapshotRepositoryError>(i > e),
            _ => r == Err::<bool, SnapshotRepositoryError>(SnapshotRepositoryError::InvalidData),
        },
{
    let incoming = match parse_utc_timestamp(incoming) {
        Ok(t) => t,
        Err(e) => {
            return Err(e);
        },
    };
    let existing = match parse_utc_timestamp(existing) {
        Ok(t) => t,
        Err(e) => {
            return Err(e);
        },
    };
    Ok(incoming > existing)
}

/// Whether a point-read id is the prefix followed by 64 lowercase hexadecimal digits.
pub fn valid_snapshot_id(value: &str, prefix: &str) -> (r: bool)
    ensures
        r == spec_is_snapshot_id(value.spec_bytes(), prefix.spec_bytes()),
{
    is_snapshot_id(value, prefix)
}

/// The same published version: the same snapshot and the same component digests.
pub open spec fn spec_same_state_version(current: AwsSnapshotStateDocument, published: AwsSnapshotStateDocument) -> bool {
    &&& current.snapshot_id@ == published.snapshot_id@
    &&& current.ec2_content_sha256@ == published.ec2_content_sha256@
    &&& current.rds_content_sha256@ == published.rds_content_sha256@
    &&& current.ebs_content_sha256@ == published.ebs_content_sha256@
}

/// Whether a writer still sees the published version, so that it may clean up
/// the components it superseded.
pub fn same_aws_state_version(current: &AwsSnapshotStateDocument, published: &AwsSnapshotStateDocument) -> (r: bool)
    ensures
        r == spec_same_state_version(*current, *published),
{
    text_equals(current.snapshot_id.as_str(), published.snapshot_id.as_str()) && text_equals(
        current.ec2_content_sha256.as_str(),
        published.ec2_content_sha256.as_str(),
    ) && text_equals(current.rds_content_sha256.as_str(), published.rds_content_sha256.as_str()) && text_equals(
        current.ebs_content_sha256.as_str(),
        published.ebs_content_sha256.as_str(),
    )
}

pub open spec fn texts_of(values: Seq<String>) -> Seq<Seq<char>> {
    values.map_values(|s: String| s@)
}

/// The index of the newest of the documents by retrieval time, scanning in
/// order: a later document replaces the current choice only when it was
/// retrieved strictly later. Every compared time must be an RFC 3339 UTC timestamp.
pub open spec fn newest_index(times: Seq<Seq<char>>) -> Result<Option<int>, SnapshotRepositoryError>
    decreases times.len(),
{
    if times.len() == 0 {
        Ok(None)
    } else {
        match newest_index(times.drop_last()) {
            Err(e) => Err(e),
            Ok(None) => Ok(Some(times.len() - 1)),
            Ok(Some(k)) => match (utc_instant(times.last()), utc_instant(times[k])) {
                (Some(incoming), Some(current)) => if incoming > current {
                    Ok(Some(times.len() - 1))
                } else {
                    Ok(Some(k))
                },
                _ => Err(SnapshotRepositoryError::InvalidData),
            },
        }
    }
}

/// The index of the newest document, given the documents' retrieval times.
pub fn newest_document(retrieved_at: &Vec<String>) -> (r: Result<Option<usize>, SnapshotRepositoryError>)
    ensures
        match newest_index(texts_of(retrieved_at@)) {
            Ok(Some(k)) => r == Ok::<Option<usize>, SnapshotRepositoryError>(Some(k as usize)) && 0 <= k
                < retrieved_at@.len(),
            Ok(None) => r == Ok::<Option<usize>, SnapshotRepositoryError>(None),
            Err(e) => r == Err::<Option<usize>, SnapshotRepositoryError>(e),
        },
{
    let ghost times = texts_of(retrieved_at@);
    let mut newest: Option<usize> = None;
    let mut i: usize = 0;
    assert(times.subrange(0, 0) =~= Seq::<Seq<char>>::empty());
    while i < retrieved_at.len()
        invariant
            i <= retrieved_at@.len(),
            times == texts_of(retrieved_at@),
            match newest_index(times.subrange(0, i as int)) {
                Ok(Some(k)) => newest == Some(k as usize) && 0 <= k < i,
                Ok(None) => newest is None,
                Err(_) => false,
            },
        decreases retrieved_at@.len() - i,
    {
        let ghost prefix = times.subrange(0, i + 1);
        assert(prefix.drop_last() =~= times.subrange(0, i as int));
        assert(prefix.last() == retrieved_at@[i as int]@);
        match newest {
            None => {
                newest = Some(i);
            },
            Some(k) => {
                assert(prefix[k as int] == retrieved_at@[k as int]@);
                match retrieved_later(retrieved_at[i].as_str(), retrieved_at[k].as_str()) {
                    Ok(later) => {
                        if later {
                            newest = Some(i);
                        }
                    },
                    Err(e) => {
                        proof {
                            lemma_newest_stops(times, i as int + 1);
                        }
                        return Err(e);
                    },
                }
            },
        }
        i = i + 1;
    }
    assert(times.subrange(0, times.len() as int) =~= times);
    Ok(newest)
}

proof fn lemma_newest_stops(times: Seq<Seq<char>>, n: int)
    requires
        0 <= n <= times.len(),
        newest_index(times.subrange(0, n)) is Err,
    ensures
        newest_index(times) == newest_index(times.subrange(0, n)),
    decreases times.len() - n,
{
    if n == times.len() {
        assert(times.subrange(0, n) =~= times);
    } else {
        let next = times.subrange(0, n + 1);
        assert(next.drop_last() =~= times.subrange(0, n));
        lemma_newest_stops(times, n + 1);
    }
}

/// A serialized item must stay below the store's item limit.
pub fn validate_cosmos_item_size(serialized_len: usize) -> (r: Result<(), SnapshotRepositoryError>)
    ensures
        serialized_len >= MAX_COSMOS_ITEM_BYTES ==> r == Err::<(), SnapshotRepositoryError>(
            SnapshotRepositoryError::PayloadTooLarge,
        ),
        serialized_len < MAX_COSMOS_ITEM_BYTES ==> r is Ok,
{
    if serialized_len >= MAX_COSMOS_ITEM_BYTES {
        Err(SnapshotRepositoryError::PayloadTooLarge)
    } else {
        Ok(())
    }
}

/// What a failed store call reported: its HTTP status code and its sub-status
/// (0 where it had none).
#[derive(Clone, Copy, Debug, PartialEq, Eq, Structural)]
pub struct StoreStatus {
    pub code: u16,
    pub sub_status: u16,
}

impl StoreStatus {
    /// A plain 404: the item is not there (a 404 with a sub-status is another failure).
    pub open spec fn spec_not_found(self) -> bool {
        self.code == 404 && self.sub_status == 0
    }

    pub fn is_not_found(self) -> (r: bool)
        ensures
            r == self.spec_not_found(),
    {
        self.code == 404 && self.sub_status == 0
    }

    /// A 412: the entity-tag precondition of a write failed.
    pub fn is_precondition_failed(self) -> (r: bool)
        ensures
            r == (self.code == 412),
    {
        self.code == 412
    }
}

/// A write conflicted with an existing item (409).
pub fn is_conflict(status: StoreStatus) -> (r: bool)
    ensures
        r == (status.code == 409),
{
    status.code == 409
}

/// A failed pricing-cache store call: too large (413), else unavailable.
pub fn map_snapshot_cosmos_error(status: StoreStatus) -> (r: SnapshotRepositoryError)
    ensures
        r == (if status.code == 413 { SnapshotRepositoryError::PayloadTooLarge } else {
            SnapshotRepositoryError::Unavailable
        }),
{
    if status.code == 413 {
        SnapshotRepositoryError::PayloadTooLarge
    } else {
        SnapshotRepositoryError::Unavailable
    }
}

/// A cache document that does not validate is invalid data.
pub fn map_cache_document_error(_error: PricingCacheDocumentError) -> (r: SnapshotRepositoryError)
    ensures
        r == SnapshotRepositoryError::InvalidData,
{
    SnapshotRepositoryError::InvalidData
}

/// A quota document that does not validate is invalid data.
pub fn map_quota_document_error(_error: PricingCacheDocumentError) -> (r: RefreshQuotaError)
    ensures
        r == RefreshQuotaError::InvalidData,
{
    RefreshQuotaError::InvalidData
}

/// Any store failure during quota accounting leaves the quota unavailable.
pub fn map_quota_cosmos_error(_status: StoreStatus) -> (r: RefreshQuotaError)
    ensures
        r == RefreshQuotaError::Unavailable,
{
    RefreshQuotaError::Unavailable
}

/// A failed project store call: not found (a plain 404), a failed precondition
/// (412), too large (413), else unavailable.
pub fn map_cosmos_error(status: StoreStatus) -> (r: RepositoryError)
    ensures
        r == (if status.spec_not_found() {
            RepositoryError::NotFound
        } else if status.code == 412 {
            RepositoryError::PreconditionFailed
        } else if status.code == 413 {
            RepositoryError::PayloadTooLarge
        } else {
            RepositoryError::Unavailable
        }),
{
    if status.is_not_found() {
        RepositoryError::NotFound
    } else if status.is_precondition_failed() {
        RepositoryError::PreconditionFailed
    } else if status.code == 413 {
        RepositoryError::PayloadTooLarge
    } else {
        RepositoryError::Unavailable
    }
}

/// A failed share store call: not found (a plain 404), too large (413), else
/// unavailable.
pub fn map_share_cosmos_error(status: StoreStatus) -> (r: ProjectShareError)
    ensures
        r == (if status.spec_not_found() {
            ProjectShareError::NotFound
        } else if status.code == 413 {
            ProjectShareError::PayloadTooLarge
        } else {
            ProjectShareError::Unavailable
        }),
{
    if status.is_not_found() {
        ProjectShareError::NotFound
    } else if status.code == 413 {
        ProjectShareError::PayloadTooLarge
    } else {
        ProjectShareError::Unavailable
    }
}

/// A failed consent store call: always unavailable.
pub fn map_consent_cosmos_error(_status: StoreStatus) -> (r: PrivacyConsentError)
    ensures
        r == PrivacyConsentError::Unavailable,
{
    PrivacyConsentError::Unavailable
}

} // verus!
