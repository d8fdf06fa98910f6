use vstd::prelude::*;

use crate::digest::{lower_hex, sha256_digest, sha256_hex};
use vstd::utf8::encode_utf8;

verus! {

#[derive(Clone, Copy, Debug, PartialEq, Eq, Structural)]
pub enum Provider {
    Aws,
    Azure,
}

/// Why a price provider could not deliver a snapshot.
#[derive(Clone, Copy, Debug, PartialEq, Eq, Structural)]
pub enum ProviderError {
    TemporarilyUnavailable,
    SchemaChanged,
}

/// What a caller is told about a refresh of the price cache.
#[derive(Clone, Debug)]
pub enum RefreshLeaseDecision {
    Acquired,
    Pending,
    Succeeded(String),
    Failed(ProviderError),
}

/// How a refresh ended.
#[derive(Clone, Debug)]
pub enum RefreshLeaseOutcome {
    Succeeded(String),
    Failed(ProviderError),
}

/// A refresh decision or outcome as plain values.
pub enum RefreshView {
    Acquired,
    Pending,
    Succeeded(Seq<char>),
    Failed(ProviderError),
}

impl View for RefreshLeaseDecision {
    type V = RefreshView;

    open spec fn view(&self) -> RefreshView {
        match self {
            RefreshLeaseDecision::Acquired => RefreshView::Acquired,
            RefreshLeaseDecision::Pending => RefreshView::Pending,
            RefreshLeaseDecision::Succeeded(id) => RefreshView::Succeeded(id@),
            RefreshLeaseDecision::Failed(e) => RefreshView::Failed(*e),
        }
    }
}

impl View for RefreshLeaseOutcome {
    type V = RefreshView;

    open spec fn view(&self) -> RefreshView {
        match self {
            RefreshLeaseOutcome::Succeeded(id) => RefreshView::Succeeded(id@),
            RefreshLeaseOutcome::Failed(e) => RefreshView::Failed(*e),
        }
    }
}

#[derive(Clone, Copy, Debug, PartialEq, Eq, Structural)]
pub enum SnapshotRepositoryError {
    Unavailable,
    InvalidData,
    PayloadTooLarge,
}

#[derive(Clone, Copy, Debug, PartialEq, Eq, Structural)]
pub enum RefreshQuotaDecision {
    Allowed,
    Limited { retry_after_seconds: u64 },
}

#[derive(Clone, Copy, Debug, PartialEq, Eq, Structural)]
pub enum RefreshQuotaError {
    Unavailable,
    InvalidData,
}

#[derive(Clone, Copy, Debug, PartialEq, Eq, Structural)]
pub enum SnapshotError {
    StoredSnapshotMismatch,
}

/// What identifies a price snapshot and its content.
#[derive(Clone, Debug)]
pub struct SnapshotMetadata {
    pub snapshot_id: String,
    pub provider: Provider,
    pub currency: String,
    pub retrieved_at: String,
    pub content_sha256: String,
}

/// AWS source prices for one region: the canonical content bytes and their metadata.
#[derive(Clone, Debug)]
pub struct AwsPriceSnapshot {
    pub metadata: SnapshotMetadata,
    pub source_region: String,
    pub content: Vec<u8>,
}

/// Azure target prices for one region: the canonical content bytes and their metadata.
#[derive(Clone, Debug)]
pub struct AzurePriceSnapshot {
    pub metadata: SnapshotMetadata,
    pub target_region: String,
    pub content: Vec<u8>,
}

/// The stored digest is the lowercase hexadecimal SHA-256 of the content.
pub open spec fn content_matches(metadata: SnapshotMetadata, content: Seq<u8>) -> bool {
    encode_utf8(metadata.content_sha256@) == lower_hex(sha256_digest(content))
}

/// Whether the content has the digest the metadata records.
pub fn digest_matches(metadata: &SnapshotMetadata, content: &Vec<u8>) -> (r: bool)
    ensures
        r == content_matches(*metadata, content@),
{
    let digest = sha256_hex(content.as_slice());
    let stored = metadata.content_sha256.as_str().as_bytes();
    crate::text::bytes_order(stored, digest.as_slice()) == 0
}

/// A stored AWS snapshot is accepted only when its content still has the digest
/// its metadata records.
pub fn validate_stored_aws_snapshot(snapshot: AwsPriceSnapshot) -> (r: Result<AwsPriceSnapshot, SnapshotError>)
    ensures
        content_matches(snapshot.metadata, snapshot.content@) ==> r == Ok::<AwsPriceSnapshot, SnapshotError>(snapshot),
        !content_matches(snapshot.metadata, snapshot.content@) ==> r == Err::<AwsPriceSnapshot, SnapshotError>(
            SnapshotError::StoredSnapshotMismatch,
        ),
{
    if digest_matches(&snapshot.metadata, &snapshot.content) {
        Ok(snapshot)
    } else {
        Err(SnapshotError::StoredSnapshotMismatch)
    }
}

/// A stored Azure snapshot is accepted only when its content still has the digest
/// its metadata records.
pub fn validate_stored_azure_snapshot(snapshot: AzurePriceSnapshot) -> (r: Result<AzurePriceSnapshot, SnapshotError>)
    ensures
        content_matches(snapshot.metadata, snapshot.content@) ==> r == Ok::<AzurePriceSnapshot, SnapshotError>(snapshot),
        !content_matches(snapshot.metadata, snapshot.content@) ==> r == Err::<AzurePriceSnapshot, SnapshotError>(
            SnapshotError::StoredSnapshotMismatch,
        ),
{
    if digest_matches(&snapshot.metadata, &snapshot.content) {
        Ok(snapshot)
    } else {
        Err(SnapshotError::StoredSnapshotMismatch)
    }
}

/// The lowercase hexadecimal SHA-256 of snapshot content, as its metadata records it.
pub fn content_digest(content: &Vec<u8>) -> (r: Vec<u8>)
    ensures
        r@ == lower_hex(sha256_digest(content@)),
{
    sha256_hex(content.as_slice())
}

} // verus!
