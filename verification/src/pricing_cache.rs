use vstd::prelude::*;

use crate::ids::{canonical_uuid, is_canonical_uuid};
use crate::instant::{
    format_rfc3339, max_instant, parse_utc, rfc3339_renderable, rfc3339_text, utc_instant, valid_instant,
    NANOS_PER_SECOND,
};
use crate::pricing::{
    validate_stored_aws_snapshot, validate_stored_azure_snapshot, AwsPriceSnapshot, AzurePriceSnapshot, Provider,
    ProviderError, RefreshLeaseDecision, RefreshLeaseOutcome, RefreshView, SnapshotError, content_matches, digest_matches,
};
use crate::project::{is_snapshot_id, spec_is_snapshot_id};
use crate::text::{join_text, spec_has_prefix, spec_is_lower_hex, text_equals, has_prefix};
use vstd::string::StringSliceAdditionalSpecFns;
use vstd::utf8::encode_utf8;

verus! {

pub const PRICING_CACHE_CONTAINER_ID: &'static str = "pricing-cache";

pub const PRICING_CACHE_PARTITION: &'static str = "pricing";

pub const AWS_SNAPSHOT_DOCUMENT_TYPE: &'static str = "aws_price_snapshot";

pub const AZURE_SNAPSHOT_DOCUMENT_TYPE: &'static str = "azure_price_snapshot";

pub const REFRESH_LEASE_DOCUMENT_TYPE: &'static str = "pricing_refresh_lease";

pub const REFRESH_LEASE_TTL_SECONDS: i32 = 150;

pub const REFRESH_QUOTA_DOCUMENT_TYPE: &'static str = "pricing_refresh_quota";

pub const REFRESH_QUOTA_TTL_SECONDS: i32 = 3600;

pub const REFRESH_LEASE_ID_PREFIX: &'static str = "refresh-lease-";

pub const REFRESH_QUOTA_ID_PREFIX: &'static str = "refresh-quota-";

/// The most provider refreshes one identity may start per hour.
pub const MAX_PROVIDER_REFRESHES_PER_HOUR: u32 = 10_000;

#[derive(Clone, Copy, Debug, PartialEq, Eq, Structural)]
pub enum PricingCacheDocumentError {
    EnvelopeMismatch,
    Snapshot(SnapshotError),
}

impl PricingCacheDocumentError {
    /// The error's message as text.
    pub open spec fn spec_message(&self) -> Seq<char> {
        match self {
            PricingCacheDocumentError::EnvelopeMismatch => "pricing cache document envelope is invalid"@,
            PricingCacheDocumentError::Snapshot(_) => "stored snapshot does not match its content"@,
        }
    }

    /// The error's message.
    pub fn message(&self) -> (r: &'static str)
        ensures
            r@ == self.spec_message(),
    {
        match self {
            PricingCacheDocumentError::EnvelopeMismatch => "pricing cache document envelope is invalid",
            PricingCacheDocumentError::Snapshot(_) => "stored snapshot does not match its content",
        }
    }
}

// ---------------------------------------------------------------------------
// Identifiers.
// ---------------------------------------------------------------------------

pub open spec fn aws_prefix() -> Seq<u8> {
    encode_utf8("aws-"@)
}

pub open spec fn azure_prefix() -> Seq<u8> {
    encode_utf8("azure-"@)
}

/// 64 lowercase hexadecimal digits.
pub open spec fn valid_hash(value: Seq<u8>) -> bool {
    spec_is_lower_hex(value, 64)
}

/// `aws-` or `azure-` followed by a hash.
pub open spec fn valid_snapshot_id(value: Seq<u8>) -> bool {
    if spec_has_prefix(value, aws_prefix()) {
        spec_is_snapshot_id(value, aws_prefix())
    } else {
        spec_is_snapshot_id(value, azure_prefix())
    }
}

pub fn is_valid_hash(value: &str) -> (r: bool)
    ensures
        r == valid_hash(value.spec_bytes()),
{
    crate::text::is_lower_hex_from(value.as_bytes(), 0, 64) && {
        assert(value.spec_bytes().subrange(0, value.spec_bytes().len() as int) =~= value.spec_bytes());
        true
    }
}

pub fn is_valid_snapshot_id(value: &str) -> (r: bool)
    ensures
        r == valid_snapshot_id(value.spec_bytes()),
{
    if has_prefix(value.as_bytes(), "aws-".as_bytes()) {
        is_snapshot_id(value, "aws-")
    } else {
        is_snapshot_id(value, "azure-")
    }
}

// ---------------------------------------------------------------------------
// Snapshot documents.
// ---------------------------------------------------------------------------

/// An AWS snapshot as it is stored, with an envelope that repeats its identity.
#[derive(Clone, Debug)]
pub struct AwsSnapshotDocument {
    pub id: String,
    pub document_type: String,
    pub cache_partition: String,
    pub provider: Provider,
    pub currency: String,
    pub source_region: String,
    pub retrieved_at: String,
    pub snapshot: AwsPriceSnapshot,
}

/// The envelope repeats the snapshot's identity.
pub open spec fn aws_envelope_ok(d: AwsSnapshotDocument) -> bool {
    &&& d.id@ == d.snapshot.metadata.snapshot_id@
    &&& d.document_type@ == AWS_SNAPSHOT_DOCUMENT_TYPE@
    &&& d.cache_partition@ == PRICING_CACHE_PARTITION@
    &&& d.provider == Provider::Aws
    &&& d.snapshot.metadata.provider == Provider::Aws
    &&& d.currency@ == d.snapshot.metadata.currency@
    &&& d.source_region@ == d.snapshot.source_region@
    &&& d.retrieved_at@ == d.snapshot.metadata.retrieved_at@
}

impl AwsSnapshotDocument {
    /// The stored form of a snapshot.
    pub fn new(snapshot: AwsPriceSnapshot) -> (r: AwsSnapshotDocument)
        ensures
            r.id@ == snapshot.metadata.snapshot_id@,
            r.document_type@ == AWS_SNAPSHOT_DOCUMENT_TYPE@,
            r.cache_partition@ == PRICING_CACHE_PARTITION@,
            r.provider == Provider::Aws,
            r.currency@ == snapshot.metadata.currency@,
            r.source_region@ == snapshot.source_region@,
            r.retrieved_at@ == snapshot.metadata.retrieved_at@,
            r.snapshot == snapshot,
    {
        AwsSnapshotDocument {
            id: snapshot.metadata.snapshot_id.clone(),
            document_type: AWS_SNAPSHOT_DOCUMENT_TYPE.to_owned(),
            cache_partition: PRICING_CACHE_PARTITION.to_owned(),
            provider: Provider::Aws,
            currency: snapshot.metadata.currency.clone(),
            source_region: snapshot.source_region.clone(),
            retrieved_at: snapshot.metadata.retrieved_at.clone(),
            snapshot,
        }
    }

    /// The snapshot, when the envelope matches it and its content matches its digest.
    pub fn into_snapshot(self) -> (r: Result<AwsPriceSnapshot, PricingCacheDocumentError>)
        ensures
            !aws_envelope_ok(self) ==> r == Err::<AwsPriceSnapshot, PricingCacheDocumentError>(
                PricingCacheDocumentError::EnvelopeMismatch,
            ),
            aws_envelope_ok(self) && !content_matches(self.snapshot.metadata, self.snapshot.content@) ==> r == Err::<
                AwsPriceSnapshot,
                PricingCacheDocumentError,
            >(PricingCacheDocumentError::Snapshot(SnapshotError::StoredSnapshotMismatch)),
            aws_envelope_ok(self) && content_matches(self.snapshot.metadata, self.snapshot.content@) ==> r == Ok::<
                AwsPriceSnapshot,
                PricingCacheDocumentError,
            >(self.snapshot),
    {
        if !text_equals(self.id.as_str(), self.snapshot.metadata.snapshot_id.as_str())
            || !text_equals(self.document_type.as_str(), AWS_SNAPSHOT_DOCUMENT_TYPE)
            || !text_equals(self.cache_partition.as_str(), PRICING_CACHE_PARTITION)
            || self.provider != Provider::Aws || self.snapshot.metadata.provider != Provider::Aws
            || !text_equals(self.currency.as_str(), self.snapshot.metadata.currency.as_str())
            || !text_equals(self.source_region.as_str(), self.snapshot.source_region.as_str())
            || !text_equals(self.retrieved_at.as_str(), self.snapshot.metadata.retrieved_at.as_str()) {
            return Err(PricingCacheDocumentError::EnvelopeMismatch);
        }
        match validate_stored_aws_snapshot(self.snapshot) {
            Ok(s) => Ok(s),
            Err(e) => Err(PricingCacheDocumentError::Snapshot(e)),
        }
    }
}

/// An Azure snapshot as it is stored, with an envelope that repeats its identity.
#[derive(Clone, Debug)]
pub struct AzureSnapshotDocument {
    pub id: String,
    pub document_type: String,
    pub cache_partition: String,
    pub provider: Provider,
    pub currency: String,
    pub target_region: String,
    pub retrieved_at: String,
    pub snapshot: AzurePriceSnapshot,
}

pub open spec fn azure_envelope_ok(d: AzureSnapshotDocument) -> bool {
    &&& d.id@ == d.snapshot.metadata.snapshot_id@
    &&& d.document_type@ == AZURE_SNAPSHOT_DOCUMENT_TYPE@
    &&& d.cache_partition@ == PRICING_CACHE_PARTITION@
    &&& d.provider == Provider::Azure
    &&& d.snapshot.metadata.provider == Provider::Azure
    &&& d.currency@ == d.snapshot.metadata.currency@
    &&& d.target_region@ == d.snapshot.target_region@
    &&& d.retrieved_at@ == d.snapshot.metadata.retrieved_at@
}

impl AzureSnapshotDocument {
    /// The stored form of a snapshot.
    pub fn new(snapshot: AzurePriceSnapshot) -> (r: AzureSnapshotDocument)
        ensures
            r.id@ == snapshot.metadata.snapshot_id@,
            r.document_type@ == AZURE_SNAPSHOT_DOCUMENT_TYPE@,
            r.cache_partition@ == PRICING_CACHE_PARTITION@,
            r.provider == Provider::Azure,
            r.currency@ == snapshot.metadata.currency@,
            r.target_region@ == snapshot.target_region@,
            r.retrieved_at@ == snapshot.metadata.retrieved_at@,
            r.snapshot == snapshot,
    {
        AzureSnapshotDocument {
            id: snapshot.metadata.snapshot_id.clone(),
            document_type: AZURE_SNAPSHOT_DOCUMENT_TYPE.to_owned(),
            cache_partition: PRICING_CACHE_PARTITION.to_owned(),
            provider: Provider::Azure,
            currency: snapshot.metadata.currency.clone(),
            target_region: snapshot.target_region.clone(),
            retrieved_at: snapshot.metadata.retrieved_at.clone(),
            snapshot,
        }
    }

    /// Accepts a stored document whose envelope matches its snapshot and whose
    /// content matches its digest.
    pub fn validate(&self) -> (r: Result<(), PricingCacheDocumentError>)
        ensures
            r is Ok <==> azure_envelope_ok(*self) && content_matches(self.snapshot.metadata, self.snapshot.content@),
    {
        if !text_equals(self.id.as_str(), self.snapshot.metadata.snapshot_id.as_str())
            || !text_equals(self.document_type.as_str(), AZURE_SNAPSHOT_DOCUMENT_TYPE)
            || !text_equals(self.cache_partition.as_str(), PRICING_CACHE_PARTITION)
            || self.provider != Provider::Azure || self.snapshot.metadata.provider != Provider::Azure
            || !text_equals(self.currency.as_str(), self.snapshot.metadata.currency.as_str())
            || !text_equals(self.target_region.as_str(), self.snapshot.target_region.as_str())
            || !text_equals(self.retrieved_at.as_str(), self.snapshot.metadata.retrieved_at.as_str()) {
            return Err(PricingCacheDocumentError::EnvelopeMismatch);
        }
        if digest_matches(&self.snapshot.metadata, &self.snapshot.content) {
            Ok(())
        } else {
            Err(PricingCacheDocumentError::Snapshot(SnapshotError::StoredSnapshotMismatch))
        }
    }

    /// The snapshot, when the envelope matches it and its content matches its digest.
    pub fn into_snapshot(self) -> (r: Result<AzurePriceSnapshot, PricingCacheDocumentError>)
        ensures
            !azure_envelope_ok(self) ==> r == Err::<AzurePriceSnapshot, PricingCacheDocumentError>(
                PricingCacheDocumentError::EnvelopeMismatch,
            ),
            azure_envelope_ok(self) && !content_matches(self.snapshot.metadata, self.snapshot.content@) ==> r == Err::<
                AzurePriceSnapshot,
                PricingCacheDocumentError,
            >(PricingCacheDocumentError::Snapshot(SnapshotError::StoredSnapshotMismatch)),
            azure_envelope_ok(self) && content_matches(self.snapshot.metadata, self.snapshot.content@) ==> r == Ok::<
                AzurePriceSnapshot,
                PricingCacheDocumentError,
            >(self.snapshot),
    {
        if !text_equals(self.id.as_str(), self.snapshot.metadata.snapshot_id.as_str())
            || !text_equals(self.document_type.as_str(), AZURE_SNAPSHOT_DOCUMENT_TYPE)
            || !text_equals(self.cache_partition.as_str(), PRICING_CACHE_PARTITION)
            || self.provider != Provider::Azure || self.snapshot.metadata.provider != Provider::Azure
            || !text_equals(self.currency.as_str(), self.snapshot.metadata.currency.as_str())
            || !text_equals(self.target_region.as_str(), self.snapshot.target_region.as_str())
            || !text_equals(self.retrieved_at.as_str(), self.snapshot.metadata.retrieved_at.as_str()) {
            return Err(PricingCacheDocumentError::EnvelopeMismatch);
        }
        match validate_stored_azure_snapshot(self.snapshot) {
            Ok(s) => Ok(s),
            Err(e) => Err(PricingCacheDocumentError::Snapshot(e)),
        }
    }
}

// ---------------------------------------------------------------------------
// Refresh leases.
// ---------------------------------------------------------------------------

/// Who refreshes a cache entry, and how the refresh ended.
#[derive(Clone, Debug)]
pub struct RefreshLeaseDocument {
    pub id: String,
    pub document_type: String,
    pub cache_partition: String,
    pub cache_key_sha256: String,
    pub owner_token: String,
    pub leased_at: String,
    pub expires_at: String,
    pub completed_at: Option<String>,
    pub status: RefreshLeaseStatus,
    pub ttl: i32,
}

#[derive(Clone, Debug)]
pub enum RefreshLeaseStatus {
    InProgress,
    Succeeded { snapshot_id: String },
    Failed { error: ProviderError },
}

pub enum LeaseStatusView {
    InProgress,
    Succeeded(Seq<char>),
    Failed(ProviderError),
}

impl View for RefreshLeaseStatus {
    type V = LeaseStatusView;

    open spec fn view(&self) -> LeaseStatusView {
        match self {
            RefreshLeaseStatus::InProgress => LeaseStatusView::InProgress,
            RefreshLeaseStatus::Succeeded { snapshot_id } => LeaseStatusView::Succeeded(snapshot_id@),
            RefreshLeaseStatus::Failed { error } => LeaseStatusView::Failed(*error),
        }
    }
}

pub open spec fn opt_text(value: Option<String>) -> Option<Seq<char>> {
    match value {
        Some(s) => Some(s@),
        None => None,
    }
}

/// A lease as plain values: (id, document type, partition, cache key, owner,
/// leased at, expires at, completed at, status, time to live).
pub type LeaseView = (
    Seq<char>,
    Seq<char>,
    Seq<char>,
    Seq<char>,
    Seq<char>,
    Seq<char>,
    Seq<char>,
    Option<Seq<char>>,
    LeaseStatusView,
    i32,
);

impl View for RefreshLeaseDocument {
    type V = LeaseView;

    open spec fn view(&self) -> LeaseView {
        (
            self.id@,
            self.document_type@,
            self.cache_partition@,
            self.cache_key_sha256@,
            self.owner_token@,
            self.leased_at@,
            self.expires_at@,
            opt_text(self.completed_at),
            self.status@,
            self.ttl,
        )
    }
}

pub open spec fn lease_ttl_nanos() -> int {
    REFRESH_LEASE_TTL_SECONDS * NANOS_PER_SECOND
}

/// The UTC instant of a text lies in `[start, end]`.
pub open spec fn instant_within(text: Seq<char>, start: int, end: int) -> bool {
    utc_instant(text) matches Some(t) && start <= t <= end
}

/// A well-formed lease: its id and envelope follow from its cache key, the owner
/// is a canonical UUID, it lasts exactly 150 seconds, and it is either in
/// progress, or completed (with a valid snapshot id when it succeeded) within
/// its lease time.
pub open spec fn lease_valid(v: LeaseView) -> bool {
    match (utc_instant(v.5), utc_instant(v.6)) {
        (Some(leased), Some(expires)) => {
            &&& valid_hash(encode_utf8(v.3))
            &&& v.0 == REFRESH_LEASE_ID_PREFIX@ + v.3
            &&& v.1 == REFRESH_LEASE_DOCUMENT_TYPE@
            &&& v.2 == PRICING_CACHE_PARTITION@
            &&& canonical_uuid(v.4)
            &&& expires - leased == lease_ttl_nanos()
            &&& v.9 == REFRESH_LEASE_TTL_SECONDS
            &&& match (v.8, v.7) {
                (LeaseStatusView::InProgress, None) => true,
                (LeaseStatusView::Succeeded(id), Some(completed)) => valid_snapshot_id(encode_utf8(id))
                    && instant_within(completed, leased, expires),
                (LeaseStatusView::Failed(_), Some(completed)) => instant_within(completed, leased, expires),
                _ => false,
            }
        },
        _ => false,
    }
}

pub open spec fn lease_expires(v: LeaseView) -> int {
    utc_instant(v.6).unwrap()
}

/// The lease completed at or after `started`.
pub open spec fn completed_since(v: LeaseView, started: int) -> bool {
    v.7 matches Some(c) && utc_instant(c) matches Some(t) && t >= started
}

/// What a request started at `started` learns at `now` from a valid lease: an
/// unexpired lease in progress makes it wait; a finished refresh is reported
/// only to requests that started before it completed; otherwise nothing.
pub open spec fn lease_decision(v: LeaseView, started: int, now: int) -> Option<RefreshView> {
    match v.8 {
        LeaseStatusView::InProgress => if lease_expires(v) <= now {
            None
        } else {
            Some(RefreshView::Pending)
        },
        LeaseStatusView::Succeeded(id) => if completed_since(v, started) {
            Some(RefreshView::Succeeded(id))
        } else {
            None
        },
        LeaseStatusView::Failed(e) => if completed_since(v, started) {
            Some(RefreshView::Failed(e))
        } else {
            None
        },
    }
}

pub open spec fn decision_view(d: Option<RefreshLeaseDecision>) -> Option<RefreshView> {
    match d {
        Some(x) => Some(x@),
        None => None,
    }
}

/// The stored status for an outcome.
pub open spec fn status_for(outcome: RefreshView) -> LeaseStatusView {
    match outcome {
        RefreshView::Succeeded(id) => LeaseStatusView::Succeeded(id),
        RefreshView::Failed(e) => LeaseStatusView::Failed(e),
        _ => LeaseStatusView::InProgress,
    }
}

/// The lease holds this outcome.
pub open spec fn holds_outcome(v: LeaseView, outcome: RefreshView) -> bool {
    match (v.8, outcome) {
        (LeaseStatusView::Succeeded(stored), RefreshView::Succeeded(expected)) => stored == expected,
        (LeaseStatusView::Failed(stored), RefreshView::Failed(expected)) => stored == expected,
        _ => false,
    }
}

fn lease_id(cache_key_sha256: &str) -> (r: String)
    ensures
        r@ == REFRESH_LEASE_ID_PREFIX@ + cache_key_sha256@,
{
    join_text(REFRESH_LEASE_ID_PREFIX, cache_key_sha256)
}

fn format_timestamp(nanos: i128) -> (r: Result<String, PricingCacheDocumentError>)
    ensures
        r is Ok <==> rfc3339_renderable(nanos as int),
        r is Err ==> r == Err::<String, PricingCacheDocumentError>(PricingCacheDocumentError::EnvelopeMismatch),
        r matches Ok(text) ==> text@ == rfc3339_text(nanos as int) && utc_instant(text@) == Some(nanos as int),
{
    match format_rfc3339(nanos) {
        Some(text) => Ok(text),
        None => Err(PricingCacheDocumentError::EnvelopeMismatch),
    }
}

fn within_lease(text: &str, leased_at: i128, expires_at: i128) -> (r: bool)
    ensures
        r == instant_within(text@, leased_at as int, expires_at as int),
{
    match parse_utc(text) {
        Some(t) => leased_at <= t && t <= expires_at,
        None => false,
    }
}

impl RefreshLeaseDocument {
    /// A lease on a cache key, taken by `owner_token` at `now` (nanoseconds since
    /// the Unix epoch, UTC) for 150 seconds.
    pub fn new(cache_key_sha256: &str, owner_token: &str, now: i128) -> (r: Result<
        RefreshLeaseDocument,
        PricingCacheDocumentError,
    >)
        requires
            valid_instant(now as int),
            now + lease_ttl_nanos() <= max_instant(),
        ensures
            r is Ok <==> (valid_hash(cache_key_sha256.spec_bytes()) && canonical_uuid(owner_token@)
                && rfc3339_renderable(now as int)),
            r matches Ok(d) ==> {
                &&& d@ == (
                    REFRESH_LEASE_ID_PREFIX@ + cache_key_sha256@,
                    REFRESH_LEASE_DOCUMENT_TYPE@,
                    PRICING_CACHE_PARTITION@,
                    cache_key_sha256@,
                    owner_token@,
                    rfc3339_text(now as int),
                    rfc3339_text(now + lease_ttl_nanos()),
                    None::<Seq<char>>,
                    LeaseStatusView::InProgress,
                    REFRESH_LEASE_TTL_SECONDS,
                )
                &&& lease_valid(d@)
            },
    {
        let expires_at = now + (REFRESH_LEASE_TTL_SECONDS as i128) * NANOS_PER_SECOND;
        let leased_text = match format_timestamp(now) {
            Ok(t) => t,
            Err(e) => {
                return Err(e);
            },
        };
        let expires_text = match format_timestamp(expires_at) {
            Ok(t) => t,
            Err(e) => {
                return Err(e);
            },
        };
        let document = RefreshLeaseDocument {
            id: lease_id(cache_key_sha256),
            document_type: REFRESH_LEASE_DOCUMENT_TYPE.to_owned(),
            cache_partition: PRICING_CACHE_PARTITION.to_owned(),
            cache_key_sha256: cache_key_sha256.to_owned(),
            owner_token: owner_token.to_owned(),
            leased_at: leased_text,
            expires_at: expires_text,
            completed_at: None,
            status: RefreshLeaseStatus::InProgress,
            ttl: REFRESH_LEASE_TTL_SECONDS,
        };
        match document.validate() {
            Ok(()) => Ok(document),
            Err(e) => Err(e),
        }
    }

    /// Accepts only a well-formed lease.
    pub fn validate(&self) -> (r: Result<(), PricingCacheDocumentError>)
        ensures
            r is Ok <==> lease_valid(self@),
            r is Err ==> r == Err::<(), PricingCacheDocumentError>(PricingCacheDocumentError::EnvelopeMismatch),
    {
        let leased_at = match parse_utc(self.leased_at.as_str()) {
            Some(t) => t,
            None => {
                return Err(PricingCacheDocumentError::EnvelopeMismatch);
            },
        };
        let expires_at = match parse_utc(self.expires_at.as_str()) {
            Some(t) => t,
            None => {
                return Err(PricingCacheDocumentError::EnvelopeMismatch);
            },
        };
        let expected_id = lease_id(self.cache_key_sha256.as_str());
        if !is_valid_hash(self.cache_key_sha256.as_str()) || !text_equals(self.id.as_str(), expected_id.as_str())
            || !text_equals(self.document_type.as_str(), REFRESH_LEASE_DOCUMENT_TYPE)
            || !text_equals(self.cache_partition.as_str(), PRICING_CACHE_PARTITION)
            || !is_canonical_uuid(self.owner_token.as_str())
            || expires_at - leased_at != (REFRESH_LEASE_TTL_SECONDS as i128) * NANOS_PER_SECOND
            || self.ttl != REFRESH_LEASE_TTL_SECONDS {
            return Err(PricingCacheDocumentError::EnvelopeMismatch);
        }
        let ok = match (&self.status, &self.completed_at) {
            (RefreshLeaseStatus::InProgress, None) => true,
            (RefreshLeaseStatus::Succeeded { snapshot_id }, Some(completed_at)) => is_valid_snapshot_id(
                snapshot_id.as_str(),
            ) && within_lease(completed_at.as_str(), leased_at, expires_at),
            (RefreshLeaseStatus::Failed { .. }, Some(completed_at)) => within_lease(
                completed_at.as_str(),
                leased_at,
                expires_at,
            ),
            _ => false,
        };
        if ok {
            Ok(())
        } else {
            Err(PricingCacheDocumentError::EnvelopeMismatch)
        }
    }

    /// What a request started at `request_started_at` is told at `now` about this lease.
    pub fn decision(&self, request_started_at: i128, now: i128) -> (r: Result<
        Option<RefreshLeaseDecision>,
        PricingCacheDocumentError,
    >)
        ensures
            r is Ok <==> lease_valid(self@),
            r is Err ==> r == Err::<Option<RefreshLeaseDecision>, PricingCacheDocumentError>(
                PricingCacheDocumentError::EnvelopeMismatch,
            ),
            r matches Ok(d) ==> decision_view(d) == lease_decision(self@, request_started_at as int, now as int),
    {
        match self.validate() {
            Ok(()) => {},
            Err(e) => {
                return Err(e);
            },
        }
        match &self.status {
            RefreshLeaseStatus::InProgress => {
                let expires_at = parse_utc(self.expires_at.as_str()).unwrap();
                if expires_at <= now {
                    Ok(None)
                } else {
                    Ok(Some(RefreshLeaseDecision::Pending))
                }
            },
            RefreshLeaseStatus::Succeeded { snapshot_id } => {
                if self.completed_for(request_started_at) {
                    Ok(Some(RefreshLeaseDecision::Succeeded(snapshot_id.clone())))
                } else {
                    Ok(None)
                }
            },
            RefreshLeaseStatus::Failed { error } => {
                if self.completed_for(request_started_at) {
                    Ok(Some(RefreshLeaseDecision::Failed(*error)))
                } else {
                    Ok(None)
                }
            },
        }
    }

    /// The lease completed by its owner with `outcome` at `now`.
    pub fn complete(&self, owner_token: &str, outcome: &RefreshLeaseOutcome, now: i128) -> (r: Result<
        RefreshLeaseDocument,
        PricingCacheDocumentError,
    >)
        ensures
            r is Ok <==> {
                &&& lease_valid(self@)
                &&& self.owner_token@ == owner_token@
                &&& self@.8 is InProgress
                &&& now < lease_expires(self@)
                &&& rfc3339_renderable(now as int)
                &&& (outcome@ matches RefreshView::Succeeded(id) ==> valid_snapshot_id(encode_utf8(id)))
                &&& lease_valid(
                    (self@.0, self@.1, self@.2, self@.3, self@.4, self@.5, self@.6, Some(rfc3339_text(now as int)), status_for(outcome@), self@.9),
                )
            },
            r is Err ==> r == Err::<RefreshLeaseDocument, PricingCacheDocumentError>(
                PricingCacheDocumentError::EnvelopeMismatch,
            ),
            r matches Ok(d) ==> d@ == (
                self@.0,
                self@.1,
                self@.2,
                self@.3,
                self@.4,
                self@.5,
                self@.6,
                Some(rfc3339_text(now as int)),
                status_for(outcome@),
                self@.9,
            ) && utc_instant(rfc3339_text(now as int)) == Some(now as int),
    {
        match self.validate() {
            Ok(()) => {},
            Err(e) => {
                return Err(e);
            },
        }
        let in_progress = match self.status {
            RefreshLeaseStatus::InProgress => true,
            _ => false,
        };
        let expires_at = parse_utc(self.expires_at.as_str()).unwrap();
        if !text_equals(self.owner_token.as_str(), owner_token) || !in_progress || expires_at <= now {
            return Err(PricingCacheDocumentError::EnvelopeMismatch);
        }
        let completed_text = match format_timestamp(now) {
            Ok(t) => t,
            Err(e) => {
                return Err(e);
            },
        };
        let status = match outcome {
            RefreshLeaseOutcome::Succeeded(snapshot_id) => {
                if is_valid_snapshot_id(snapshot_id.as_str()) {
                    RefreshLeaseStatus::Succeeded { snapshot_id: snapshot_id.clone() }
                } else {
                    return Err(PricingCacheDocumentError::EnvelopeMismatch);
                }
            },
            RefreshLeaseOutcome::Failed(error) => RefreshLeaseStatus::Failed { error: *error },
        };
        let completed = RefreshLeaseDocument {
            id: self.id.clone(),
            document_type: self.document_type.clone(),
            cache_partition: self.cache_partition.clone(),
            cache_key_sha256: self.cache_key_sha256.clone(),
            owner_token: self.owner_token.clone(),
            leased_at: self.leased_at.clone(),
            expires_at: self.expires_at.clone(),
            completed_at: Some(completed_text),
            status,
            ttl: self.ttl,
        };
        match completed.validate() {
            Ok(()) => Ok(completed),
            Err(e) => Err(e),
        }
    }

    /// Whether the lease is this owner's and already holds this outcome.
    pub fn matches_outcome(&self, owner_token: &str, outcome: &RefreshLeaseOutcome) -> (r: Result<
        bool,
        PricingCacheDocumentError,
    >)
        ensures
            r is Ok <==> lease_valid(self@),
            r is Err ==> r == Err::<bool, PricingCacheDocumentError>(PricingCacheDocumentError::EnvelopeMismatch),
            r matches Ok(b) ==> b == (self.owner_token@ == owner_token@ && holds_outcome(self@, outcome@)),
    {
        match self.validate() {
            Ok(()) => {},
            Err(e) => {
                return Err(e);
            },
        }
        let matches = match (&self.status, outcome) {
            (RefreshLeaseStatus::Succeeded { snapshot_id: stored }, RefreshLeaseOutcome::Succeeded(expected)) => {
                text_equals(stored.as_str(), expected.as_str())
            },
            (RefreshLeaseStatus::Failed { error: stored }, RefreshLeaseOutcome::Failed(expected)) => *stored
                == *expected,
            _ => false,
        };
        Ok(text_equals(self.owner_token.as_str(), owner_token) && matches)
    }

    /// A field-for-field copy.
    pub fn duplicate(&self) -> (r: RefreshLeaseDocument)
        ensures
            r@ == self@,
    {
        RefreshLeaseDocument {
            id: self.id.clone(),
            document_type: self.document_type.clone(),
            cache_partition: self.cache_partition.clone(),
            cache_key_sha256: self.cache_key_sha256.clone(),
            owner_token: self.owner_token.clone(),
            leased_at: self.leased_at.clone(),
            expires_at: self.expires_at.clone(),
            completed_at: match &self.completed_at {
                Some(t) => Some(t.clone()),
                None => None,
            },
            status: match &self.status {
                RefreshLeaseStatus::InProgress => RefreshLeaseStatus::InProgress,
                RefreshLeaseStatus::Succeeded { snapshot_id } => RefreshLeaseStatus::Succeeded {
                    snapshot_id: snapshot_id.clone(),
                },
                RefreshLeaseStatus::Failed { error } => RefreshLeaseStatus::Failed { error: *error },
            },
            ttl: self.ttl,
        }
    }

    /// Whether the lease completed at or after the request started.
    fn completed_for(&self, request_started_at: i128) -> (r: bool)
        requires
            lease_valid(self@),
        ensures
            r == completed_since(self@, request_started_at as int),
    {
        match &self.completed_at {
            Some(completed_at) => match parse_utc(completed_at.as_str()) {
                Some(t) => t >= request_started_at,
                None => false,
            },
            None => false,
        }
    }
}

// ---------------------------------------------------------------------------
// Refresh quotas.
// ---------------------------------------------------------------------------

/// How many provider refreshes an identity started in the current hour, and by
/// which operations.
#[derive(Clone, Debug)]
pub struct RefreshQuotaDocument {
    pub id: String,
    pub document_type: String,
    pub cache_partition: String,
    pub identity_sha256: String,
    pub window_started_at: String,
    pub expires_at: String,
    pub limit: u32,
    pub count: u32,
    pub operation_tokens: Vec<String>,
    pub ttl: i32,
}

/// A quota as plain values: (id, document type, partition, identity, window
/// start, expiry, limit, count, operations, time to live).
pub type QuotaView = (Seq<char>, Seq<char>, Seq<char>, Seq<char>, Seq<char>, Seq<char>, u32, u32, Seq<Seq<char>>, i32);

pub open spec fn texts(values: Seq<String>) -> Seq<Seq<char>> {
    values.map_values(|s: String| s@)
}

impl View for RefreshQuotaDocument {
    type V = QuotaView;

    open spec fn view(&self) -> QuotaView {
        (
            self.id@,
            self.document_type@,
            self.cache_partition@,
            self.identity_sha256@,
            self.window_started_at@,
            self.expires_at@,
            self.limit,
            self.count,
            texts(self.operation_tokens@),
            self.ttl,
        )
    }
}

/// What consuming a quota asks of the store.
#[derive(Clone, Debug)]
pub enum RefreshQuotaMutation {
    Allowed,
    Limited(u64),
    Replace(RefreshQuotaDocument),
}

pub open spec fn quota_ttl_nanos() -> int {
    REFRESH_QUOTA_TTL_SECONDS * NANOS_PER_SECOND
}

pub open spec fn distinct(values: Seq<Seq<char>>) -> bool {
    forall|i: int, j: int| 0 <= i < j < values.len() ==> values[i] != values[j]
}

/// A well-formed quota: its id and envelope follow from the identity, the limit
/// is between 1 and the hourly maximum, the count is positive, at most the
/// limit, and the number of distinct canonical operation ids; the window lasts
/// an hour, and the time to live is within it.
pub open spec fn quota_valid(v: QuotaView) -> bool {
    match (utc_instant(v.4), utc_instant(v.5)) {
        (Some(started), Some(expires)) => {
            &&& valid_hash(encode_utf8(v.3))
            &&& v.0 == REFRESH_QUOTA_ID_PREFIX@ + v.3
            &&& v.1 == REFRESH_QUOTA_DOCUMENT_TYPE@
            &&& v.2 == PRICING_CACHE_PARTITION@
            &&& 1 <= v.6 <= MAX_PROVIDER_REFRESHES_PER_HOUR
            &&& 1 <= v.7 <= v.6
            &&& v.7 == v.8.len()
            &&& distinct(v.8)
            &&& forall|i: int| 0 <= i < v.8.len() ==> canonical_uuid(#[trigger] v.8[i])
            &&& expires - started == quota_ttl_nanos()
            &&& 1 <= v.9 <= REFRESH_QUOTA_TTL_SECONDS
        },
        _ => false,
    }
}

/// What a quota operation needs: a hashed identity, a canonical operation id,
/// and a limit between 1 and the hourly maximum.
pub open spec fn quota_inputs_ok(identity: Seq<char>, operation: Seq<char>, limit: u32) -> bool {
    valid_hash(encode_utf8(identity)) && canonical_uuid(operation) && 1 <= limit <= MAX_PROVIDER_REFRESHES_PER_HOUR
}

/// The fresh quota window of an operation at `now`.
pub open spec fn fresh_quota(identity: Seq<char>, operation: Seq<char>, limit: u32, now: int) -> QuotaView {
    (
        REFRESH_QUOTA_ID_PREFIX@ + identity,
        REFRESH_QUOTA_DOCUMENT_TYPE@,
        PRICING_CACHE_PARTITION@,
        identity,
        rfc3339_text(now),
        rfc3339_text(now + quota_ttl_nanos()),
        limit,
        1,
        seq![operation],
        REFRESH_QUOTA_TTL_SECONDS,
    )
}

/// Whole seconds, rounded up, until `expires`, at most an hour; 0 once it has passed.
pub open spec fn spec_remaining_seconds(expires: int, now: int) -> int {
    let remaining = expires - now;
    if remaining <= 0 {
        0
    } else {
        let rounded = (remaining + NANOS_PER_SECOND - 1) / (NANOS_PER_SECOND as int);
        if rounded <= REFRESH_QUOTA_TTL_SECONDS {
            rounded
        } else {
            REFRESH_QUOTA_TTL_SECONDS as int
        }
    }
}

pub enum QuotaMutationView {
    Allowed,
    Limited(u64),
    Replace(QuotaView),
}

pub open spec fn mutation_view(m: RefreshQuotaMutation) -> QuotaMutationView {
    match m {
        RefreshQuotaMutation::Allowed => QuotaMutationView::Allowed,
        RefreshQuotaMutation::Limited(s) => QuotaMutationView::Limited(s),
        RefreshQuotaMutation::Replace(d) => QuotaMutationView::Replace(d@),
    }
}

/// What consuming an operation does to a valid quota at `now` (for valid
/// inputs of the quota's identity): an operation already counted is allowed
/// again; an expired window starts afresh (`None` when `now` has no RFC 3339
/// rendering); a window that reached the smaller of the two limits is limited
/// until it expires; otherwise the operation is added.
pub open spec fn spec_consume(v: QuotaView, identity: Seq<char>, operation: Seq<char>, limit: u32, now: int) -> Option<
    QuotaMutationView,
> {
    let expires = utc_instant(v.5).unwrap();
    if v.8.contains(operation) {
        Some(QuotaMutationView::Allowed)
    } else if expires <= now {
        if rfc3339_renderable(now) {
            Some(QuotaMutationView::Replace(fresh_quota(identity, operation, limit, now)))
        } else {
            None
        }
    } else if v.7 >= (if v.6 <= limit { v.6 } else { limit }) {
        Some(QuotaMutationView::Limited(spec_remaining_seconds(expires, now) as u64))
    } else {
        Some(
            QuotaMutationView::Replace(
                (
                    v.0,
                    v.1,
                    v.2,
                    v.3,
                    v.4,
                    v.5,
                    v.6,
                    (v.7 + 1) as u32,
                    v.8.push(operation),
                    spec_remaining_seconds(expires, now) as i32,
                ),
            ),
        )
    }
}

fn quota_id(identity_sha256: &str) -> (r: String)
    ensures
        r@ == REFRESH_QUOTA_ID_PREFIX@ + identity_sha256@,
{
    join_text(REFRESH_QUOTA_ID_PREFIX, identity_sha256)
}

fn validate_quota_inputs(identity_sha256: &str, operation_token: &str, limit: u32) -> (r: Result<
    (),
    PricingCacheDocumentError,
>)
    ensures
        r is Ok <==> quota_inputs_ok(identity_sha256@, operation_token@, limit),
        r is Err ==> r == Err::<(), PricingCacheDocumentError>(PricingCacheDocumentError::EnvelopeMismatch),
{
    if is_valid_hash(identity_sha256) && is_canonical_uuid(operation_token) && 1 <= limit
        && limit <= MAX_PROVIDER_REFRESHES_PER_HOUR {
        Ok(())
    } else {
        Err(PricingCacheDocumentError::EnvelopeMismatch)
    }
}

/// Whole seconds, rounded up, until `expires_at`, at most an hour; 0 once it has passed.
pub fn remaining_seconds(expires_at: i128, now: i128) -> (r: u64)
    requires
        valid_instant(expires_at as int),
        valid_instant(now as int),
    ensures
        r == spec_remaining_seconds(expires_at as int, now as int),
{
    let remaining = expires_at - now;
    if remaining <= 0 {
        return 0;
    }
    let whole = remaining / NANOS_PER_SECOND;
    let rounded = if remaining > whole * NANOS_PER_SECOND { whole + 1 } else { whole };
    assert(rounded == (remaining + NANOS_PER_SECOND - 1) / (NANOS_PER_SECOND as int)) by (nonlinear_arith)
        requires
            remaining > 0,
            whole == remaining / NANOS_PER_SECOND,
            rounded == (if remaining > whole * NANOS_PER_SECOND { whole + 1 } else { whole as int }),
            NANOS_PER_SECOND == 1_000_000_000,
    ;
    if rounded <= REFRESH_QUOTA_TTL_SECONDS as i128 {
        rounded as u64
    } else {
        REFRESH_QUOTA_TTL_SECONDS as u64
    }
}

fn contains_text(values: &Vec<String>, value: &str) -> (r: bool)
    ensures
        r == texts(values@).contains(value@),
{
    let mut i: usize = 0;
    while i < values.len()
        invariant
            i <= values@.len(),
            forall|j: int| 0 <= j < i ==> values@[j]@ != value@,
        decreases values@.len() - i,
    {
        if text_equals(values[i].as_str(), value) {
            assert(texts(values@)[i as int] == value@);
            return true;
        }
        i = i + 1;
    }
    proof {
        if texts(values@).contains(value@) {
            let k = choose|k: int| 0 <= k < texts(values@).len() && texts(values@)[k] == value@;
            assert(values@[k]@ == value@);
        }
    }
    false
}

/// Whether the operation ids are distinct canonical UUIDs.
fn valid_operations(values: &Vec<String>) -> (r: bool)
    ensures
        r == (distinct(texts(values@)) && forall|i: int|
            0 <= i < values@.len() ==> canonical_uuid(#[trigger] texts(values@)[i])),
{
    let ghost t = texts(values@);
    let mut i: usize = 0;
    while i < values.len()
        invariant
            i <= values@.len(),
            t == texts(values@),
            t.len() == values@.len(),
            forall|a: int, b: int| 0 <= a < b < i ==> t[a] != t[b],
            forall|a: int| 0 <= a < i ==> canonical_uuid(#[trigger] t[a]),
        decreases values@.len() - i,
    {
        if !is_canonical_uuid(values[i].as_str()) {
            assert(t[i as int] == values@[i as int]@);
            return false;
        }
        let mut j: usize = 0;
        while j < i
            invariant
                i < values@.len(),
                j <= i,
                t == texts(values@),
                t.len() == values@.len(),
                forall|b: int| 0 <= b < j ==> t[b] != t[i as int],
            decreases i - j,
        {
            if text_equals(values[j].as_str(), values[i].as_str()) {
                assert(t[j as int] == t[i as int]);
                return false;
            }
            j = j + 1;
        }
        assert(t[i as int] == values@[i as int]@);
        i = i + 1;
    }
    true
}

impl RefreshQuotaDocument {
    /// A fresh hourly window for an identity, opened by `operation_token` at `now`.
    pub fn new(identity_sha256: &str, operation_token: &str, limit: u32, now: i128) -> (r: Result<
        RefreshQuotaDocument,
        PricingCacheDocumentError,
    >)
        requires
            valid_instant(now as int),
            now + quota_ttl_nanos() <= max_instant(),
        ensures
            r is Ok <==> (quota_inputs_ok(identity_sha256@, operation_token@, limit) && rfc3339_renderable(now as int)),
            r is Err ==> r == Err::<RefreshQuotaDocument, PricingCacheDocumentError>(
                PricingCacheDocumentError::EnvelopeMismatch,
            ),
            r matches Ok(d) ==> d@ == fresh_quota(identity_sha256@, operation_token@, limit, now as int) && quota_valid(d@),
    {
        match validate_quota_inputs(identity_sha256, operation_token, limit) {
            Ok(()) => {},
            Err(e) => {
                return Err(e);
            },
        }
        let window_started_at = match format_timestamp(now) {
            Ok(t) => t,
            Err(e) => {
                return Err(e);
            },
        };
        let expires_at = match format_timestamp(now + (REFRESH_QUOTA_TTL_SECONDS as i128) * NANOS_PER_SECOND) {
            Ok(t) => t,
            Err(e) => {
                return Err(e);
            },
        };
        let mut operation_tokens: Vec<String> = Vec::new();
        operation_tokens.push(operation_token.to_owned());
        let document = RefreshQuotaDocument {
            id: quota_id(identity_sha256),
            document_type: REFRESH_QUOTA_DOCUMENT_TYPE.to_owned(),
            cache_partition: PRICING_CACHE_PARTITION.to_owned(),
            identity_sha256: identity_sha256.to_owned(),
            window_started_at,
            expires_at,
            limit,
            count: 1,
            operation_tokens,
            ttl: REFRESH_QUOTA_TTL_SECONDS,
        };
        assert(texts(document.operation_tokens@) =~= seq![operation_token@]);
        match document.validate() {
            Ok(()) => Ok(document),
            Err(e) => Err(e),
        }
    }

    /// Accepts only a well-formed quota.
    pub fn validate(&self) -> (r: Result<(), PricingCacheDocumentError>)
        ensures
            r is Ok <==> quota_valid(self@),
            r is Err ==> r == Err::<(), PricingCacheDocumentError>(PricingCacheDocumentError::EnvelopeMismatch),
    {
        let window_started_at = match parse_utc(self.window_started_at.as_str()) {
            Some(t) => t,
            None => {
                return Err(PricingCacheDocumentError::EnvelopeMismatch);
            },
        };
        let expires_at = match parse_utc(self.expires_at.as_str()) {
            Some(t) => t,
            None => {
                return Err(PricingCacheDocumentError::EnvelopeMismatch);
            },
        };
        let expected_id = quota_id(self.identity_sha256.as_str());
        if !is_valid_hash(self.identity_sha256.as_str()) || !text_equals(self.id.as_str(), expected_id.as_str())
            || !text_equals(self.document_type.as_str(), REFRESH_QUOTA_DOCUMENT_TYPE)
            || !text_equals(self.cache_partition.as_str(), PRICING_CACHE_PARTITION) || self.limit == 0
            || self.limit > MAX_PROVIDER_REFRESHES_PER_HOUR || self.count == 0
            || self.count as usize != self.operation_tokens.len() || self.count > self.limit
            || !valid_operations(&self.operation_tokens)
            || expires_at - window_started_at != (REFRESH_QUOTA_TTL_SECONDS as i128) * NANOS_PER_SECOND
            || !(1 <= self.ttl && self.ttl <= REFRESH_QUOTA_TTL_SECONDS) {
            return Err(PricingCacheDocumentError::EnvelopeMismatch);
        }
        Ok(())
    }

    /// Counts `operation_token` against the quota at `now`: an operation already
    /// counted is allowed again; an expired window starts afresh; a full window
    /// is limited until it expires; otherwise the operation is added.
    pub fn consume(&self, identity_sha256: &str, operation_token: &str, limit: u32, now: i128) -> (r: Result<
        RefreshQuotaMutation,
        PricingCacheDocumentError,
    >)
        requires
            valid_instant(now as int),
            now + quota_ttl_nanos() <= max_instant(),
        ensures
            r is Err ==> r == Err::<RefreshQuotaMutation, PricingCacheDocumentError>(
                PricingCacheDocumentError::EnvelopeMismatch,
            ),
            !quota_valid(self@) || !quota_inputs_ok(identity_sha256@, operation_token@, limit) || self.identity_sha256@
                != identity_sha256@ ==> r is Err,
            quota_valid(self@) && quota_inputs_ok(identity_sha256@, operation_token@, limit) && self.identity_sha256@
                == identity_sha256@ ==> match spec_consume(self@, identity_sha256@, operation_token@, limit, now as int) {
                Some(m) => r matches Ok(x) && mutation_view(x) == m,
                None => r is Err,
            },
            r matches Ok(RefreshQuotaMutation::Replace(d)) ==> quota_valid(d@),
    {
        match self.validate() {
            Ok(()) => {},
            Err(e) => {
                return Err(e);
            },
        }
        match validate_quota_inputs(identity_sha256, operation_token, limit) {
            Ok(()) => {},
            Err(e) => {
                return Err(e);
            },
        }
        if !text_equals(self.identity_sha256.as_str(), identity_sha256) {
            return Err(PricingCacheDocumentError::EnvelopeMismatch);
        }
        if contains_text(&self.operation_tokens, operation_token) {
            return Ok(RefreshQuotaMutation::Allowed);
        }
        let expires_at = parse_utc(self.expires_at.as_str()).unwrap();
        if expires_at <= now {
            return match RefreshQuotaDocument::new(identity_sha256, operation_token, limit, now) {
                Ok(d) => Ok(RefreshQuotaMutation::Replace(d)),
                Err(e) => Err(e),
            };
        }
        let retry_after = remaining_seconds(expires_at, now);
        let effective_limit = if self.limit <= limit { self.limit } else { limit };
        if self.count >= effective_limit {
            return Ok(RefreshQuotaMutation::Limited(retry_after));
        }
        let mut operation_tokens = self.operation_tokens.clone();
        let ghost before = operation_tokens@;
        operation_tokens.push(operation_token.to_owned());
        assert(texts(operation_tokens@) =~= texts(before).push(operation_token@));
        let updated = RefreshQuotaDocument {
            id: self.id.clone(),
            document_type: self.document_type.clone(),
            cache_partition: self.cache_partition.clone(),
            identity_sha256: self.identity_sha256.clone(),
            window_started_at: self.window_started_at.clone(),
            expires_at: self.expires_at.clone(),
            limit: self.limit,
            count: self.count + 1,
            operation_tokens,
            ttl: retry_after as i32,
        };
        match updated.validate() {
            Ok(()) => Ok(RefreshQuotaMutation::Replace(updated)),
            Err(e) => Err(e),
        }
    }
}

// ---------------------------------------------------------------------------
// Laws.
// ---------------------------------------------------------------------------

/// A completed refresh is reported to exactly the requests that started no
/// later than its completion, whatever the time of asking.
pub proof fn lemma_completed_lease_reports_outcome(
    v: LeaseView,
    outcome: RefreshView,
    completed_at: int,
    started: int,
    now: int,
)
    requires
        outcome is Succeeded || outcome is Failed,
        v.8 == status_for(outcome),
        v.7 matches Some(c) && utc_instant(c) == Some(completed_at),
    ensures
        lease_decision(v, started, now) == (if completed_at >= started { Some(outcome) } else { None::<RefreshView> }),
{
}

/// A lease completed with an outcome holds that outcome, so publishing the same
/// outcome again by the owner finds it already there.
pub proof fn lemma_completed_lease_holds_outcome(v: LeaseView, outcome: RefreshView)
    requires
        outcome is Succeeded || outcome is Failed,
    ensures
        holds_outcome(
            (v.0, v.1, v.2, v.3, v.4, v.5, v.6, v.7, status_for(outcome), v.9),
            outcome,
        ),
{
}

/// An in-progress lease keeps requests waiting exactly until it expires.
pub proof fn lemma_active_lease_is_pending(v: LeaseView, started: int, now: int)
    requires
        v.8 is InProgress,
    ensures
        lease_decision(v, started, now) == (if now < lease_expires(v) { Some(RefreshView::Pending) } else {
            None::<RefreshView>
        }),
{
}

/// Consuming is idempotent: once an operation is counted, consuming it again in
/// the resulting window is allowed and changes nothing.
pub proof fn lemma_quota_replay_is_allowed(
    v: QuotaView,
    identity: Seq<char>,
    operation: Seq<char>,
    limit: u32,
    now: int,
    later: int,
    later_limit: u32,
)
    requires
        spec_consume(v, identity, operation, limit, now) matches Some(QuotaMutationView::Replace(w)),
    ensures
        spec_consume(v, identity, operation, limit, now) matches Some(QuotaMutationView::Replace(w)) ==> spec_consume(
            w,
            identity,
            operation,
            later_limit,
            later,
        ) == Some(QuotaMutationView::Allowed),
{
    let m = spec_consume(v, identity, operation, limit, now);
    if let Some(QuotaMutationView::Replace(w)) = m {
        if v.8.contains(operation) {
        } else if utc_instant(v.5).unwrap() <= now {
            assert(w.8[0] == operation);
        } else {
            assert(w.8[w.8.len() - 1] == operation);
        }
    }
}

/// A window never counts more operations than its limit, and a new operation
/// is counted only while the window has room under both limits.
pub proof fn lemma_quota_is_bounded(
    v: QuotaView,
    identity: Seq<char>,
    operation: Seq<char>,
    limit: u32,
    now: int,
)
    requires
        quota_valid(v),
        quota_inputs_ok(identity, operation, limit),
    ensures
        spec_consume(v, identity, operation, limit, now) matches Some(QuotaMutationView::Replace(w)) ==> w.7 <= w.6
            && w.7 <= limit,
{
}

} // verus!
