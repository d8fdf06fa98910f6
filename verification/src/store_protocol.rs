//! The conditional-write protocols the document store adapters follow for the
//! pricing cache. Each protocol is a state and a step: the adapter performs the
//! action a step asks for (a read, a create, a replace), hands back what the
//! store answered, and the step decides what comes next, until it finishes.
use vstd::prelude::*;

use crate::cosmos::{map_snapshot_cosmos_error, parse_utc_timestamp, retrieved_later, StoreStatus};
use crate::ids::canonical_uuid;
use crate::instant::{max_instant, rfc3339_renderable, rfc3339_text, utc_instant, valid_instant};
use crate::pricing::{
    content_matches, RefreshLeaseDecision, RefreshLeaseOutcome, RefreshQuotaDecision, RefreshQuotaError, RefreshView,
    SnapshotRepositoryError,
};
use crate::pricing_cache::{
    azure_envelope_ok, fresh_quota, AzureSnapshotDocument, holds_outcome, lease_decision, lease_expires, lease_ttl_nanos, lease_valid, quota_inputs_ok,
    quota_ttl_nanos, quota_valid, status_for, valid_snapshot_id,
    spec_consume, valid_hash, LeaseStatusView, LeaseView, QuotaMutationView, QuotaView, RefreshLeaseDocument,
    RefreshQuotaDocument, RefreshQuotaMutation, PRICING_CACHE_PARTITION, REFRESH_LEASE_DOCUMENT_TYPE,
    REFRESH_LEASE_ID_PREFIX, REFRESH_LEASE_TTL_SECONDS, REFRESH_QUOTA_ID_PREFIX,
};
use crate::text::{join_text, text_equals};
use vstd::utf8::encode_utf8;

verus! {

/// How many rounds a conditional write gets before it gives up.
pub const CONDITIONAL_WRITE_ATTEMPTS: usize = 5;

/// The HTTP status of a conflicting create.
pub const STATUS_CONFLICT: u16 = 409;

/// The HTTP status of a write whose entity-tag precondition failed.
pub const STATUS_PRECONDITION_FAILED: u16 = 412;

// ---------------------------------------------------------------------------
// Refresh quotas.
// ---------------------------------------------------------------------------

/// What the quota protocol asks the store to do next.
#[derive(Debug)]
pub enum QuotaAction {
    /// Read the quota item with this id.
    Read(String),
    /// Create this quota item, only where none exists.
    Create(RefreshQuotaDocument),
    /// Replace the quota item with this one, only while it has this entity tag.
    Replace(RefreshQuotaDocument, String),
    /// The protocol is over, with this answer.
    Finish(Result<RefreshQuotaDecision, RefreshQuotaError>),
}

/// A quota action as plain values.
pub enum QuotaActionView {
    Read(Seq<char>),
    Create(QuotaView),
    Replace(QuotaView, Seq<char>),
    Finish(Result<RefreshQuotaDecision, RefreshQuotaError>),
}

impl View for QuotaAction {
    type V = QuotaActionView;

    open spec fn view(&self) -> QuotaActionView {
        match self {
            QuotaAction::Read(id) => QuotaActionView::Read(id@),
            QuotaAction::Create(d) => QuotaActionView::Create(d@),
            QuotaAction::Replace(d, etag) => QuotaActionView::Replace(d@, etag@),
            QuotaAction::Finish(r) => QuotaActionView::Finish(*r),
        }
    }
}

/// How a read of a quota item came back, as plain values: the item (or the
/// status of the error that decoding it raised) and the response's entity tag
/// (empty where it had none); or the status of a failed read.
pub type QuotaReadView = Result<(Result<QuotaView, StoreStatus>, Seq<char>), StoreStatus>;

pub open spec fn quota_read_view(reply: Result<(Result<RefreshQuotaDocument, StoreStatus>, String), StoreStatus>) -> QuotaReadView {
    match reply {
        Ok((Ok(d), etag)) => Ok((Ok(d@), etag@)),
        Ok((Err(status), etag)) => Ok((Err(status), etag@)),
        Err(status) => Err(status),
    }
}

/// What a quota protocol is about: the hashed identity, the operation, the
/// limit, and the id of the quota item.
pub type QuotaRequest = (Seq<char>, Seq<char>, u32, Seq<char>);

/// Counting one operation against an identity's hourly refresh quota with
/// conditional writes. Each round reads the quota item; a missing item is
/// created, an existing one is consumed and, where that changes it, replaced
/// while its entity tag is unchanged. A round that loses a race starts the next
/// one; after the last round the quota is unavailable.
pub struct QuotaProtocol {
    identity_sha256: String,
    operation_token: String,
    limit: u32,
    quota_id: String,
    rounds: usize,
}

/// The answer that ends a quota protocol.
pub open spec fn quota_finish(r: Result<RefreshQuotaDecision, RefreshQuotaError>) -> QuotaActionView {
    QuotaActionView::Finish(r)
}

/// Starting the next round, or giving up after the last.
pub open spec fn quota_next_round(q: QuotaRequest, rounds: nat) -> (nat, QuotaActionView) {
    if rounds < CONDITIONAL_WRITE_ATTEMPTS {
        (rounds + 1, QuotaActionView::Read(q.3))
    } else {
        (rounds, quota_finish(Err(RefreshQuotaError::Unavailable)))
    }
}

/// Creating the quota item where none was found: a fresh window opened at `now`.
pub open spec fn quota_create(q: QuotaRequest, rounds: nat, now: int) -> (nat, QuotaActionView) {
    if quota_inputs_ok(q.0, q.1, q.2) && rfc3339_renderable(now) {
        (rounds, QuotaActionView::Create(fresh_quota(q.0, q.1, q.2, now)))
    } else {
        (rounds, quota_finish(Err(RefreshQuotaError::InvalidData)))
    }
}

/// What the protocol does with a read of the quota item at `now`: a missing
/// item (404) is created; another failed read loses the round; a response
/// without an entity tag, an item that does not decode or does not validate is
/// invalid data; otherwise the operation is consumed against it: an operation
/// already counted is allowed, a full window is limited, and a changed quota is
/// written back under the entity tag that was read.
pub open spec fn quota_after_read(q: QuotaRequest, rounds: nat, reply: QuotaReadView, now: int) -> (
    nat,
    QuotaActionView,
) {
    match reply {
        Err(status) => if status.spec_not_found() {
            quota_create(q, rounds, now)
        } else {
            quota_next_round(q, rounds)
        },
        Ok((item, etag)) => if etag.len() == 0 {
            (rounds, quota_finish(Err(RefreshQuotaError::InvalidData)))
        } else {
            match item {
                Err(_) => (rounds, quota_finish(Err(RefreshQuotaError::InvalidData))),
                Ok(d) => if !quota_valid(d) || !quota_inputs_ok(q.0, q.1, q.2) || d.3 != q.0 {
                    (rounds, quota_finish(Err(RefreshQuotaError::InvalidData)))
                } else {
                    match spec_consume(d, q.0, q.1, q.2, now) {
                        None => (rounds, quota_finish(Err(RefreshQuotaError::InvalidData))),
                        Some(QuotaMutationView::Allowed) => (rounds, quota_finish(Ok(RefreshQuotaDecision::Allowed))),
                        Some(QuotaMutationView::Limited(s)) => (
                            rounds,
                            quota_finish(Ok(RefreshQuotaDecision::Limited { retry_after_seconds: s })),
                        ),
                        Some(QuotaMutationView::Replace(u)) => (rounds, QuotaActionView::Replace(u, etag)),
                    }
                }
            }
        },
    }
}

/// What the protocol does with the answer to its create or replace: a written
/// quota allows the operation; any failure loses the round.
pub open spec fn quota_after_write(q: QuotaRequest, rounds: nat, reply: Result<(), StoreStatus>) -> (nat, QuotaActionView) {
    match reply {
        Ok(()) => (rounds, quota_finish(Ok(RefreshQuotaDecision::Allowed))),
        Err(_) => quota_next_round(q, rounds),
    }
}

impl QuotaProtocol {
    #[verifier::type_invariant]
    spec fn wf(self) -> bool {
        self.rounds <= CONDITIONAL_WRITE_ATTEMPTS
    }

    pub closed spec fn request(self) -> QuotaRequest {
        (self.identity_sha256@, self.operation_token@, self.limit, self.quota_id@)
    }

    pub closed spec fn rounds(self) -> nat {
        self.rounds as nat
    }

    /// Starts counting `operation_token` against the identity's quota at `now`:
    /// the first round reads the quota item. Inputs that cannot open a quota
    /// window finish at once as invalid data.
    pub fn start(identity_sha256: &str, operation_token: &str, limit: u32, now: i128) -> (r: (
        QuotaProtocol,
        QuotaAction,
    ))
        requires
            valid_instant(now as int),
            now + quota_ttl_nanos() <= max_instant(),
        ensures
            r.0.request() == (
                identity_sha256@,
                operation_token@,
                limit,
                REFRESH_QUOTA_ID_PREFIX@ + identity_sha256@,
            ),
            r.0.rounds() <= CONDITIONAL_WRITE_ATTEMPTS,
            quota_inputs_ok(identity_sha256@, operation_token@, limit) && rfc3339_renderable(now as int) ==> r.0.rounds()
                == 1 && r.1@ == QuotaActionView::Read(REFRESH_QUOTA_ID_PREFIX@ + identity_sha256@),
            !(quota_inputs_ok(identity_sha256@, operation_token@, limit) && rfc3339_renderable(now as int)) ==> r.1@
                == quota_finish(Err(RefreshQuotaError::InvalidData)),
    {
        let quota_id = join_text(REFRESH_QUOTA_ID_PREFIX, identity_sha256);
        match RefreshQuotaDocument::new(identity_sha256, operation_token, limit, now) {
            Ok(_) => {
                let action = QuotaAction::Read(quota_id.clone());
                let protocol = QuotaProtocol {
                    identity_sha256: identity_sha256.to_owned(),
                    operation_token: operation_token.to_owned(),
                    limit,
                    quota_id,
                    rounds: 1,
                };
                (protocol, action)
            },
            Err(_) => {
                let protocol = QuotaProtocol {
                    identity_sha256: identity_sha256.to_owned(),
                    operation_token: operation_token.to_owned(),
                    limit,
                    quota_id,
                    rounds: CONDITIONAL_WRITE_ATTEMPTS,
                };
                (protocol, QuotaAction::Finish(Err(RefreshQuotaError::InvalidData)))
            },
        }
    }

    fn next_round(&mut self) -> (r: QuotaAction)
        ensures
            final(self).request() == old(self).request(),
            (final(self).rounds(), r@) == quota_next_round(old(self).request(), old(self).rounds()),
    {
        proof {
            use_type_invariant(&*self);
        }
        if self.rounds < CONDITIONAL_WRITE_ATTEMPTS {
            self.rounds = self.rounds + 1;
            QuotaAction::Read(self.quota_id.clone())
        } else {
            QuotaAction::Finish(Err(RefreshQuotaError::Unavailable))
        }
    }

    /// The next step after a read of the quota item, at `now`.
    pub fn after_read(&mut self, reply: Result<(Result<RefreshQuotaDocument, StoreStatus>, String), StoreStatus>, now: i128) -> (r:
        QuotaAction)
        requires
            valid_instant(now as int),
            now + quota_ttl_nanos() <= max_instant(),
        ensures
            final(self).request() == old(self).request(),
            (final(self).rounds(), r@) == quota_after_read(
                old(self).request(),
                old(self).rounds(),
                quota_read_view(reply),
                now as int,
            ),
    {
        match reply {
            Err(status) => {
                if status.is_not_found() {
                    match RefreshQuotaDocument::new(
                        self.identity_sha256.as_str(),
                        self.operation_token.as_str(),
                        self.limit,
                        now,
                    ) {
                        Ok(candidate) => QuotaAction::Create(candidate),
                        Err(_) => QuotaAction::Finish(Err(RefreshQuotaError::InvalidData)),
                    }
                } else {
                    self.next_round()
                }
            },
            Ok((item, etag)) => {
                if etag.as_str().unicode_len() == 0 {
                    return QuotaAction::Finish(Err(RefreshQuotaError::InvalidData));
                }
                let current = match item {
                    Ok(d) => d,
                    Err(_) => {
                        return QuotaAction::Finish(Err(RefreshQuotaError::InvalidData));
                    },
                };
                match current.validate() {
                    Ok(()) => {},
                    Err(_) => {
                        return QuotaAction::Finish(Err(RefreshQuotaError::InvalidData));
                    },
                }
                match current.consume(self.identity_sha256.as_str(), self.operation_token.as_str(), self.limit, now) {
                    Err(_) => QuotaAction::Finish(Err(RefreshQuotaError::InvalidData)),
                    Ok(RefreshQuotaMutation::Allowed) => QuotaAction::Finish(Ok(RefreshQuotaDecision::Allowed)),
                    Ok(RefreshQuotaMutation::Limited(s)) => QuotaAction::Finish(
                        Ok(RefreshQuotaDecision::Limited { retry_after_seconds: s }),
                    ),
                    Ok(RefreshQuotaMutation::Replace(updated)) => {
                        match updated.validate() {
                            Ok(()) => QuotaAction::Replace(updated, etag),
                            Err(_) => QuotaAction::Finish(Err(RefreshQuotaError::InvalidData)),
                        }
                    },
                }
            },
        }
    }

    /// The next step after the store answered a create or a replace.
    pub fn after_write(&mut self, reply: Result<(), StoreStatus>) -> (r: QuotaAction)
        ensures
            final(self).request() == old(self).request(),
            (final(self).rounds(), r@) == quota_after_write(old(self).request(), old(self).rounds(), reply),
    {
        match reply {
            Ok(()) => QuotaAction::Finish(Ok(RefreshQuotaDecision::Allowed)),
            Err(_) => self.next_round(),
        }
    }
}

// ---------------------------------------------------------------------------
// Refresh lease claims.
// ---------------------------------------------------------------------------

/// A failed pricing-cache store call by its status: too large (413), else unavailable.
pub open spec fn snapshot_store_error(status: StoreStatus) -> SnapshotRepositoryError {
    if status.code == 413 {
        SnapshotRepositoryError::PayloadTooLarge
    } else {
        SnapshotRepositoryError::Unavailable
    }
}

/// What the claim protocol asks the store to do next.
#[derive(Debug)]
pub enum ClaimAction {
    /// Create this lease item, failing where one exists.
    Create(RefreshLeaseDocument),
    /// Read the lease item with this id.
    Read(String),
    /// Replace the lease item with this one, only while it has this entity tag.
    Replace(RefreshLeaseDocument, String),
    /// The protocol is over, with this answer.
    Finish(Result<RefreshLeaseDecision, SnapshotRepositoryError>),
}

/// A claim action as plain values.
pub enum ClaimActionView {
    Create(LeaseView),
    Read(Seq<char>),
    Replace(LeaseView, Seq<char>),
    Finish(Result<RefreshView, SnapshotRepositoryError>),
}

impl View for ClaimAction {
    type V = ClaimActionView;

    open spec fn view(&self) -> ClaimActionView {
        match self {
            ClaimAction::Create(d) => ClaimActionView::Create(d@),
            ClaimAction::Read(id) => ClaimActionView::Read(id@),
            ClaimAction::Replace(d, etag) => ClaimActionView::Replace(d@, etag@),
            ClaimAction::Finish(Ok(d)) => ClaimActionView::Finish(Ok(d@)),
            ClaimAction::Finish(Err(e)) => ClaimActionView::Finish(Err(*e)),
        }
    }
}

/// How a read of a lease item came back, as plain values: the item (or the
/// status of the error that decoding it raised) and the response's entity tag
/// (empty where it had none); or the status of a failed read.
pub type LeaseReadView = Result<(Result<LeaseView, StoreStatus>, Seq<char>), StoreStatus>;

pub open spec fn lease_read_view(reply: Result<(Result<RefreshLeaseDocument, StoreStatus>, String), StoreStatus>) -> LeaseReadView {
    match reply {
        Ok((Ok(d), etag)) => Ok((Ok(d@), etag@)),
        Ok((Err(status), etag)) => Ok((Err(status), etag@)),
        Err(status) => Err(status),
    }
}

/// A claim as plain values: the cache key and owner, when the request started,
/// the rounds begun, the lease offered in the current round, and the time the
/// round began.
pub struct ClaimView {
    pub cache_key: Seq<char>,
    pub owner: Seq<char>,
    pub started: int,
    pub rounds: nat,
    pub candidate: Option<LeaseView>,
    pub round_now: int,
}

/// The lease an owner takes on a cache key at `now`, where the key, the owner
/// and the time allow one.
pub open spec fn lease_candidate(cache_key: Seq<char>, owner: Seq<char>, now: int) -> Option<LeaseView> {
    if valid_hash(encode_utf8(cache_key)) && canonical_uuid(owner) && rfc3339_renderable(now) {
        Some(
            (
                REFRESH_LEASE_ID_PREFIX@ + cache_key,
                REFRESH_LEASE_DOCUMENT_TYPE@,
                PRICING_CACHE_PARTITION@,
                cache_key,
                owner,
                rfc3339_text(now),
                rfc3339_text(now + lease_ttl_nanos()),
                None,
                LeaseStatusView::InProgress,
                REFRESH_LEASE_TTL_SECONDS,
            ),
        )
    } else {
        None
    }
}

pub open spec fn claim_finish(r: Result<RefreshView, SnapshotRepositoryError>) -> ClaimActionView {
    ClaimActionView::Finish(r)
}

/// A round begun at `now` offers a fresh lease by creating it; inputs that make
/// no lease are invalid data.
pub open spec fn claim_round(c: ClaimView, now: int) -> (ClaimView, ClaimActionView) {
    match lease_candidate(c.cache_key, c.owner, now) {
        Some(l) => (ClaimView { candidate: Some(l), round_now: now, ..c }, ClaimActionView::Create(l)),
        None => (
            ClaimView { candidate: None, round_now: now, ..c },
            claim_finish(Err(SnapshotRepositoryError::InvalidData)),
        ),
    }
}

/// Starting the next round at `now`, or, after the last, telling the caller the
/// refresh is pending elsewhere.
pub open spec fn claim_next_round(c: ClaimView, now: int) -> (ClaimView, ClaimActionView) {
    if c.rounds < CONDITIONAL_WRITE_ATTEMPTS {
        claim_round(ClaimView { rounds: c.rounds + 1, ..c }, now)
    } else {
        (c, claim_finish(Ok(RefreshView::Pending)))
    }
}

/// Starting a claim at `now` for a request that started at `started_at`, which
/// must be RFC 3339 UTC text.
pub open spec fn claim_start(cache_key: Seq<char>, owner: Seq<char>, started_at: Seq<char>, now: int) -> (
    ClaimView,
    ClaimActionView,
) {
    match utc_instant(started_at) {
        Some(t) => claim_round(
            ClaimView { cache_key, owner, started: t, rounds: 1, candidate: None, round_now: now },
            now,
        ),
        None => (
            ClaimView {
                cache_key,
                owner,
                started: 0,
                rounds: CONDITIONAL_WRITE_ATTEMPTS as nat,
                candidate: None,
                round_now: now,
            },
            claim_finish(Err(SnapshotRepositoryError::InvalidData)),
        ),
    }
}

/// After the create: a created lease is acquired; a conflict reads the lease
/// that exists; any other failure ends the claim.
pub open spec fn claim_after_create(c: ClaimView, reply: Result<(), StoreStatus>) -> (ClaimView, ClaimActionView) {
    match reply {
        Ok(()) => (c, claim_finish(Ok(RefreshView::Acquired))),
        Err(status) => if status.code == STATUS_CONFLICT {
            match c.candidate {
                Some(l) => (c, ClaimActionView::Read(l.0)),
                None => (c, claim_finish(Err(SnapshotRepositoryError::InvalidData))),
            }
        } else {
            (c, claim_finish(Err(snapshot_store_error(status))))
        },
    }
}

/// After reading the existing lease (a new round, where needed, begins at
/// `now`): a lease gone meanwhile (404) starts the next round; a failed read or
/// an item that does not decode ends the claim; a response without an entity
/// tag or an invalid lease is invalid data. A lease that decides the request
/// (pending, or a refresh completed since the request started) answers it;
/// otherwise the offered lease replaces it under the entity tag that was read.
pub open spec fn claim_after_read(c: ClaimView, reply: LeaseReadView, now: int) -> (ClaimView, ClaimActionView) {
    match reply {
        Err(status) => if status.spec_not_found() {
            claim_next_round(c, now)
        } else {
            (c, claim_finish(Err(snapshot_store_error(status))))
        },
        Ok((item, etag)) => if etag.len() == 0 {
            (c, claim_finish(Err(SnapshotRepositoryError::InvalidData)))
        } else {
            match item {
                Err(status) => (c, claim_finish(Err(snapshot_store_error(status)))),
                Ok(d) => if !lease_valid(d) {
                    (c, claim_finish(Err(SnapshotRepositoryError::InvalidData)))
                } else {
                    match lease_decision(d, c.started, c.round_now) {
                        Some(v) => (c, claim_finish(Ok(v))),
                        None => match c.candidate {
                            Some(l) => (c, ClaimActionView::Replace(l, etag)),
                            None => (c, claim_finish(Err(SnapshotRepositoryError::InvalidData))),
                        },
                    }
                }
            }
        },
    }
}

/// After the replace: a replaced lease is acquired; a lost race (412, or the
/// lease gone, 404) starts the next round at `now`; any other failure ends the claim.
pub open spec fn claim_after_replace(c: ClaimView, reply: Result<(), StoreStatus>, now: int) -> (ClaimView, ClaimActionView) {
    match reply {
        Ok(()) => (c, claim_finish(Ok(RefreshView::Acquired))),
        Err(status) => if status.code == STATUS_PRECONDITION_FAILED || status.spec_not_found() {
            claim_next_round(c, now)
        } else {
            (c, claim_finish(Err(snapshot_store_error(status))))
        },
    }
}

/// Claiming the refresh of a cache entry with conditional writes: each round
/// offers a fresh lease by creating it; where one exists, the existing lease
/// either answers the request or is taken over under its entity tag. After the
/// last round the refresh is pending elsewhere.
pub struct LeaseClaim {
    cache_key_sha256: String,
    owner_token: String,
    request_started_at: i128,
    rounds: usize,
    candidate: Option<RefreshLeaseDocument>,
    round_now: i128,
}

impl LeaseClaim {
    #[verifier::type_invariant]
    spec fn wf(self) -> bool {
        &&& self.rounds <= CONDITIONAL_WRITE_ATTEMPTS
        &&& self.candidate matches Some(l) ==> lease_valid(l@)
    }

    pub closed spec fn view_of(self) -> ClaimView {
        ClaimView {
            cache_key: self.cache_key_sha256@,
            owner: self.owner_token@,
            started: self.request_started_at as int,
            rounds: self.rounds as nat,
            candidate: match self.candidate {
                Some(l) => Some(l@),
                None => None,
            },
            round_now: self.round_now as int,
        }
    }

    fn open_round(&mut self, now: i128) -> (r: ClaimAction)
        requires
            valid_instant(now as int),
            now + lease_ttl_nanos() <= max_instant(),
        ensures
            (final(self).view_of(), r@) == claim_round(old(self).view_of(), now as int),
    {
        proof {
            use_type_invariant(&*self);
        }
        self.round_now = now;
        match RefreshLeaseDocument::new(self.cache_key_sha256.as_str(), self.owner_token.as_str(), now) {
            Ok(candidate) => {
                let offered = candidate.duplicate();
                self.candidate = Some(candidate);
                ClaimAction::Create(offered)
            },
            Err(_) => {
                self.candidate = None;
                ClaimAction::Finish(Err(SnapshotRepositoryError::InvalidData))
            },
        }
    }

    fn next_round(&mut self, now: i128) -> (r: ClaimAction)
        requires
            valid_instant(now as int),
            now + lease_ttl_nanos() <= max_instant(),
        ensures
            (final(self).view_of(), r@) == claim_next_round(old(self).view_of(), now as int),
    {
        proof {
            use_type_invariant(&*self);
        }
        if self.rounds < CONDITIONAL_WRITE_ATTEMPTS {
            self.rounds = self.rounds + 1;
            self.open_round(now)
        } else {
            ClaimAction::Finish(Ok(RefreshLeaseDecision::Pending))
        }
    }

    /// Starts claiming the refresh of a cache entry for a request that started at
    /// `request_started_at`; the first round begins at `now`.
    pub fn start(cache_key_sha256: &str, owner_token: &str, request_started_at: &str, now: i128) -> (r: (
        LeaseClaim,
        ClaimAction,
    ))
        requires
            valid_instant(now as int),
            now + lease_ttl_nanos() <= max_instant(),
        ensures
            (r.0.view_of(), r.1@) == claim_start(cache_key_sha256@, owner_token@, request_started_at@, now as int),
    {
        match parse_utc_timestamp(request_started_at) {
            Ok(started) => {
                let mut claim = LeaseClaim {
                    cache_key_sha256: cache_key_sha256.to_owned(),
                    owner_token: owner_token.to_owned(),
                    request_started_at: started,
                    rounds: 1,
                    candidate: None,
                    round_now: now,
                };
                let action = claim.open_round(now);
                (claim, action)
            },
            Err(_) => {
                let claim = LeaseClaim {
                    cache_key_sha256: cache_key_sha256.to_owned(),
                    owner_token: owner_token.to_owned(),
                    request_started_at: 0,
                    rounds: CONDITIONAL_WRITE_ATTEMPTS,
                    candidate: None,
                    round_now: now,
                };
                (claim, ClaimAction::Finish(Err(SnapshotRepositoryError::InvalidData)))
            },
        }
    }

    /// The next step after the store answered the create.
    pub fn after_create(&mut self, reply: Result<(), StoreStatus>) -> (r: ClaimAction)
        ensures
            (final(self).view_of(), r@) == claim_after_create(old(self).view_of(), reply),
    {
        match reply {
            Ok(()) => ClaimAction::Finish(Ok(RefreshLeaseDecision::Acquired)),
            Err(status) => {
                if status.code == STATUS_CONFLICT {
                    match &self.candidate {
                        Some(l) => ClaimAction::Read(l.id.clone()),
                        None => ClaimAction::Finish(Err(SnapshotRepositoryError::InvalidData)),
                    }
                } else {
                    ClaimAction::Finish(Err(map_snapshot_cosmos_error(status)))
                }
            },
        }
    }

    /// The next step after a read of the existing lease; a new round begins at `now`.
    pub fn after_read(&mut self, reply: Result<(Result<RefreshLeaseDocument, StoreStatus>, String), StoreStatus>, now: i128) -> (r:
        ClaimAction)
        requires
            valid_instant(now as int),
            now + lease_ttl_nanos() <= max_instant(),
        ensures
            (final(self).view_of(), r@) == claim_after_read(old(self).view_of(), lease_read_view(reply), now as int),
    {
        proof {
            use_type_invariant(&*self);
        }
        match reply {
            Err(status) => {
                if status.is_not_found() {
                    self.next_round(now)
                } else {
                    ClaimAction::Finish(Err(map_snapshot_cosmos_error(status)))
                }
            },
            Ok((item, etag)) => {
                if etag.as_str().unicode_len() == 0 {
                    return ClaimAction::Finish(Err(SnapshotRepositoryError::InvalidData));
                }
                let existing = match item {
                    Ok(d) => d,
                    Err(status) => {
                        return ClaimAction::Finish(Err(map_snapshot_cosmos_error(status)));
                    },
                };
                match existing.decision(self.request_started_at, self.round_now) {
                    Err(_) => ClaimAction::Finish(Err(SnapshotRepositoryError::InvalidData)),
                    Ok(Some(decision)) => ClaimAction::Finish(Ok(decision)),
                    Ok(None) => match &self.candidate {
                        Some(l) => match l.validate() {
                            Ok(()) => ClaimAction::Replace(l.duplicate(), etag),
                            Err(_) => ClaimAction::Finish(Err(SnapshotRepositoryError::InvalidData)),
                        },
                        None => ClaimAction::Finish(Err(SnapshotRepositoryError::InvalidData)),
                    },
                }
            },
        }
    }

    /// The next step after the store answered the replace; a new round begins at `now`.
    pub fn after_replace(&mut self, reply: Result<(), StoreStatus>, now: i128) -> (r: ClaimAction)
        requires
            valid_instant(now as int),
            now + lease_ttl_nanos() <= max_instant(),
        ensures
            (final(self).view_of(), r@) == claim_after_replace(old(self).view_of(), reply, now as int),
    {
        match reply {
            Ok(()) => ClaimAction::Finish(Ok(RefreshLeaseDecision::Acquired)),
            Err(status) => {
                if status.code == STATUS_PRECONDITION_FAILED || status.is_not_found() {
                    self.next_round(now)
                } else {
                    ClaimAction::Finish(Err(map_snapshot_cosmos_error(status)))
                }
            },
        }
    }
}


// ---------------------------------------------------------------------------
// Publishing a refresh outcome.
// ---------------------------------------------------------------------------

/// What the publish protocol asks the store to do next.
#[derive(Debug)]
pub enum PublishAction {
    /// Read the lease item with this id.
    Read(String),
    /// Replace the lease item with this one, only while it has this entity tag.
    Replace(RefreshLeaseDocument, String),
    /// The protocol is over, with this answer.
    Finish(Result<(), SnapshotRepositoryError>),
}

/// A publish action as plain values.
pub enum PublishActionView {
    Read(Seq<char>),
    Replace(LeaseView, Seq<char>),
    Finish(Result<(), SnapshotRepositoryError>),
}

impl View for PublishAction {
    type V = PublishActionView;

    open spec fn view(&self) -> PublishActionView {
        match self {
            PublishAction::Read(id) => PublishActionView::Read(id@),
            PublishAction::Replace(d, etag) => PublishActionView::Replace(d@, etag@),
            PublishAction::Finish(r) => PublishActionView::Finish(*r),
        }
    }
}

/// What a publish is about: the cache key, the owner, the outcome, and the id of
/// the lease item.
pub type PublishRequest = (Seq<char>, Seq<char>, RefreshView, Seq<char>);

/// The owner's in-progress lease completed with `outcome` at `now`, where the
/// lease allows it: the owner's, still in progress and unexpired, with a
/// renderable time, a valid snapshot id for a success, and a valid result.
pub open spec fn lease_completion(v: LeaseView, owner: Seq<char>, outcome: RefreshView, now: int) -> Option<LeaseView> {
    let u = (v.0, v.1, v.2, v.3, v.4, v.5, v.6, Some(rfc3339_text(now)), status_for(outcome), v.9);
    if lease_valid(v) && v.4 == owner && v.8 is InProgress && now < lease_expires(v) && rfc3339_renderable(now) && (
    outcome matches RefreshView::Succeeded(id) ==> valid_snapshot_id(encode_utf8(id))) && lease_valid(u) {
        Some(u)
    } else {
        None
    }
}

pub open spec fn publish_finish(r: Result<(), SnapshotRepositoryError>) -> PublishActionView {
    PublishActionView::Finish(r)
}

/// Reading the lease again in the next round, or giving up after the last.
pub open spec fn publish_next_round(p: PublishRequest, rounds: nat) -> (nat, PublishActionView) {
    if rounds < CONDITIONAL_WRITE_ATTEMPTS {
        (rounds + 1, PublishActionView::Read(p.3))
    } else {
        (rounds, publish_finish(Err(SnapshotRepositoryError::Unavailable)))
    }
}

/// After reading the lease at `now`: a missing lease, or one of another owner,
/// leaves the publish unavailable; a failed read or an item that does not decode
/// ends it; a response without an entity tag or an invalid lease is invalid
/// data. A lease that already holds the outcome is done; otherwise its
/// completion replaces it under the entity tag that was read, and a lease that
/// cannot be completed leaves the publish unavailable.
pub open spec fn publish_after_read(p: PublishRequest, rounds: nat, reply: LeaseReadView, now: int) -> (
    nat,
    PublishActionView,
) {
    match reply {
        Err(status) => if status.spec_not_found() {
            (rounds, publish_finish(Err(SnapshotRepositoryError::Unavailable)))
        } else {
            (rounds, publish_finish(Err(snapshot_store_error(status))))
        },
        Ok((item, etag)) => if etag.len() == 0 {
            (rounds, publish_finish(Err(SnapshotRepositoryError::InvalidData)))
        } else {
            match item {
                Err(status) => (rounds, publish_finish(Err(snapshot_store_error(status)))),
                Ok(d) => if !lease_valid(d) {
                    (rounds, publish_finish(Err(SnapshotRepositoryError::InvalidData)))
                } else if d.4 != p.1 {
                    (rounds, publish_finish(Err(SnapshotRepositoryError::Unavailable)))
                } else if holds_outcome(d, p.2) {
                    (rounds, publish_finish(Ok(())))
                } else {
                    match lease_completion(d, p.1, p.2, now) {
                        Some(u) => (rounds, PublishActionView::Replace(u, etag)),
                        None => (rounds, publish_finish(Err(SnapshotRepositoryError::Unavailable))),
                    }
                }
            }
        },
    }
}

/// After the replace: a written completion is published; a lost race (412, or
/// the lease gone, 404) reads again in the next round; any other failure ends it.
pub open spec fn publish_after_write(p: PublishRequest, rounds: nat, reply: Result<(), StoreStatus>) -> (nat, PublishActionView) {
    match reply {
        Ok(()) => (rounds, publish_finish(Ok(()))),
        Err(status) => if status.code == STATUS_PRECONDITION_FAILED || status.spec_not_found() {
            publish_next_round(p, rounds)
        } else {
            (rounds, publish_finish(Err(snapshot_store_error(status))))
        },
    }
}

/// Publishing how the owner's refresh ended by completing its lease with
/// conditional writes; a lost race reads the lease again, up to the last round.
pub struct LeasePublish {
    cache_key_sha256: String,
    owner_token: String,
    outcome: RefreshLeaseOutcome,
    lease_id: String,
    rounds: usize,
}

impl LeasePublish {
    #[verifier::type_invariant]
    spec fn wf(self) -> bool {
        self.rounds <= CONDITIONAL_WRITE_ATTEMPTS
    }

    pub closed spec fn request(self) -> PublishRequest {
        (self.cache_key_sha256@, self.owner_token@, self.outcome@, self.lease_id@)
    }

    pub closed spec fn rounds(self) -> nat {
        self.rounds as nat
    }

    /// Starts publishing `outcome` for the owner's lease on a cache key: the first
    /// round reads the lease.
    pub fn start(cache_key_sha256: &str, owner_token: &str, outcome: RefreshLeaseOutcome) -> (r: (
        LeasePublish,
        PublishAction,
    ))
        ensures
            r.0.request() == (cache_key_sha256@, owner_token@, outcome@, REFRESH_LEASE_ID_PREFIX@ + cache_key_sha256@),
            r.0.rounds() == 1,
            r.1@ == PublishActionView::Read(REFRESH_LEASE_ID_PREFIX@ + cache_key_sha256@),
    {
        let lease_id = join_text(REFRESH_LEASE_ID_PREFIX, cache_key_sha256);
        let action = PublishAction::Read(lease_id.clone());
        let publish = LeasePublish {
            cache_key_sha256: cache_key_sha256.to_owned(),
            owner_token: owner_token.to_owned(),
            outcome,
            lease_id,
            rounds: 1,
        };
        (publish, action)
    }

    /// The next step after a read of the lease, at `now`.
    pub fn after_read(&mut self, reply: Result<(Result<RefreshLeaseDocument, StoreStatus>, String), StoreStatus>, now: i128) -> (r:
        PublishAction)
        ensures
            final(self).request() == old(self).request(),
            (final(self).rounds(), r@) == publish_after_read(
                old(self).request(),
                old(self).rounds(),
                lease_read_view(reply),
                now as int,
            ),
    {
        match reply {
            Err(status) => {
                if status.is_not_found() {
                    PublishAction::Finish(Err(SnapshotRepositoryError::Unavailable))
                } else {
                    PublishAction::Finish(Err(map_snapshot_cosmos_error(status)))
                }
            },
            Ok((item, etag)) => {
                if etag.as_str().unicode_len() == 0 {
                    return PublishAction::Finish(Err(SnapshotRepositoryError::InvalidData));
                }
                let existing = match item {
                    Ok(d) => d,
                    Err(status) => {
                        return PublishAction::Finish(Err(map_snapshot_cosmos_error(status)));
                    },
                };
                match existing.validate() {
                    Ok(()) => {},
                    Err(_) => {
                        return PublishAction::Finish(Err(SnapshotRepositoryError::InvalidData));
                    },
                }
                if !text_equals(existing.owner_token.as_str(), self.owner_token.as_str()) {
                    return PublishAction::Finish(Err(SnapshotRepositoryError::Unavailable));
                }
                match existing.matches_outcome(self.owner_token.as_str(), &self.outcome) {
                    Err(_) => {
                        return PublishAction::Finish(Err(SnapshotRepositoryError::InvalidData));
                    },
                    Ok(true) => {
                        return PublishAction::Finish(Ok(()));
                    },
                    Ok(false) => {},
                }
                match existing.complete(self.owner_token.as_str(), &self.outcome, now) {
                    Ok(completed) => match completed.validate() {
                        Ok(()) => PublishAction::Replace(completed, etag),
                        Err(_) => PublishAction::Finish(Err(SnapshotRepositoryError::InvalidData)),
                    },
                    Err(_) => PublishAction::Finish(Err(SnapshotRepositoryError::Unavailable)),
                }
            },
        }
    }

    /// The next step after the store answered the replace.
    pub fn after_write(&mut self, reply: Result<(), StoreStatus>) -> (r: PublishAction)
        ensures
            final(self).request() == old(self).request(),
            (final(self).rounds(), r@) == publish_after_write(old(self).request(), old(self).rounds(), reply),
    {
        proof {
            use_type_invariant(&*self);
        }
        match reply {
            Ok(()) => PublishAction::Finish(Ok(())),
            Err(status) => {
                if status.code == STATUS_PRECONDITION_FAILED || status.is_not_found() {
                    if self.rounds < CONDITIONAL_WRITE_ATTEMPTS {
                        self.rounds = self.rounds + 1;
                        PublishAction::Read(self.lease_id.clone())
                    } else {
                        PublishAction::Finish(Err(SnapshotRepositoryError::Unavailable))
                    }
                } else {
                    PublishAction::Finish(Err(map_snapshot_cosmos_error(status)))
                }
            },
        }
    }
}


/// A claim begins at most `CONDITIONAL_WRITE_ATTEMPTS` rounds: a step begins at
/// most one, below the cap, and every lease it offers opens a new round; after
/// the last round the refresh is pending elsewhere.
pub proof fn lemma_claim_rounds_are_bounded(
    c: ClaimView,
    created: Result<(), StoreStatus>,
    read: LeaseReadView,
    replaced: Result<(), StoreStatus>,
    now: int,
)
    requires
        c.rounds <= CONDITIONAL_WRITE_ATTEMPTS,
    ensures
        claim_after_create(c, created).0.rounds == c.rounds,
        !(claim_after_create(c, created).1 is Create),
        ({
            let (n, a) = claim_after_read(c, read, now);
            &&& n.rounds == c.rounds || (c.rounds < CONDITIONAL_WRITE_ATTEMPTS && n.rounds == c.rounds + 1)
            &&& a is Create ==> n.rounds == c.rounds + 1
        }),
        ({
            let (n, a) = claim_after_replace(c, replaced, now);
            &&& n.rounds == c.rounds || (c.rounds < CONDITIONAL_WRITE_ATTEMPTS && n.rounds == c.rounds + 1)
            &&& a is Create ==> n.rounds == c.rounds + 1
        }),
        claim_next_round(ClaimView { rounds: CONDITIONAL_WRITE_ATTEMPTS as nat, ..c }, now).1 == claim_finish(
            Ok(RefreshView::Pending),
        ),
{
}

/// A claim acquires the lease only where the store took its create or its
/// replace: what a read lease answers is never an acquisition.
pub proof fn lemma_claim_acquires_only_by_writing(
    c: ClaimView,
    created: Result<(), StoreStatus>,
    read: LeaseReadView,
    replaced: Result<(), StoreStatus>,
    now: int,
)
    requires
        c.rounds <= CONDITIONAL_WRITE_ATTEMPTS,
    ensures
        claim_after_create(c, created).1 == claim_finish(Ok(RefreshView::Acquired)) <==> created is Ok,
        claim_after_replace(c, replaced, now).1 == claim_finish(Ok(RefreshView::Acquired)) <==> replaced is Ok,
        claim_after_read(c, read, now).1 != claim_finish(Ok(RefreshView::Acquired)),
{
    if let Ok((Ok(d), e)) = read {
        if e.len() > 0 && lease_valid(d) {
            assert(lease_decision(d, c.started, c.round_now) != Some(RefreshView::Acquired));
        }
    }
    if let Err(status) = read {
        if status.spec_not_found() && c.rounds < CONDITIONAL_WRITE_ATTEMPTS {
            let c1 = ClaimView { rounds: c.rounds + 1, ..c };
            assert(claim_round(c1, now).1 != claim_finish(Ok(RefreshView::Acquired)));
        }
    }
    if let Err(status) = replaced {
        if (status.code == STATUS_PRECONDITION_FAILED || status.spec_not_found()) && c.rounds
            < CONDITIONAL_WRITE_ATTEMPTS {
            let c1 = ClaimView { rounds: c.rounds + 1, ..c };
            assert(claim_round(c1, now).1 != claim_finish(Ok(RefreshView::Acquired)));
        }
    }
}

/// A claim takes over an existing lease only where that lease decides nothing
/// for the request (an in-progress lease that has expired, or a refresh that
/// completed before the request started), offers its own lease, and writes it
/// only under the entity tag that was read.
pub proof fn lemma_claim_takes_over_only_stale_leases(c: ClaimView, read: LeaseReadView, now: int)
    ensures
        claim_after_read(c, read, now).1 matches ClaimActionView::Replace(l, etag) ==> (read matches Ok((Ok(d), e))
            && etag == e && etag.len() > 0 && lease_valid(d) && c.candidate == Some(l) && ((d.8 is InProgress
            && lease_expires(d) <= c.round_now) || (!(d.8 is InProgress) && !crate::pricing_cache::completed_since(
            d,
            c.started,
        )))),
{
}

/// Every lease a claim offers is the owner's, in progress, taken at the time
/// its round began.
pub proof fn lemma_claim_offers_the_owners_lease(c: ClaimView, now: int)
    ensures
        claim_round(c, now).1 matches ClaimActionView::Create(l) ==> l == lease_candidate(c.cache_key, c.owner, now).unwrap()
            && l.4 == c.owner && l.8 is InProgress && l.5 == rfc3339_text(now),
{
}

/// A publish reads at most `CONDITIONAL_WRITE_ATTEMPTS` times: only a lost race
/// reads again, below the cap.
pub proof fn lemma_publish_rounds_are_bounded(
    p: PublishRequest,
    rounds: nat,
    read: LeaseReadView,
    replaced: Result<(), StoreStatus>,
    now: int,
)
    requires
        rounds <= CONDITIONAL_WRITE_ATTEMPTS,
    ensures
        publish_after_read(p, rounds, read, now).0 == rounds,
        !(publish_after_read(p, rounds, read, now).1 is Read),
        ({
            let (n, a) = publish_after_write(p, rounds, replaced);
            &&& n <= CONDITIONAL_WRITE_ATTEMPTS
            &&& a is Read ==> rounds < CONDITIONAL_WRITE_ATTEMPTS && n == rounds + 1
            &&& !(a is Read) ==> n == rounds
        }),
{
}

/// Publishing writes only the completion of the owner's own lease that is still
/// in progress, with the published outcome, under the entity tag that was read.
pub proof fn lemma_publish_completes_only_the_owners_lease(p: PublishRequest, rounds: nat, read: LeaseReadView, now: int)
    ensures
        publish_after_read(p, rounds, read, now).1 matches PublishActionView::Replace(u, etag) ==> (read matches Ok(
            (Ok(d), e),
        ) && etag == e && etag.len() > 0 && d.4 == p.1 && d.8 is InProgress && now < lease_expires(d) && lease_valid(u)
            && u.4 == p.1 && u.8 == status_for(p.2) && u.7 == Some(rfc3339_text(now))),
{
}

/// Publishing is idempotent: once the owner's completion is written, reading it
/// back publishes the same outcome again without a write.
pub proof fn lemma_publish_is_idempotent(
    p: PublishRequest,
    rounds: nat,
    d: LeaseView,
    completed_at: int,
    etag: Seq<char>,
    now: int,
)
    requires
        p.2 is Succeeded || p.2 is Failed,
        lease_completion(d, p.1, p.2, completed_at) is Some,
        etag.len() > 0,
    ensures
        publish_after_read(p, rounds, Ok((Ok(lease_completion(d, p.1, p.2, completed_at).unwrap()), etag)), now).1
            == publish_finish(Ok(())),
{
    crate::pricing_cache::lemma_completed_lease_holds_outcome(d, p.2);
}


// ---------------------------------------------------------------------------
// Writing a snapshot document.
// ---------------------------------------------------------------------------

/// How many rounds a snapshot write gets after its first create conflicts.
pub const SNAPSHOT_WRITE_ATTEMPTS: usize = 3;

/// A stored snapshot document: it has an id, it validates, and it records when
/// its prices were retrieved.
pub trait SnapshotDocument {
    spec fn spec_id(&self) -> Seq<char>;

    spec fn spec_valid(&self) -> bool;

    spec fn spec_retrieved_at(&self) -> Seq<char>;

    fn id(&self) -> (r: &str)
        ensures
            r@ == self.spec_id(),
    ;

    fn check(&self) -> (r: Result<(), SnapshotRepositoryError>)
        ensures
            r is Ok <==> self.spec_valid(),
            r is Err ==> r == Err::<(), SnapshotRepositoryError>(SnapshotRepositoryError::InvalidData),
    ;

    fn retrieved_at(&self) -> (r: &str)
        ensures
            r@ == self.spec_retrieved_at(),
    ;
}

impl SnapshotDocument for AzureSnapshotDocument {
    open spec fn spec_id(&self) -> Seq<char> {
        self.id@
    }

    open spec fn spec_valid(&self) -> bool {
        azure_envelope_ok(*self) && content_matches(self.snapshot.metadata, self.snapshot.content@)
    }

    open spec fn spec_retrieved_at(&self) -> Seq<char> {
        self.retrieved_at@
    }

    fn id(&self) -> (r: &str) {
        self.id.as_str()
    }

    fn check(&self) -> (r: Result<(), SnapshotRepositoryError>) {
        match self.validate() {
            Ok(()) => Ok(()),
            Err(_) => Err(SnapshotRepositoryError::InvalidData),
        }
    }

    fn retrieved_at(&self) -> (r: &str) {
        self.retrieved_at.as_str()
    }
}

/// What the snapshot write asks the store to do next.
#[derive(Debug)]
pub enum SnapshotWriteAction {
    /// Create the document, failing where one exists.
    Create,
    /// Read the stored document with this id.
    Read(String),
    /// Replace the stored document with this one, only while it has this entity tag.
    Replace(String),
    /// The protocol is over, with this answer.
    Finish(Result<(), SnapshotRepositoryError>),
}

/// A snapshot write action as plain values.
pub enum SnapshotWriteActionView {
    Create,
    Read(Seq<char>),
    Replace(Seq<char>),
    Finish(Result<(), SnapshotRepositoryError>),
}

impl View for SnapshotWriteAction {
    type V = SnapshotWriteActionView;

    open spec fn view(&self) -> SnapshotWriteActionView {
        match self {
            SnapshotWriteAction::Create => SnapshotWriteActionView::Create,
            SnapshotWriteAction::Read(id) => SnapshotWriteActionView::Read(id@),
            SnapshotWriteAction::Replace(etag) => SnapshotWriteActionView::Replace(etag@),
            SnapshotWriteAction::Finish(r) => SnapshotWriteActionView::Finish(*r),
        }
    }
}

pub open spec fn write_finish(r: Result<(), SnapshotRepositoryError>) -> SnapshotWriteActionView {
    SnapshotWriteActionView::Finish(r)
}

/// Starting the next round, which reads the stored document, or giving up after the last.
pub open spec fn write_next_round<T: SnapshotDocument>(d: T, rounds: nat) -> (nat, SnapshotWriteActionView) {
    if rounds < SNAPSHOT_WRITE_ATTEMPTS {
        (rounds + 1, SnapshotWriteActionView::Read(d.spec_id()))
    } else {
        (rounds, write_finish(Err(SnapshotRepositoryError::Unavailable)))
    }
}

/// Starting to write a document: only a valid one is created.
pub open spec fn write_start<T: SnapshotDocument>(d: T) -> SnapshotWriteActionView {
    if d.spec_valid() {
        SnapshotWriteActionView::Create
    } else {
        write_finish(Err(SnapshotRepositoryError::InvalidData))
    }
}

/// After a create: a created document is written; a conflict starts the next
/// round; any other failure ends the write.
pub open spec fn write_after_create<T: SnapshotDocument>(d: T, rounds: nat, reply: Result<(), StoreStatus>) -> (
    nat,
    SnapshotWriteActionView,
) {
    match reply {
        Ok(()) => (rounds, write_finish(Ok(()))),
        Err(status) => if status.code == STATUS_CONFLICT {
            write_next_round(d, rounds)
        } else {
            (rounds, write_finish(Err(snapshot_store_error(status))))
        },
    }
}

/// After reading the stored document: a missing one (404) is created; a failed
/// read or an item that does not decode ends the write; a response without an
/// entity tag, a stored document that does not validate, or a retrieval time
/// that is not RFC 3339 UTC is invalid data. A stored document retrieved at the
/// same time or later stays, and the write is done; an older one is replaced
/// under the entity tag that was read.
pub open spec fn write_after_read<T: SnapshotDocument>(d: T, rounds: nat, reply: Result<(Result<T, StoreStatus>, Seq<char>), StoreStatus>) -> (
    nat,
    SnapshotWriteActionView,
) {
    match reply {
        Err(status) => if status.spec_not_found() {
            (rounds, SnapshotWriteActionView::Create)
        } else {
            (rounds, write_finish(Err(snapshot_store_error(status))))
        },
        Ok((item, etag)) => if etag.len() == 0 {
            (rounds, write_finish(Err(SnapshotRepositoryError::InvalidData)))
        } else {
            match item {
                Err(status) => (rounds, write_finish(Err(snapshot_store_error(status)))),
                Ok(existing) => if !existing.spec_valid() {
                    (rounds, write_finish(Err(SnapshotRepositoryError::InvalidData)))
                } else {
                    match (utc_instant(d.spec_retrieved_at()), utc_instant(existing.spec_retrieved_at())) {
                        (Some(incoming), Some(stored)) => if incoming > stored {
                            (rounds, SnapshotWriteActionView::Replace(etag))
                        } else {
                            (rounds, write_finish(Ok(())))
                        },
                        _ => (rounds, write_finish(Err(SnapshotRepositoryError::InvalidData))),
                    }
                }
            }
        },
    }
}

/// After a replace: a replaced document is written; a lost race (412, or the
/// document gone, 404) starts the next round; any other failure ends the write.
pub open spec fn write_after_replace<T: SnapshotDocument>(d: T, rounds: nat, reply: Result<(), StoreStatus>) -> (
    nat,
    SnapshotWriteActionView,
) {
    match reply {
        Ok(()) => (rounds, write_finish(Ok(()))),
        Err(status) => if status.code == STATUS_PRECONDITION_FAILED || status.spec_not_found() {
            write_next_round(d, rounds)
        } else {
            (rounds, write_finish(Err(snapshot_store_error(status))))
        },
    }
}

pub open spec fn item_read_view<T>(reply: Result<(Result<T, StoreStatus>, String), StoreStatus>) -> Result<
    (Result<T, StoreStatus>, Seq<char>),
    StoreStatus,
> {
    match reply {
        Ok((item, etag)) => Ok((item, etag@)),
        Err(status) => Err(status),
    }
}

/// Writing a snapshot document so that the stored one is never replaced by one
/// retrieved earlier: it is created where none exists; otherwise the stored
/// document is read and replaced, under its entity tag, only by a later
/// retrieval. A lost race starts the next round, up to the last.
pub struct SnapshotWrite<T: SnapshotDocument> {
    document: T,
    rounds: usize,
}

impl<T: SnapshotDocument> SnapshotWrite<T> {
    #[verifier::type_invariant]
    spec fn wf(self) -> bool {
        self.rounds <= SNAPSHOT_WRITE_ATTEMPTS
    }

    pub closed spec fn spec_document(self) -> T {
        self.document
    }

    pub closed spec fn rounds(self) -> nat {
        self.rounds as nat
    }

    /// The document being written, which the store's create and replace take.
    pub fn document(&self) -> (r: &T)
        ensures
            *r == self.spec_document(),
    {
        &self.document
    }

    /// Starts writing a document.
    pub fn start(document: T) -> (r: (SnapshotWrite<T>, SnapshotWriteAction))
        ensures
            r.0.spec_document() == document,
            r.0.rounds() == 0,
            r.1@ == write_start(document),
    {
        match document.check() {
            Ok(()) => (SnapshotWrite { document, rounds: 0 }, SnapshotWriteAction::Create),
            Err(e) => (SnapshotWrite { document, rounds: 0 }, SnapshotWriteAction::Finish(Err(e))),
        }
    }

    fn next_round(&mut self) -> (r: SnapshotWriteAction)
        ensures
            final(self).spec_document() == old(self).spec_document(),
            (final(self).rounds(), r@) == write_next_round(old(self).spec_document(), old(self).rounds()),
    {
        proof {
            use_type_invariant(&*self);
        }
        if self.rounds < SNAPSHOT_WRITE_ATTEMPTS {
            self.rounds = self.rounds + 1;
            SnapshotWriteAction::Read(self.document.id().to_owned())
        } else {
            SnapshotWriteAction::Finish(Err(SnapshotRepositoryError::Unavailable))
        }
    }

    /// The next step after the store answered a create.
    pub fn after_create(&mut self, reply: Result<(), StoreStatus>) -> (r: SnapshotWriteAction)
        ensures
            final(self).spec_document() == old(self).spec_document(),
            (final(self).rounds(), r@) == write_after_create(old(self).spec_document(), old(self).rounds(), reply),
    {
        match reply {
            Ok(()) => SnapshotWriteAction::Finish(Ok(())),
            Err(status) => {
                if status.code == STATUS_CONFLICT {
                    self.next_round()
                } else {
                    SnapshotWriteAction::Finish(Err(map_snapshot_cosmos_error(status)))
                }
            },
        }
    }

    /// The next step after a read of the stored document.
    pub fn after_read(&mut self, reply: Result<(Result<T, StoreStatus>, String), StoreStatus>) -> (r: SnapshotWriteAction)
        ensures
            final(self).spec_document() == old(self).spec_document(),
            (final(self).rounds(), r@) == write_after_read(
                old(self).spec_document(),
                old(self).rounds(),
                item_read_view(reply),
            ),
    {
        match reply {
            Err(status) => {
                if status.is_not_found() {
                    SnapshotWriteAction::Create
                } else {
                    SnapshotWriteAction::Finish(Err(map_snapshot_cosmos_error(status)))
                }
            },
            Ok((item, etag)) => {
                if etag.as_str().unicode_len() == 0 {
                    return SnapshotWriteAction::Finish(Err(SnapshotRepositoryError::InvalidData));
                }
                let existing = match item {
                    Ok(existing) => existing,
                    Err(status) => {
                        return SnapshotWriteAction::Finish(Err(map_snapshot_cosmos_error(status)));
                    },
                };
                match existing.check() {
                    Ok(()) => {},
                    Err(e) => {
                        return SnapshotWriteAction::Finish(Err(e));
                    },
                }
                match retrieved_later(self.document.retrieved_at(), existing.retrieved_at()) {
                    Err(e) => SnapshotWriteAction::Finish(Err(e)),
                    Ok(false) => SnapshotWriteAction::Finish(Ok(())),
                    Ok(true) => SnapshotWriteAction::Replace(etag),
                }
            },
        }
    }

    /// The next step after the store answered a replace.
    pub fn after_replace(&mut self, reply: Result<(), StoreStatus>) -> (r: SnapshotWriteAction)
        ensures
            final(self).spec_document() == old(self).spec_document(),
            (final(self).rounds(), r@) == write_after_replace(old(self).spec_document(), old(self).rounds(), reply),
    {
        match reply {
            Ok(()) => SnapshotWriteAction::Finish(Ok(())),
            Err(status) => {
                if status.code == STATUS_PRECONDITION_FAILED || status.is_not_found() {
                    self.next_round()
                } else {
                    SnapshotWriteAction::Finish(Err(map_snapshot_cosmos_error(status)))
                }
            },
        }
    }
}


/// A snapshot write reads at most `SNAPSHOT_WRITE_ATTEMPTS` times: only a lost
/// race reads again, below the cap; after the last round the store is unavailable.
pub proof fn lemma_snapshot_write_rounds_are_bounded<T: SnapshotDocument>(
    d: T,
    rounds: nat,
    created: Result<(), StoreStatus>,
    read: Result<(Result<T, StoreStatus>, Seq<char>), StoreStatus>,
    replaced: Result<(), StoreStatus>,
)
    requires
        rounds <= SNAPSHOT_WRITE_ATTEMPTS,
    ensures
        ({
            let (n, a) = write_after_create(d, rounds, created);
            &&& n <= SNAPSHOT_WRITE_ATTEMPTS
            &&& a is Read ==> rounds < SNAPSHOT_WRITE_ATTEMPTS && n == rounds + 1
            &&& !(a is Read) ==> n == rounds
        }),
        write_after_read(d, rounds, read).0 == rounds,
        !(write_after_read(d, rounds, read).1 is Read),
        ({
            let (n, a) = write_after_replace(d, rounds, replaced);
            &&& n <= SNAPSHOT_WRITE_ATTEMPTS
            &&& a is Read ==> rounds < SNAPSHOT_WRITE_ATTEMPTS && n == rounds + 1
            &&& !(a is Read) ==> n == rounds
        }),
        write_next_round(d, SNAPSHOT_WRITE_ATTEMPTS as nat).1 == write_finish(Err(SnapshotRepositoryError::Unavailable)),
{
}

/// A stored snapshot is replaced only by a document retrieved strictly later,
/// only when both validate, and only under the entity tag that was read; a
/// document that does not validate is never written.
pub proof fn lemma_snapshot_write_never_replaces_newer<T: SnapshotDocument>(
    d: T,
    rounds: nat,
    read: Result<(Result<T, StoreStatus>, Seq<char>), StoreStatus>,
)
    ensures
        write_after_read(d, rounds, read).1 matches SnapshotWriteActionView::Replace(etag) ==> (read matches Ok(
            (Ok(existing), e),
        ) && etag == e && etag.len() > 0 && existing.spec_valid() && (utc_instant(d.spec_retrieved_at()) matches Some(
            incoming,
        ) && (utc_instant(existing.spec_retrieved_at()) matches Some(stored) && incoming > stored))),
        !d.spec_valid() ==> write_start(d) == write_finish(Err(SnapshotRepositoryError::InvalidData)),
{
}


/// The quota protocol reads at most `CONDITIONAL_WRITE_ATTEMPTS` times: a step
/// that asks for a read starts a new round below the cap, and every other step
/// stays in its round.
pub proof fn lemma_quota_rounds_are_bounded(
    q: QuotaRequest,
    rounds: nat,
    read: QuotaReadView,
    write: Result<(), StoreStatus>,
    now: int,
)
    requires
        rounds <= CONDITIONAL_WRITE_ATTEMPTS,
    ensures
        ({
            let (n, a) = quota_after_read(q, rounds, read, now);
            &&& n <= CONDITIONAL_WRITE_ATTEMPTS
            &&& a is Read ==> rounds < CONDITIONAL_WRITE_ATTEMPTS && n == rounds + 1
            &&& !(a is Read) ==> n == rounds
        }),
        ({
            let (n, a) = quota_after_write(q, rounds, write);
            &&& n <= CONDITIONAL_WRITE_ATTEMPTS
            &&& a is Read ==> rounds < CONDITIONAL_WRITE_ATTEMPTS && n == rounds + 1
            &&& !(a is Read) ==> n == rounds
        }),
        quota_next_round(q, CONDITIONAL_WRITE_ATTEMPTS as nat).1 == quota_finish(Err(RefreshQuotaError::Unavailable)),
{
}

/// The protocol allows an operation only where the store took its write, or
/// where the quota it read already counts that operation; a failed write never
/// allows it.
pub proof fn lemma_quota_allows_only_counted_operations(
    q: QuotaRequest,
    rounds: nat,
    read: QuotaReadView,
    write: Result<(), StoreStatus>,
    now: int,
)
    ensures
        quota_after_read(q, rounds, read, now).1 == quota_finish(Ok(RefreshQuotaDecision::Allowed)) ==> (read matches Ok(
            (Ok(d), _),
        ) && quota_valid(d) && d.8.contains(q.1)),
        quota_after_write(q, rounds, write).1 == quota_finish(Ok(RefreshQuotaDecision::Allowed)) <==> write is Ok,
{
}

/// A replacement is written only under the entity tag that was read, counts the
/// operation, and stays within both limits.
pub proof fn lemma_quota_replace_is_conditional(q: QuotaRequest, rounds: nat, read: QuotaReadView, now: int)
    ensures
        quota_after_read(q, rounds, read, now).1 matches QuotaActionView::Replace(u, etag) ==> (read matches Ok(
            (Ok(d), e),
        ) && etag == e && etag.len() > 0 && u.8.contains(q.1) && u.7 <= u.6 && u.7 <= q.2),
{
    if let Ok((Ok(d), e)) = read {
        if e.len() > 0 && quota_valid(d) && quota_inputs_ok(q.0, q.1, q.2) && d.3 == q.0 {
            crate::pricing_cache::lemma_quota_is_bounded(d, q.0, q.1, q.2, now);
            if let Some(QuotaMutationView::Replace(u)) = spec_consume(d, q.0, q.1, q.2, now) {
                if d.8.contains(q.1) {
                } else if utc_instant(d.5).unwrap() <= now {
                    assert(u.8[0] == q.1);
                } else {
                    assert(u.8[u.8.len() - 1] == q.1);
                }
            }
        }
    }
}

} // verus!
