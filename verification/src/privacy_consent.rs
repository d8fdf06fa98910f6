use vstd::prelude::*;

use crate::instant::{rfc3339_renderable, rfc3339_text, utc_instant, valid_instant};
use crate::repository::current_timestamp;
use crate::text::text_equals;

verus! {

pub const CURRENT_PRIVACY_NOTICE_VERSION: &'static str = "2026-08-11-internal-pilot-v1";

pub const PRIVACY_CONSENT_DOCUMENT_ID: &'static str = "privacy-consent";

pub const PRIVACY_CONSENT_DOCUMENT_TYPE: &'static str = "privacy_consent";

/// What a user states when accepting the privacy notice.
#[derive(Clone, Debug, PartialEq, Eq)]
pub struct PrivacyConsentProfile {
    pub display_name: Option<String>,
    pub email_address: Option<String>,
    pub allow_contact: bool,
}

/// The stored acceptance of the privacy notice, one per owner.
#[derive(Clone, Debug, PartialEq, Eq)]
pub struct PrivacyConsentDocument {
    pub id: String,
    pub document_type: String,
    pub owner_id: String,
    pub notice_version: String,
    pub accepted_at: String,
    pub display_name: Option<String>,
    pub email_address: Option<String>,
    pub allow_contact: bool,
}

#[derive(Clone, Copy, Debug, PartialEq, Eq, Structural)]
pub enum PrivacyConsentError {
    InvalidRecord,
    Unavailable,
}

impl PrivacyConsentError {
    /// The error's message as text.
    pub open spec fn spec_message(&self) -> Seq<char> {
        match self {
            PrivacyConsentError::InvalidRecord => "privacy consent record is invalid"@,
            PrivacyConsentError::Unavailable => "privacy consent persistence is unavailable"@,
        }
    }

    /// The error's message.
    pub fn message(&self) -> (r: &'static str)
        ensures
            r@ == self.spec_message(),
    {
        match self {
            PrivacyConsentError::InvalidRecord => "privacy consent record is invalid",
            PrivacyConsentError::Unavailable => "privacy consent persistence is unavailable",
        }
    }
}

pub open spec fn opt_text(value: Option<String>) -> Option<Seq<char>> {
    match value {
        Some(s) => Some(s@),
        None => None,
    }
}

/// A consent record as plain values: (id, document type, owner, notice version,
/// accepted at, display name, email, contact allowed).
pub type ConsentView = (Seq<char>, Seq<char>, Seq<char>, Seq<char>, Seq<char>, Option<Seq<char>>, Option<Seq<char>>, bool);

impl View for PrivacyConsentDocument {
    type V = ConsentView;

    open spec fn view(&self) -> ConsentView {
        (
            self.id@,
            self.document_type@,
            self.owner_id@,
            self.notice_version@,
            self.accepted_at@,
            opt_text(self.display_name),
            opt_text(self.email_address),
            self.allow_contact,
        )
    }
}

/// A record of the owner: the fixed id and type, a notice version and an
/// acceptance time, and an email exactly when contact is allowed.
pub open spec fn consent_valid(v: ConsentView, owner_id: Seq<char>) -> bool {
    &&& v.0 == PRIVACY_CONSENT_DOCUMENT_ID@
    &&& v.1 == PRIVACY_CONSENT_DOCUMENT_TYPE@
    &&& v.2 == owner_id
    &&& v.3.len() > 0
    &&& v.4.len() > 0
    &&& v.7 == (v.6 is Some)
}

/// The record saved for a profile: the email is kept only when contact is allowed.
pub open spec fn consent_record(owner_id: Seq<char>, profile: PrivacyConsentProfile, accepted_at: Seq<char>) -> ConsentView {
    (
        PRIVACY_CONSENT_DOCUMENT_ID@,
        PRIVACY_CONSENT_DOCUMENT_TYPE@,
        owner_id,
        CURRENT_PRIVACY_NOTICE_VERSION@,
        accepted_at,
        opt_text(profile.display_name),
        if profile.allow_contact { opt_text(profile.email_address) } else { None },
        profile.allow_contact,
    )
}

/// Accepts only a valid record of the owner.
pub fn validate_document(document: &PrivacyConsentDocument, owner_id: &str) -> (r: Result<(), PrivacyConsentError>)
    ensures
        r is Ok <==> consent_valid(document@, owner_id@),
        r is Err ==> r == Err::<(), PrivacyConsentError>(PrivacyConsentError::InvalidRecord),
{
    if !text_equals(document.id.as_str(), PRIVACY_CONSENT_DOCUMENT_ID) || !text_equals(
        document.document_type.as_str(),
        PRIVACY_CONSENT_DOCUMENT_TYPE,
    ) || !text_equals(document.owner_id.as_str(), owner_id) || document.notice_version.as_str().is_empty()
        || document.accepted_at.as_str().is_empty() || document.allow_contact != document.email_address.is_some() {
        return Err(PrivacyConsentError::InvalidRecord);
    }
    Ok(())
}

/// The record of a profile accepted at `accepted_at`, for a named owner; an
/// owner who allows contact must give an email.
pub fn new_document_at(owner_id: &str, profile: PrivacyConsentProfile, accepted_at: String) -> (r: Result<
    PrivacyConsentDocument,
    PrivacyConsentError,
>)
    ensures
        r is Ok <==> (owner_id@.len() > 0 && !(profile.allow_contact && profile.email_address is None)
            && accepted_at@.len() > 0),
        r is Err ==> r == Err::<PrivacyConsentDocument, PrivacyConsentError>(PrivacyConsentError::InvalidRecord),
        r matches Ok(d) ==> d@ == consent_record(owner_id@, profile, accepted_at@),
{
    if owner_id.is_empty() || (profile.allow_contact && profile.email_address.is_none()) {
        return Err(PrivacyConsentError::InvalidRecord);
    }
    let email_address = if profile.allow_contact { profile.email_address } else { None };
    let document = PrivacyConsentDocument {
        id: PRIVACY_CONSENT_DOCUMENT_ID.to_owned(),
        document_type: PRIVACY_CONSENT_DOCUMENT_TYPE.to_owned(),
        owner_id: owner_id.to_owned(),
        notice_version: CURRENT_PRIVACY_NOTICE_VERSION.to_owned(),
        accepted_at,
        display_name: profile.display_name,
        email_address,
        allow_contact: profile.allow_contact,
    };
    proof {
        reveal_strlit("2026-08-11-internal-pilot-v1");
    }
    match validate_document(&document, owner_id) {
        Ok(()) => Ok(document),
        Err(e) => Err(e),
    }
}

/// The record of a profile accepted now, for a named owner; an owner who
/// allows contact must give an email. `Unavailable` when the clock has no
/// RFC 3339 rendering.
pub fn new_document(owner_id: &str, profile: PrivacyConsentProfile) -> (r: Result<
    PrivacyConsentDocument,
    PrivacyConsentError,
>)
    ensures
        owner_id@.len() == 0 || (profile.allow_contact && profile.email_address is None) ==> r == Err::<
            PrivacyConsentDocument,
            PrivacyConsentError,
        >(PrivacyConsentError::InvalidRecord),
        r matches Ok(d) ==> exists|accepted_at: Seq<char>|
            accepted_at.len() > 0 && d@ == #[trigger] consent_record(owner_id@, profile, accepted_at),
        r is Err ==> r == Err::<PrivacyConsentDocument, PrivacyConsentError>(PrivacyConsentError::InvalidRecord)
            || r == Err::<PrivacyConsentDocument, PrivacyConsentError>(PrivacyConsentError::Unavailable),
{
    if owner_id.is_empty() || (profile.allow_contact && profile.email_address.is_none()) {
        return Err(PrivacyConsentError::InvalidRecord);
    }
    let accepted_at = match current_timestamp() {
        Ok(t) => t,
        Err(_) => {
            return Err(PrivacyConsentError::Unavailable);
        },
    };
    let ghost t = accepted_at@;
    let r = new_document_at(owner_id, profile, accepted_at);
    proof {
        if r is Ok {
            assert(t.len() > 0);
        }
    }
    r
}

/// Where consent records are kept, one per owner.
pub trait PrivacyConsentRepository {
    fn get(&self, owner_id: &str) -> Result<Option<PrivacyConsentDocument>, PrivacyConsentError>;

    fn save(&mut self, owner_id: &str, profile: PrivacyConsentProfile) -> Result<
        PrivacyConsentDocument,
        PrivacyConsentError,
    >;
}

fn copy_text(value: &Option<String>) -> (r: Option<String>)
    ensures
        opt_text(r) == opt_text(*value),
{
    match value {
        Some(s) => Some(s.clone()),
        None => None,
    }
}

impl PrivacyConsentDocument {
    /// A copy of the record.
    pub fn copy(&self) -> (r: PrivacyConsentDocument)
        ensures
            r@ == self@,
    {
        PrivacyConsentDocument {
            id: self.id.clone(),
            document_type: self.document_type.clone(),
            owner_id: self.owner_id.clone(),
            notice_version: self.notice_version.clone(),
            accepted_at: self.accepted_at.clone(),
            display_name: copy_text(&self.display_name),
            email_address: copy_text(&self.email_address),
            allow_contact: self.allow_contact,
        }
    }
}

/// Consent records kept in memory, at most one per owner.
#[derive(Debug)]
pub struct InMemoryPrivacyConsentRepository {
    records: Vec<PrivacyConsentDocument>,
}

pub open spec fn owners_distinct(records: Seq<PrivacyConsentDocument>) -> bool {
    forall|i: int, j: int| 0 <= i < j < records.len() ==> records[i].owner_id@ != records[j].owner_id@
}

/// The records by owner.
pub open spec fn records_map(records: Seq<PrivacyConsentDocument>) -> Map<Seq<char>, ConsentView> {
    Map::new(
        |owner: Seq<char>| exists|i: int| 0 <= i < records.len() && records[i].owner_id@ == owner,
        |owner: Seq<char>|
            records[choose|i: int| 0 <= i < records.len() && records[i].owner_id@ == owner]@,
    )
}

impl View for InMemoryPrivacyConsentRepository {
    type V = Map<Seq<char>, ConsentView>;

    closed spec fn view(&self) -> Map<Seq<char>, ConsentView> {
        records_map(self.records@)
    }
}

impl InMemoryPrivacyConsentRepository {
    #[verifier::type_invariant]
    closed spec fn wf(self) -> bool {
        owners_distinct(self.records@)
    }

    /// An empty repository.
    pub fn new() -> (r: InMemoryPrivacyConsentRepository)
        ensures
            r@ == Map::<Seq<char>, ConsentView>::empty(),
    {
        let r = InMemoryPrivacyConsentRepository { records: Vec::new() };
        assert(r@ =~= Map::<Seq<char>, ConsentView>::empty());
        r
    }

    fn find(&self, owner_id: &str) -> (r: Option<usize>)
        ensures
            match r {
                Some(i) => i < self.records@.len() && self.records@[i as int].owner_id@ == owner_id@,
                None => forall|i: int| 0 <= i < self.records@.len() ==> self.records@[i].owner_id@ != owner_id@,
            },
    {
        let mut i: usize = 0;
        while i < self.records.len()
            invariant
                i <= self.records@.len(),
                forall|k: int| 0 <= k < i ==> self.records@[k].owner_id@ != owner_id@,
            decreases self.records@.len() - i,
        {
            if text_equals(self.records[i].owner_id.as_str(), owner_id) {
                return Some(i);
            }
            i = i + 1;
        }
        None
    }

    /// The owner's record, which must be valid; `None` when the owner has none.
    pub fn get(&self, owner_id: &str) -> (r: Result<Option<PrivacyConsentDocument>, PrivacyConsentError>)
        ensures
            !self@.contains_key(owner_id@) ==> r matches Ok(None),
            self@.contains_key(owner_id@) && consent_valid(self@[owner_id@], owner_id@) ==> (r matches Ok(Some(d))
                && d@ == self@[owner_id@]),
            self@.contains_key(owner_id@) && !consent_valid(self@[owner_id@], owner_id@) ==> r == Err::<
                Option<PrivacyConsentDocument>,
                PrivacyConsentError,
            >(PrivacyConsentError::InvalidRecord),
    {
        proof {
            use_type_invariant(self);
        }
        match self.find(owner_id) {
            None => Ok(None),
            Some(i) => {
                proof {
                    let k = choose|k: int|
                        0 <= k < self.records@.len() && self.records@[k].owner_id@ == owner_id@;
                    assert(k == i);
                }
                let record = self.records[i].copy();
                assert(record@ == self.records@[i as int]@);
                match validate_document(&record, owner_id) {
                    Ok(()) => Ok(Some(record)),
                    Err(e) => Err(e),
                }
            },
        }
    }

    /// Saves the owner's acceptance of the current notice, replacing any earlier record.
    pub fn save_at(&mut self, owner_id: &str, profile: PrivacyConsentProfile, accepted_at: String) -> (r: Result<
        PrivacyConsentDocument,
        PrivacyConsentError,
    >)
        ensures
            r is Ok <==> (owner_id@.len() > 0 && !(profile.allow_contact && profile.email_address is None)
                && accepted_at@.len() > 0),
            r is Err ==> r == Err::<PrivacyConsentDocument, PrivacyConsentError>(PrivacyConsentError::InvalidRecord)
                && final(self)@ == old(self)@,
            r matches Ok(d) ==> d@ == consent_record(owner_id@, profile, accepted_at@) && final(self)@ == old(
                self,
            )@.insert(owner_id@, d@),
    {
        proof {
            use_type_invariant(&*self);
        }
        let document = match new_document_at(owner_id, profile, accepted_at) {
            Ok(d) => d,
            Err(e) => {
                return Err(e);
            },
        };
        let ghost before = self.records@;
        let stored = document.copy();
        assert(stored@ == document@);
        match self.find(owner_id) {
            Some(i) => {
                let mut records: Vec<PrivacyConsentDocument> = Vec::new();
                std::mem::swap(&mut records, &mut self.records);
                assert(records@ == before);
                records.set(i, stored);
                proof {
                    assert forall|a: int, b: int| 0 <= a < b < records@.len() implies records@[a].owner_id@
                        != records@[b].owner_id@ by {
                        if a != i && b != i {
                            assert(records@[a] == before[a] && records@[b] == before[b]);
                        }
                    }
                    assert(records_map(records@) =~= records_map(before).insert(owner_id@, document@)) by {
                        assert forall|o: Seq<char>| #[trigger] records_map(records@).contains_key(o) <==> records_map(
                            before,
                        ).insert(owner_id@, document@).contains_key(o) by {
                            if o == owner_id@ {
                                assert(records@[i as int].owner_id@ == o);
                            }
                            if o != owner_id@ && records_map(before).contains_key(o) {
                                let k = choose|k: int| 0 <= k < before.len() && before[k].owner_id@ == o;
                                assert(records@[k] == before[k]);
                            }
                            if records_map(records@).contains_key(o) && o != owner_id@ {
                                let k = choose|k: int| 0 <= k < records@.len() && records@[k].owner_id@ == o;
                                assert(k != i);
                                assert(before[k] == records@[k]);
                            }
                        }
                        assert forall|o: Seq<char>| #[trigger] records_map(records@).contains_key(o) implies records_map(
                            records@,
                        )[o] == records_map(before).insert(owner_id@, document@)[o] by {
                            let k = choose|k: int| 0 <= k < records@.len() && records@[k].owner_id@ == o;
                            if o == owner_id@ {
                                assert(k == i);
                            } else {
                                let j = choose|j: int| 0 <= j < before.len() && before[j].owner_id@ == o;
                                assert(k != i);
                                assert(records@[k] == before[k]);
                                assert(j == k);
                            }
                        }
                    }
                }
                self.records = records;
            },
            None => {
                let mut records: Vec<PrivacyConsentDocument> = Vec::new();
                std::mem::swap(&mut records, &mut self.records);
                assert(records@ == before);
                records.push(stored);
                proof {
                    assert forall|a: int, b: int| 0 <= a < b < records@.len() implies records@[a].owner_id@
                        != records@[b].owner_id@ by {
                        if b < before.len() {
                            assert(records@[a] == before[a] && records@[b] == before[b]);
                        } else {
                            assert(records@[a] == before[a]);
                        }
                    }
                    assert(records_map(records@) =~= records_map(before).insert(owner_id@, document@)) by {
                        let n = before.len() as int;
                        assert forall|o: Seq<char>| #[trigger] records_map(records@).contains_key(o) <==> records_map(
                            before,
                        ).insert(owner_id@, document@).contains_key(o) by {
                            if o != owner_id@ && records_map(before).contains_key(o) {
                                let k = choose|k: int| 0 <= k < before.len() && before[k].owner_id@ == o;
                                assert(records@[k] == before[k]);
                            }
                            if o == owner_id@ {
                                assert(records@[n].owner_id@ == o);
                            }
                            if records_map(records@).contains_key(o) && o != owner_id@ {
                                let k = choose|k: int| 0 <= k < records@.len() && records@[k].owner_id@ == o;
                                assert(k != n);
                                assert(before[k] == records@[k]);
                            }
                        }
                        assert forall|o: Seq<char>| #[trigger] records_map(records@).contains_key(o) implies records_map(
                            records@,
                        )[o] == records_map(before).insert(owner_id@, document@)[o] by {
                            let k = choose|k: int| 0 <= k < records@.len() && records@[k].owner_id@ == o;
                            if o == owner_id@ {
                                assert(k == n);
                            } else {
                                let j = choose|j: int| 0 <= j < before.len() && before[j].owner_id@ == o;
                                assert(k != n);
                                assert(records@[k] == before[k]);
                                assert(j == k);
                            }
                        }
                    }
                }
                self.records = records;
            },
        }
        Ok(document)
    }
}

impl PrivacyConsentRepository for InMemoryPrivacyConsentRepository {
    /// The owner's record, which must be valid; `None` when the owner has none.
    fn get(&self, owner_id: &str) -> (r: Result<Option<PrivacyConsentDocument>, PrivacyConsentError>)
        ensures
            !self@.contains_key(owner_id@) ==> r matches Ok(None),
            self@.contains_key(owner_id@) && consent_valid(self@[owner_id@], owner_id@) ==> (r matches Ok(Some(d))
                && d@ == self@[owner_id@]),
            self@.contains_key(owner_id@) && !consent_valid(self@[owner_id@], owner_id@) ==> r == Err::<
                Option<PrivacyConsentDocument>,
                PrivacyConsentError,
            >(PrivacyConsentError::InvalidRecord),
    {
        InMemoryPrivacyConsentRepository::get(self, owner_id)
    }

    /// Saves the owner's acceptance of the current notice, timestamped now.
    fn save(&mut self, owner_id: &str, profile: PrivacyConsentProfile) -> (r: Result<
        PrivacyConsentDocument,
        PrivacyConsentError,
    >)
        ensures
            owner_id@.len() == 0 || (profile.allow_contact && profile.email_address is None) ==> r == Err::<
                PrivacyConsentDocument,
                PrivacyConsentError,
            >(PrivacyConsentError::InvalidRecord),
            owner_id@.len() > 0 && !(profile.allow_contact && profile.email_address is None) ==> (r is Ok || r
                == Err::<PrivacyConsentDocument, PrivacyConsentError>(PrivacyConsentError::Unavailable)),
            r is Err ==> final(self)@ == old(self)@,
            r matches Ok(d) ==> final(self)@ == old(self)@.insert(owner_id@, d@) && exists|n: int|
                valid_instant(n) && d@ == #[trigger] consent_record(owner_id@, profile, rfc3339_text(n)),
    {
        if owner_id.is_empty() || (profile.allow_contact && profile.email_address.is_none()) {
            return Err(PrivacyConsentError::InvalidRecord);
        }
        let accepted_at = match current_timestamp() {
            Ok(t) => t,
            Err(_) => {
                return Err(PrivacyConsentError::Unavailable);
            },
        };
        let ghost t = accepted_at@;
        let ghost n = choose|n: int|
            valid_instant(n) && rfc3339_renderable(n) && #[trigger] rfc3339_text(n) == t && utc_instant(t) == Some(n);
        let r = InMemoryPrivacyConsentRepository::save_at(self, owner_id, profile, accepted_at);
        proof {
            if r is Ok {
                assert(consent_record(owner_id@, profile, rfc3339_text(n)) == consent_record(owner_id@, profile, t));
            }
        }
        r
    }
}

/// Consent is owner-scoped: after an owner saves, reading that owner gives the
/// saved record, and every other owner reads what it read before.
pub proof fn lemma_consent_owner_scoped(
    before: Map<Seq<char>, ConsentView>,
    owner: Seq<char>,
    saved: ConsentView,
    other: Seq<char>,
)
    requires
        other != owner,
    ensures
        before.insert(owner, saved).contains_key(owner),
        before.insert(owner, saved)[owner] == saved,
        before.insert(owner, saved).contains_key(other) == before.contains_key(other),
        before.contains_key(other) ==> before.insert(owner, saved)[other] == before[other],
{
}

/// A saved record is valid for its owner, and keeps an email only when contact is allowed.
pub proof fn lemma_saved_consent_is_valid(owner_id: Seq<char>, profile: PrivacyConsentProfile, accepted_at: Seq<char>)
    requires
        owner_id.len() > 0,
        !(profile.allow_contact && profile.email_address is None),
        accepted_at.len() > 0,
    ensures
        consent_valid(consent_record(owner_id, profile, accepted_at), owner_id),
        !profile.allow_contact ==> consent_record(owner_id, profile, accepted_at).6 is None,
{
    reveal_strlit("2026-08-11-internal-pilot-v1");
}

} // verus!
