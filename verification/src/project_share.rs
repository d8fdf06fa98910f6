use vstd::prelude::*;

use crate::digest::{hex_digest_text, sha256_hex_text};
use crate::ids::new_uuid;
use crate::instant::{current_instant, format_rfc3339, parse_rfc3339, rfc3339_parse, rfc3339_renderable, rfc3339_text, NANOS_PER_SECOND};
use crate::project::EditableProject;
use crate::resource::{duplicate_resources, same_resources};
use crate::repository::{copy_settings, copy_text, opt_text, MAX_PROJECT_DOCUMENT_BYTES};
use crate::text::text_equals;

verus! {

pub const PROJECT_SHARE_DOCUMENT_TYPE: &'static str = "project_share";

pub const PROJECT_SHARE_PARTITION: &'static str = "project-shares";

/// How long a share link stays valid.
pub const SHARE_LIFETIME_DAYS: i64 = 30;

/// A shared copy of a project, found by its share id and opened with a secret
/// of which only the SHA-256 digest is kept.
#[derive(Clone, Debug)]
pub struct ProjectShareDocument {
    pub id: u128,
    pub document_type: String,
    pub partition_key: String,
    pub source_owner_id: String,
    pub source_project_id: u128,
    pub secret_sha256: String,
    pub project: EditableProject,
    pub created_at: String,
    pub expires_at: String,
}

/// What opens a share: its id and its secret.
#[derive(Clone, Copy, Debug)]
pub struct ProjectShareCredentials {
    pub share_id: u128,
    pub secret: u128,
}

#[derive(Clone, Debug)]
pub struct CreatedProjectShare {
    pub credentials: ProjectShareCredentials,
    pub expires_at: String,
}

#[derive(Clone, Copy, Debug, PartialEq, Eq, Structural)]
pub enum ProjectShareError {
    NotFound,
    Expired,
    PayloadTooLarge,
    Unavailable,
}

impl ProjectShareError {
    /// The error's message as text.
    pub open spec fn spec_message(&self) -> Seq<char> {
        match self {
            ProjectShareError::NotFound => "project share was not found"@,
            ProjectShareError::Expired => "project share has expired"@,
            ProjectShareError::PayloadTooLarge => "project share document exceeds the persistence limit"@,
            ProjectShareError::Unavailable => "project share persistence is unavailable"@,
        }
    }

    /// The error's message.
    pub fn message(&self) -> (r: &'static str)
        ensures
            r@ == self.spec_message(),
    {
        match self {
            ProjectShareError::NotFound => "project share was not found",
            ProjectShareError::Expired => "project share has expired",
            ProjectShareError::PayloadTooLarge => "project share document exceeds the persistence limit",
            ProjectShareError::Unavailable => "project share persistence is unavailable",
        }
    }
}

pub open spec fn as_result(e: Option<ProjectShareError>) -> Result<(), ProjectShareError> {
    match e {
        Some(e) => Err(e),
        None => Ok(()),
    }
}

/// The partition that shares are kept in.
pub fn share_partition() -> (r: String)
    ensures
        r@ == PROJECT_SHARE_PARTITION@,
{
    PROJECT_SHARE_PARTITION.to_owned()
}

/// The 16 bytes of a UUID, most significant first.
pub open spec fn uuid_bytes(value: u128) -> Seq<u8> {
    Seq::new(16, |i: int| ((value >> ((8 * (15 - i)) as u128)) & 0xffu128) as u8)
}

fn uuid_bytes_of(value: u128) -> (r: Vec<u8>)
    ensures
        r@ == uuid_bytes(value),
{
    let mut out: Vec<u8> = Vec::new();
    let mut i: u32 = 0;
    while i < 16
        invariant
            i <= 16,
            out@.len() == i,
            forall|j: int| 0 <= j < i ==> out@[j] == uuid_bytes(value)[j],
        decreases 16 - i,
    {
        let shift: u32 = 8 * (15 - i);
        out.push(((value >> shift) & 0xff) as u8);
        i = i + 1;
    }
    assert(out@ =~= uuid_bytes(value));
    out
}

/// The digest kept of a share secret: the lowercase hexadecimal SHA-256 of its 16 bytes.
pub open spec fn secret_digest(secret: u128) -> Seq<char> {
    hex_digest_text(uuid_bytes(secret))
}

/// The digest kept of a share secret.
pub fn digest_secret(secret: u128) -> (r: String)
    ensures
        r@ == secret_digest(secret),
        r@.len() == 64,
{
    let bytes = uuid_bytes_of(secret);
    sha256_hex_text(bytes.as_slice())
}

/// A share as plain values; the shared project is kept as it was given.
pub struct ShareView {
    pub id: u128,
    pub document_type: Seq<char>,
    pub partition_key: Seq<char>,
    pub source_owner_id: Seq<char>,
    pub source_project_id: u128,
    pub secret_sha256: Seq<char>,
    pub project: EditableProject,
    pub created_at: Seq<char>,
    pub expires_at: Seq<char>,
}

impl View for ProjectShareDocument {
    type V = ShareView;

    open spec fn view(&self) -> ShareView {
        ShareView {
            id: self.id,
            document_type: self.document_type@,
            partition_key: self.partition_key@,
            source_owner_id: self.source_owner_id@,
            source_project_id: self.source_project_id,
            secret_sha256: self.secret_sha256@,
            project: self.project,
            created_at: self.created_at@,
            expires_at: self.expires_at@,
        }
    }
}

/// What a copy of a project keeps exactly besides its resources: its name,
/// description, settings and price snapshot ids.
pub struct ProjectFields {
    pub name: Seq<char>,
    pub description: Option<Seq<char>>,
    pub settings: crate::project::ProjectSettings,
    pub aws_price_snapshot_id: Option<Seq<char>>,
    pub azure_price_snapshot_id: Option<Seq<char>>,
}

pub open spec fn project_fields(p: EditableProject) -> ProjectFields {
    ProjectFields {
        name: p.name@,
        description: opt_text(p.description),
        settings: p.settings,
        aws_price_snapshot_id: opt_text(p.aws_price_snapshot_id),
        azure_price_snapshot_id: opt_text(p.azure_price_snapshot_id),
    }
}

/// A copy of a project.
pub fn copy_project(project: &EditableProject) -> (r: EditableProject)
    ensures
        project_fields(r) == project_fields(*project),
        same_resources(r.resources@, project.resources@),
{
    EditableProject {
        name: project.name.clone(),
        description: copy_text(&project.description),
        settings: copy_settings(&project.settings),
        resources: duplicate_resources(&project.resources),
        aws_price_snapshot_id: copy_text(&project.aws_price_snapshot_id),
        azure_price_snapshot_id: copy_text(&project.azure_price_snapshot_id),
    }
}

/// How share documents are written out: the length of a document's JSON
/// serialization, `None` where serialization fails.
pub trait ProjectShareCodec {
    fn share_json_len(&self, document: &ProjectShareDocument) -> Option<usize>;
}

/// What share validation answers: `None` for a share with the expected id, in
/// the share partition, with an owner and a full digest, whose serialization
/// (of `serialized_len` bytes) fits the limit.
pub open spec fn share_error(v: ShareView, expected_id: u128, serialized_len: Option<usize>) -> Option<ProjectShareError> {
    if v.id != expected_id || v.document_type != PROJECT_SHARE_DOCUMENT_TYPE@ || v.partition_key
        != PROJECT_SHARE_PARTITION@ || v.source_owner_id.len() == 0 || v.secret_sha256.len() != 64 {
        Some(ProjectShareError::Unavailable)
    } else {
        match serialized_len {
            None => Some(ProjectShareError::Unavailable),
            Some(n) => if n >= MAX_PROJECT_DOCUMENT_BYTES {
                Some(ProjectShareError::PayloadTooLarge)
            } else {
                None
            },
        }
    }
}

/// Accepts a share document with the expected id whose JSON serialization has
/// `serialized_len` bytes.
pub fn validate_document(document: &ProjectShareDocument, expected_id: u128, serialized_len: Option<usize>) -> (r: Result<
    (),
    ProjectShareError,
>)
    ensures
        r == as_result(share_error(document@, expected_id, serialized_len)),
{
    if document.id != expected_id || !text_equals(document.document_type.as_str(), PROJECT_SHARE_DOCUMENT_TYPE)
        || !text_equals(document.partition_key.as_str(), PROJECT_SHARE_PARTITION)
        || document.source_owner_id.as_str().is_empty() || document.secret_sha256.as_str().unicode_len() != 64 {
        return Err(ProjectShareError::Unavailable);
    }
    match serialized_len {
        None => Err(ProjectShareError::Unavailable),
        Some(n) => if n >= MAX_PROJECT_DOCUMENT_BYTES {
            Err(ProjectShareError::PayloadTooLarge)
        } else {
            Ok(())
        },
    }
}

/// The instant a share made at `now` expires.
pub open spec fn share_expiry(now: int) -> int {
    now + SHARE_LIFETIME_DAYS * 86_400 * NANOS_PER_SECOND
}

/// The text of an instant, when it has one that reads back as the instant.
pub open spec fn instant_text(t: int) -> Option<Seq<char>> {
    if rfc3339_renderable(t) && rfc3339_parse(rfc3339_text(t)) == Some((t as i128, 0i32)) {
        Some(rfc3339_text(t))
    } else {
        None
    }
}

fn format_instant(t: i128) -> (r: Result<String, ProjectShareError>)
    ensures
        match instant_text(t as int) {
            Some(text) => r matches Ok(s) && s@ == text,
            None => r == Err::<String, ProjectShareError>(ProjectShareError::Unavailable),
        },
{
    match format_rfc3339(t) {
        Some(s) => Ok(s),
        None => Err(ProjectShareError::Unavailable),
    }
}

/// The share of a project made at `now`, unless its timestamps have no text.
pub open spec fn share_of(
    owner: Seq<char>,
    project_id: u128,
    project: EditableProject,
    credentials: ProjectShareCredentials,
    now: int,
) -> Option<ShareView> {
    match (instant_text(now), instant_text(share_expiry(now))) {
        (Some(created), Some(expires)) => Some(
            ShareView {
                id: credentials.share_id,
                document_type: PROJECT_SHARE_DOCUMENT_TYPE@,
                partition_key: PROJECT_SHARE_PARTITION@,
                source_owner_id: owner,
                source_project_id: project_id,
                secret_sha256: secret_digest(credentials.secret),
                project,
                created_at: created,
                expires_at: expires,
            },
        ),
        _ => None,
    }
}

/// Making a share at `now`: the share, given the length of its serialization.
pub open spec fn share_creation(
    owner: Seq<char>,
    project_id: u128,
    project: EditableProject,
    credentials: ProjectShareCredentials,
    now: int,
    serialized_len: Option<usize>,
) -> Result<ShareView, ProjectShareError> {
    match share_of(owner, project_id, project, credentials, now) {
        None => Err(ProjectShareError::Unavailable),
        Some(v) => match share_error(v, credentials.share_id, serialized_len) {
            Some(e) => Err(e),
            None => Ok(v),
        },
    }
}

/// Makes the share of a project for these credentials at `now` (nanoseconds
/// since the Unix epoch), valid for 30 days.
pub fn new_share_document<K: ProjectShareCodec>(
    codec: &K,
    source_owner_id: &str,
    source_project_id: u128,
    project: EditableProject,
    credentials: &ProjectShareCredentials,
    now: i128,
) -> (r: Result<ProjectShareDocument, ProjectShareError>)
    ensures
        exists|serialized_len: Option<usize>|
            match #[trigger] share_creation(source_owner_id@, source_project_id, project, *credentials, now as int, serialized_len) {
                Ok(v) => r matches Ok(d) && d@ == v,
                Err(e) => r == Err::<ProjectShareDocument, ProjectShareError>(e),
            },
{
    let ghost p0 = project;
    let lifetime: i128 = (SHARE_LIFETIME_DAYS as i128) * 86_400 * NANOS_PER_SECOND;
    let expires = match now.checked_add(lifetime) {
        Some(t) => t,
        None => {
            assert(share_creation(source_owner_id@, source_project_id, p0, *credentials, now as int, None) is Err);
            return Err(ProjectShareError::Unavailable);
        },
    };
    let created_at = match format_instant(now) {
        Ok(t) => t,
        Err(e) => {
            assert(share_creation(source_owner_id@, source_project_id, p0, *credentials, now as int, None) is Err);
            return Err(e);
        },
    };
    let expires_at = match format_instant(expires) {
        Ok(t) => t,
        Err(e) => {
            assert(share_creation(source_owner_id@, source_project_id, p0, *credentials, now as int, None) is Err);
            return Err(e);
        },
    };
    let document = ProjectShareDocument {
        id: credentials.share_id,
        document_type: PROJECT_SHARE_DOCUMENT_TYPE.to_owned(),
        partition_key: share_partition(),
        source_owner_id: source_owner_id.to_owned(),
        source_project_id,
        secret_sha256: digest_secret(credentials.secret),
        project,
        created_at,
        expires_at,
    };
    let serialized_len = codec.share_json_len(&document);
    let ghost outcome = share_creation(source_owner_id@, source_project_id, p0, *credentials, now as int, serialized_len);
    match validate_document(&document, credentials.share_id, serialized_len) {
        Ok(()) => {},
        Err(e) => {
            assert(outcome == Err::<ShareView, ProjectShareError>(e));
            return Err(e);
        },
    }
    assert(outcome == Ok::<ShareView, ProjectShareError>(document@));
    Ok(document)
}

/// What opening a share at `now` answers, given the length of its
/// serialization: `NotFound` for a wrong secret, `Expired` from its expiry on.
pub open spec fn resolve_error(
    v: ShareView,
    credentials: ProjectShareCredentials,
    now: int,
    serialized_len: Option<usize>,
) -> Option<ProjectShareError> {
    if share_error(v, credentials.share_id, serialized_len) is Some {
        share_error(v, credentials.share_id, serialized_len)
    } else if v.secret_sha256 != secret_digest(credentials.secret) {
        Some(ProjectShareError::NotFound)
    } else {
        match rfc3339_parse(v.expires_at) {
            None => Some(ProjectShareError::Unavailable),
            Some((expires, _)) => if now >= expires {
                Some(ProjectShareError::Expired)
            } else {
                None
            },
        }
    }
}

/// Checks a stored share before its owner revokes it: a share that does not
/// validate (with the expected id, its serialization of `serialized_len`
/// bytes) answers as validation does; a share of another owner or project is
/// not found.
pub fn revocation_check(
    document: &ProjectShareDocument,
    source_owner_id: &str,
    source_project_id: u128,
    share_id: u128,
    serialized_len: Option<usize>,
) -> (r: Result<(), ProjectShareError>)
    ensures
        match share_error(document@, share_id, serialized_len) {
            Some(e) => r == Err::<(), ProjectShareError>(e),
            None => if document.source_owner_id@ == source_owner_id@ && document.source_project_id == source_project_id {
                r is Ok
            } else {
                r == Err::<(), ProjectShareError>(ProjectShareError::NotFound)
            },
        },
{
    match validate_document(document, share_id, serialized_len) {
        Ok(()) => {},
        Err(e) => {
            return Err(e);
        },
    }
    if !text_equals(document.source_owner_id.as_str(), source_owner_id) || document.source_project_id
        != source_project_id {
        return Err(ProjectShareError::NotFound);
    }
    Ok(())
}

/// Opens a share with its credentials at `now`: a copy of the shared project.
pub fn resolve_document(
    document: &ProjectShareDocument,
    credentials: &ProjectShareCredentials,
    now: i128,
    serialized_len: Option<usize>,
) -> (r: Result<EditableProject, ProjectShareError>)
    ensures
        match resolve_error(document@, *credentials, now as int, serialized_len) {
            Some(e) => r == Err::<EditableProject, ProjectShareError>(e),
            None => r matches Ok(p) && project_fields(p) == project_fields(document.project) && same_resources(
                p.resources@,
                document.project.resources@,
            ),
        },
{
    match validate_document(document, credentials.share_id, serialized_len) {
        Ok(()) => {},
        Err(e) => {
            return Err(e);
        },
    }
    let digest = digest_secret(credentials.secret);
    if !text_equals(document.secret_sha256.as_str(), digest.as_str()) {
        return Err(ProjectShareError::NotFound);
    }
    let expires = match parse_rfc3339(document.expires_at.as_str()) {
        Some((t, _)) => t,
        None => {
            return Err(ProjectShareError::Unavailable);
        },
    };
    if now >= expires {
        return Err(ProjectShareError::Expired);
    }
    Ok(copy_project(&document.project))
}

// ---------------------------------------------------------------------------
// The share store.
// ---------------------------------------------------------------------------

spec fn shares_distinct(records: Seq<ProjectShareDocument>) -> bool {
    forall|i: int, j: int| 0 <= i < j < records.len() ==> records[i].id != records[j].id
}

spec fn share_map(records: Seq<ProjectShareDocument>) -> Map<u128, ShareView> {
    Map::new(
        |k: u128| exists|i: int| 0 <= i < records.len() && records[i].id == k,
        |k: u128| records[choose|i: int| 0 <= i < records.len() && records[i].id == k]@,
    )
}

proof fn lemma_share_map_at(records: Seq<ProjectShareDocument>, j: int)
    requires
        shares_distinct(records),
        0 <= j < records.len(),
    ensures
        share_map(records).contains_key(records[j].id),
        share_map(records)[records[j].id] == records[j]@,
{
    let k = records[j].id;
    assert(share_map(records).contains_key(k));
    let c = choose|i: int| 0 <= i < records.len() && records[i].id == k;
    assert(c == j);
}

proof fn lemma_share_map_set(before: Seq<ProjectShareDocument>, i: int, d: ProjectShareDocument)
    requires
        shares_distinct(before),
        0 <= i < before.len(),
        d.id == before[i].id,
    ensures
        shares_distinct(before.update(i, d)),
        share_map(before.update(i, d)) == share_map(before).insert(d.id, d@),
{
    let after = before.update(i, d);
    assert forall|a: int, b: int| 0 <= a < b < after.len() implies after[a].id != after[b].id by {
        assert(after[a].id == before[a].id && after[b].id == before[b].id);
    }
    let m = share_map(after);
    let n = share_map(before).insert(d.id, d@);
    assert forall|o: u128| #[trigger] m.contains_key(o) <==> n.contains_key(o) by {
        if m.contains_key(o) {
            let j = choose|j: int| 0 <= j < after.len() && after[j].id == o;
            assert(before[j].id == o);
        }
        if share_map(before).contains_key(o) {
            let j = choose|j: int| 0 <= j < before.len() && before[j].id == o;
            assert(after[j].id == o);
        }
        if o == d.id {
            assert(after[i].id == o);
        }
    }
    assert forall|o: u128| #[trigger] m.contains_key(o) implies m[o] == n[o] by {
        let j = choose|j: int| 0 <= j < after.len() && after[j].id == o;
        lemma_share_map_at(after, j);
        if j != i {
            lemma_share_map_at(before, j);
        }
    }
    assert(m =~= n);
}

proof fn lemma_share_map_push(before: Seq<ProjectShareDocument>, d: ProjectShareDocument)
    requires
        shares_distinct(before),
        !share_map(before).contains_key(d.id),
    ensures
        shares_distinct(before.push(d)),
        share_map(before.push(d)) == share_map(before).insert(d.id, d@),
{
    let after = before.push(d);
    let n_before = before.len() as int;
    assert forall|a: int, b: int| 0 <= a < b < after.len() implies after[a].id != after[b].id by {
        if b == n_before {
            assert(after[a] == before[a]);
            if before[a].id == d.id {
                assert(share_map(before).contains_key(d.id));
            }
        } else {
            assert(after[a] == before[a] && after[b] == before[b]);
        }
    }
    let m = share_map(after);
    let n = share_map(before).insert(d.id, d@);
    assert forall|o: u128| #[trigger] m.contains_key(o) <==> n.contains_key(o) by {
        if m.contains_key(o) {
            let j = choose|j: int| 0 <= j < after.len() && after[j].id == o;
            if j < n_before {
                assert(after[j] == before[j]);
            }
        }
        if share_map(before).contains_key(o) {
            let j = choose|j: int| 0 <= j < before.len() && before[j].id == o;
            assert(after[j] == before[j]);
        }
        if o == d.id {
            assert(after[n_before].id == o);
        }
    }
    assert forall|o: u128| #[trigger] m.contains_key(o) implies m[o] == n[o] by {
        let j = choose|j: int| 0 <= j < after.len() && after[j].id == o;
        lemma_share_map_at(after, j);
        if j != n_before {
            assert(after[j] == before[j]);
            lemma_share_map_at(before, j);
        }
    }
    assert(m =~= n);
}

proof fn lemma_share_map_remove(before: Seq<ProjectShareDocument>, i: int)
    requires
        shares_distinct(before),
        0 <= i < before.len(),
    ensures
        shares_distinct(before.remove(i)),
        share_map(before.remove(i)) == share_map(before).remove(before[i].id),
{
    let after = before.remove(i);
    let k = before[i].id;
    assert forall|a: int, b: int| 0 <= a < b < after.len() implies after[a].id != after[b].id by {
        let a0 = if a < i { a } else { a + 1 };
        let b0 = if b < i { b } else { b + 1 };
        assert(after[a] == before[a0] && after[b] == before[b0]);
    }
    let m = share_map(after);
    let n = share_map(before).remove(k);
    assert forall|o: u128| #[trigger] m.contains_key(o) <==> n.contains_key(o) by {
        if m.contains_key(o) {
            let j = choose|j: int| 0 <= j < after.len() && after[j].id == o;
            let j0 = if j < i { j } else { j + 1 };
            assert(after[j] == before[j0]);
            assert(share_map(before).contains_key(o));
        }
        if n.contains_key(o) {
            let j = choose|j: int| 0 <= j < before.len() && before[j].id == o;
            assert(j != i);
            let j1 = if j < i { j } else { j - 1 };
            assert(after[j1] == before[j]);
        }
    }
    assert forall|o: u128| #[trigger] m.contains_key(o) implies m[o] == n[o] by {
        let j = choose|j: int| 0 <= j < after.len() && after[j].id == o;
        let j0 = if j < i { j } else { j + 1 };
        assert(after[j] == before[j0]);
        lemma_share_map_at(after, j);
        lemma_share_map_at(before, j0);
    }
    assert(m =~= n);
}

/// Creating a share at `now`: its expiry text and the shares after, given the
/// length of its serialization.
pub open spec fn share_create_outcome(
    m: Map<u128, ShareView>,
    owner: Seq<char>,
    project_id: u128,
    project: EditableProject,
    credentials: ProjectShareCredentials,
    now: int,
    serialized_len: Option<usize>,
) -> (Result<Seq<char>, ProjectShareError>, Map<u128, ShareView>) {
    match share_creation(owner, project_id, project, credentials, now, serialized_len) {
        Ok(v) => (Ok(v.expires_at), m.insert(credentials.share_id, v)),
        Err(e) => (Err(e), m),
    }
}

/// Opening a share at `now`: the shared project and the shares after; an
/// expired share is dropped.
pub open spec fn resolve_outcome(
    m: Map<u128, ShareView>,
    credentials: ProjectShareCredentials,
    now: int,
    serialized_len: Option<usize>,
) -> (Result<ProjectFields, ProjectShareError>, Map<u128, ShareView>) {
    let id = credentials.share_id;
    if !m.contains_key(id) {
        (Err(ProjectShareError::NotFound), m)
    } else {
        match resolve_error(m[id], credentials, now, serialized_len) {
            Some(ProjectShareError::Expired) => (Err(ProjectShareError::Expired), m.remove(id)),
            Some(e) => (Err(e), m),
            None => (Ok(project_fields(m[id].project)), m),
        }
    }
}

/// Revoking one share: only its owner, naming its project, removes it.
pub open spec fn revoke_outcome(m: Map<u128, ShareView>, owner: Seq<char>, project_id: u128, share_id: u128) -> (
    Result<(), ProjectShareError>,
    Map<u128, ShareView>,
) {
    if !m.contains_key(share_id) || m[share_id].source_owner_id != owner || m[share_id].source_project_id
        != project_id {
        (Err(ProjectShareError::NotFound), m)
    } else {
        (Ok(()), m.remove(share_id))
    }
}

/// The shares left once an owner revokes every share of a project.
pub open spec fn revoke_project_outcome(m: Map<u128, ShareView>, owner: Seq<char>, project_id: u128) -> Map<
    u128,
    ShareView,
> {
    Map::new(
        |k: u128| m.contains_key(k) && !(m[k].source_owner_id == owner && m[k].source_project_id == project_id),
        |k: u128| m[k],
    )
}

pub open spec fn fields_result(r: Result<EditableProject, ProjectShareError>) -> Result<ProjectFields, ProjectShareError> {
    match r {
        Ok(p) => Ok(project_fields(p)),
        Err(e) => Err(e),
    }
}

pub open spec fn expiry_result(r: Result<CreatedProjectShare, ProjectShareError>) -> Result<Seq<char>, ProjectShareError> {
    match r {
        Ok(c) => Ok(c.expires_at@),
        Err(e) => Err(e),
    }
}

/// Shares kept in memory by share id, written out through a codec.
pub struct InMemoryProjectShareRepository<K: ProjectShareCodec> {
    shares: Vec<ProjectShareDocument>,
    codec: K,
}

impl<K: ProjectShareCodec> View for InMemoryProjectShareRepository<K> {
    type V = Map<u128, ShareView>;

    closed spec fn view(&self) -> Map<u128, ShareView> {
        share_map(self.shares@)
    }
}

impl<K: ProjectShareCodec> InMemoryProjectShareRepository<K> {
    #[verifier::type_invariant]
    spec fn wf(self) -> bool {
        shares_distinct(self.shares@)
    }

    /// An empty store that writes documents out through `codec`.
    pub fn new(codec: K) -> (r: InMemoryProjectShareRepository<K>)
        ensures
            r@ == Map::<u128, ShareView>::empty(),
    {
        let r = InMemoryProjectShareRepository { shares: Vec::new(), codec };
        assert(r@ =~= Map::<u128, ShareView>::empty());
        r
    }

    fn find(&self, share_id: u128) -> (r: Option<usize>)
        ensures
            match r {
                Some(i) => i < self.shares@.len() && self.shares@[i as int].id == share_id,
                None => !self@.contains_key(share_id),
            },
    {
        let mut i: usize = 0;
        while i < self.shares.len()
            invariant
                i <= self.shares@.len(),
                forall|k: int| 0 <= k < i ==> self.shares@[k].id != share_id,
            decreases self.shares@.len() - i,
        {
            if self.shares[i].id == share_id {
                return Some(i);
            }
            i = i + 1;
        }
        None
    }

    fn remove_at(&mut self, i: usize)
        requires
            i < old(self).shares@.len(),
        ensures
            final(self)@ == old(self)@.remove(old(self).shares@[i as int].id),
    {
        proof {
            use_type_invariant(&*self);
            lemma_share_map_remove(self.shares@, i as int);
        }
        let mut records: Vec<ProjectShareDocument> = Vec::new();
        std::mem::swap(&mut records, &mut self.shares);
        records.remove(i);
        self.shares = records;
    }

    /// Shares a project of the owner under these credentials at `now`
    /// (nanoseconds since the Unix epoch).
    pub fn create_at(
        &mut self,
        source_owner_id: &str,
        source_project_id: u128,
        project: EditableProject,
        credentials: ProjectShareCredentials,
        now: i128,
    ) -> (r: Result<CreatedProjectShare, ProjectShareError>)
        ensures
            exists|serialized_len: Option<usize>|
                (expiry_result(r), final(self)@) == #[trigger] share_create_outcome(
                    old(self)@,
                    source_owner_id@,
                    source_project_id,
                    project,
                    credentials,
                    now as int,
                    serialized_len,
                ),
            r matches Ok(c) ==> c.credentials == credentials,
    {
        proof {
            use_type_invariant(&*self);
        }
        let ghost p0 = project;
        let result = new_share_document(&self.codec, source_owner_id, source_project_id, project, &credentials, now);
        let ghost len = choose|len: Option<usize>|
            match #[trigger] share_creation(source_owner_id@, source_project_id, p0, credentials, now as int, len) {
                Ok(v) => result matches Ok(d) && d@ == v,
                Err(e) => result == Err::<ProjectShareDocument, ProjectShareError>(e),
            };
        let ghost outcome = share_create_outcome(self@, source_owner_id@, source_project_id, p0, credentials, now as int, len);
        let document = match result {
            Ok(d) => d,
            Err(e) => {
                assert(outcome.0 == Err::<Seq<char>, ProjectShareError>(e));
                return Err(e);
            },
        };
        let expires_at = document.expires_at.clone();
        let ghost before = self.shares@;
        match self.find(credentials.share_id) {
            Some(i) => {
                proof {
                    lemma_share_map_set(before, i as int, document);
                }
                let mut records: Vec<ProjectShareDocument> = Vec::new();
                std::mem::swap(&mut records, &mut self.shares);
                records.set(i, document);
                self.shares = records;
            },
            None => {
                proof {
                    lemma_share_map_push(before, document);
                }
                let mut records: Vec<ProjectShareDocument> = Vec::new();
                std::mem::swap(&mut records, &mut self.shares);
                records.push(document);
                self.shares = records;
            },
        }
        assert(outcome.1 == self@);
        Ok(CreatedProjectShare { credentials, expires_at })
    }

    /// Opens a share with its credentials at `now` (nanoseconds since the Unix
    /// epoch); a share found expired is dropped.
    pub fn resolve_at(&mut self, credentials: &ProjectShareCredentials, now: i128) -> (r: Result<
        EditableProject,
        ProjectShareError,
    >)
        ensures
            exists|serialized_len: Option<usize>|
                (fields_result(r), final(self)@) == #[trigger] resolve_outcome(
                    old(self)@,
                    *credentials,
                    now as int,
                    serialized_len,
                ),
            r matches Ok(p) ==> old(self)@.contains_key(credentials.share_id) && same_resources(
                p.resources@,
                old(self)@[credentials.share_id].project.resources@,
            ),
    {
        proof {
            use_type_invariant(&*self);
        }
        let ghost m = self@;
        let i = match self.find(credentials.share_id) {
            Some(i) => i,
            None => {
                assert(resolve_outcome(m, *credentials, now as int, None).0 == Err::<ProjectFields, ProjectShareError>(
                    ProjectShareError::NotFound,
                ));
                return Err(ProjectShareError::NotFound);
            },
        };
        proof {
            lemma_share_map_at(self.shares@, i as int);
        }
        let serialized_len = self.codec.share_json_len(&self.shares[i]);
        let ghost outcome = resolve_outcome(m, *credentials, now as int, serialized_len);
        let result = resolve_document(&self.shares[i], credentials, now, serialized_len);
        match result {
            Err(ProjectShareError::Expired) => {
                self.remove_at(i);
            },
            _ => {},
        }
        assert(outcome.1 == self@);
        result
    }

    /// Revokes one share of the owner's project.
    pub fn revoke(&mut self, source_owner_id: &str, source_project_id: u128, share_id: u128) -> (r: Result<
        (),
        ProjectShareError,
    >)
        ensures
            (r, final(self)@) == revoke_outcome(old(self)@, source_owner_id@, source_project_id, share_id),
    {
        proof {
            use_type_invariant(&*self);
        }
        let i = match self.find(share_id) {
            Some(i) => i,
            None => {
                return Err(ProjectShareError::NotFound);
            },
        };
        proof {
            lemma_share_map_at(self.shares@, i as int);
        }
        let document = &self.shares[i];
        if !text_equals(document.source_owner_id.as_str(), source_owner_id) || document.source_project_id
            != source_project_id {
            return Err(ProjectShareError::NotFound);
        }
        self.remove_at(i);
        Ok(())
    }

    /// Revokes every share of the owner's project.
    pub fn revoke_project(&mut self, source_owner_id: &str, source_project_id: u128) -> (r: Result<
        (),
        ProjectShareError,
    >)
        ensures
            r is Ok,
            final(self)@ == revoke_project_outcome(old(self)@, source_owner_id@, source_project_id),
    {
        proof {
            use_type_invariant(&*self);
        }
        let ghost records = self.shares@;
        let ghost o = source_owner_id@;
        let mut rest: Vec<ProjectShareDocument> = Vec::new();
        std::mem::swap(&mut rest, &mut self.shares);
        let total = rest.len();
        assert(records.len() == total);
        let mut kept: Vec<ProjectShareDocument> = Vec::new();
        let ghost mut origin: Seq<int> = Seq::empty();
        let ghost mut pos: Seq<int> = Seq::empty();
        let mut i: usize = 0;
        while rest.len() > 0
            invariant
                shares_distinct(records),
                records.len() <= usize::MAX,
                o == source_owner_id@,
                i <= records.len(),
                rest@ == records.subrange(i as int, records.len() as int),
                pos.len() == i,
                origin.len() == kept@.len(),
                forall|q: int|
                    0 <= q < kept@.len() ==> 0 <= #[trigger] origin[q] < i && kept@[q] == records[origin[q]]
                        && !(records[origin[q]].source_owner_id@ == o && records[origin[q]].source_project_id
                        == source_project_id),
                forall|j: int|
                    0 <= j < i && !(records[j].source_owner_id@ == o && records[j].source_project_id
                        == source_project_id) ==> 0 <= #[trigger] pos[j] < kept@.len() && kept@[pos[j]] == records[j],
                forall|a: int, b: int| 0 <= a < b < kept@.len() ==> origin[a] < origin[b],
            decreases rest@.len(),
        {
            let document = rest.remove(0);
            assert(document == records[i as int]);
            let revoked = text_equals(document.source_owner_id.as_str(), source_owner_id)
                && document.source_project_id == source_project_id;
            if !revoked {
                proof {
                    pos = pos.push(kept@.len() as int);
                    origin = origin.push(i as int);
                }
                kept.push(document);
            } else {
                proof {
                    pos = pos.push(0);
                }
            }
            i = i + 1;
            assert(rest@ =~= records.subrange(i as int, records.len() as int));
        }
        proof {
            assert(i == records.len());
            assert forall|a: int, b: int| 0 <= a < b < kept@.len() implies kept@[a].id != kept@[b].id by {
                assert(origin[a] < origin[b]);
            }
            let m = share_map(records);
            let n = revoke_project_outcome(m, o, source_project_id);
            let km = share_map(kept@);
            assert forall|k: u128| #[trigger] km.contains_key(k) <==> n.contains_key(k) by {
                if km.contains_key(k) {
                    let q = choose|q: int| 0 <= q < kept@.len() && kept@[q].id == k;
                    lemma_share_map_at(records, origin[q]);
                }
                if n.contains_key(k) {
                    let j = choose|j: int| 0 <= j < records.len() && records[j].id == k;
                    lemma_share_map_at(records, j);
                    assert(kept@[pos[j]].id == k);
                }
            }
            assert forall|k: u128| #[trigger] km.contains_key(k) implies km[k] == n[k] by {
                let q = choose|q: int| 0 <= q < kept@.len() && kept@[q].id == k;
                lemma_share_map_at(kept@, q);
                lemma_share_map_at(records, origin[q]);
            }
            assert(km =~= n);
        }
        self.shares = kept;
        Ok(())
    }
}

/// Where shared projects are kept, by share id.
pub trait ProjectShareRepository {
    fn create(&mut self, source_owner_id: &str, source_project_id: u128, project: EditableProject) -> Result<
        CreatedProjectShare,
        ProjectShareError,
    >;

    fn resolve(&mut self, credentials: &ProjectShareCredentials) -> Result<EditableProject, ProjectShareError>;

    fn revoke(&mut self, source_owner_id: &str, source_project_id: u128, share_id: u128) -> Result<
        (),
        ProjectShareError,
    >;

    fn revoke_project(&mut self, source_owner_id: &str, source_project_id: u128) -> Result<(), ProjectShareError>;
}

impl<K: ProjectShareCodec> ProjectShareRepository for InMemoryProjectShareRepository<K> {
    /// Shares a project under a random share id and secret, valid for 30 days from now.
    fn create(&mut self, source_owner_id: &str, source_project_id: u128, project: EditableProject) -> (r: Result<
        CreatedProjectShare,
        ProjectShareError,
    >)
        ensures
            exists|credentials: ProjectShareCredentials, now: i128, serialized_len: Option<usize>|
                (expiry_result(r), final(self)@) == #[trigger] share_create_outcome(
                    old(self)@,
                    source_owner_id@,
                    source_project_id,
                    project,
                    credentials,
                    now as int,
                    serialized_len,
                ) && (r matches Ok(c) ==> c.credentials == credentials),
    {
        let credentials = ProjectShareCredentials { share_id: new_uuid(), secret: new_uuid() };
        let now = current_instant();
        self.create_at(source_owner_id, source_project_id, project, credentials, now)
    }

    /// Opens a share with its credentials now.
    fn resolve(&mut self, credentials: &ProjectShareCredentials) -> (r: Result<EditableProject, ProjectShareError>)
        ensures
            exists|now: i128, serialized_len: Option<usize>|
                (fields_result(r), final(self)@) == #[trigger] resolve_outcome(
                    old(self)@,
                    *credentials,
                    now as int,
                    serialized_len,
                ),
            r matches Ok(p) ==> old(self)@.contains_key(credentials.share_id) && same_resources(
                p.resources@,
                old(self)@[credentials.share_id].project.resources@,
            ),
    {
        let now = current_instant();
        self.resolve_at(credentials, now)
    }

    /// Revokes one share of the owner's project.
    fn revoke(&mut self, source_owner_id: &str, source_project_id: u128, share_id: u128) -> (r: Result<
        (),
        ProjectShareError,
    >)
        ensures
            (r, final(self)@) == revoke_outcome(old(self)@, source_owner_id@, source_project_id, share_id),
    {
        InMemoryProjectShareRepository::revoke(self, source_owner_id, source_project_id, share_id)
    }

    /// Revokes every share of the owner's project.
    fn revoke_project(&mut self, source_owner_id: &str, source_project_id: u128) -> (r: Result<
        (),
        ProjectShareError,
    >)
        ensures
            r is Ok,
            final(self)@ == revoke_project_outcome(old(self)@, source_owner_id@, source_project_id),
    {
        InMemoryProjectShareRepository::revoke_project(self, source_owner_id, source_project_id)
    }
}

// ---------------------------------------------------------------------------
// Laws of the share store.
// ---------------------------------------------------------------------------

/// A new share opens with its credentials until it expires, giving the shared
/// project, as long as its serialization measures as it did when it was made.
pub proof fn lemma_share_opens_with_its_credentials(
    m: Map<u128, ShareView>,
    owner: Seq<char>,
    project_id: u128,
    project: EditableProject,
    credentials: ProjectShareCredentials,
    now: int,
    serialized_len: Option<usize>,
    later: int,
)
    requires
        share_create_outcome(m, owner, project_id, project, credentials, now, serialized_len).0 is Ok,
        later < share_expiry(now),
    ensures
        resolve_outcome(
            share_create_outcome(m, owner, project_id, project, credentials, now, serialized_len).1,
            credentials,
            later,
            serialized_len,
        ) == (
            Ok::<ProjectFields, ProjectShareError>(project_fields(project)),
            share_create_outcome(m, owner, project_id, project, credentials, now, serialized_len).1,
        ),
{
}

/// A share opens only with its secret: whatever opens it has the secret whose
/// digest is kept, and a valid share asked for with another secret is not found
/// and stays as it was.
pub proof fn lemma_share_requires_its_secret(
    m: Map<u128, ShareView>,
    credentials: ProjectShareCredentials,
    now: int,
    serialized_len: Option<usize>,
)
    ensures
        resolve_outcome(m, credentials, now, serialized_len).0 is Ok ==> m.contains_key(credentials.share_id)
            && m[credentials.share_id].secret_sha256 == secret_digest(credentials.secret),
        m.contains_key(credentials.share_id) && share_error(m[credentials.share_id], credentials.share_id, serialized_len)
            is None && m[credentials.share_id].secret_sha256 != secret_digest(credentials.secret) ==> resolve_outcome(
            m,
            credentials,
            now,
            serialized_len,
        ) == (Err::<ProjectFields, ProjectShareError>(ProjectShareError::NotFound), m),
{
}

/// A share made at `now` is refused as expired from its expiry on, and dropped.
pub proof fn lemma_expired_share_is_rejected(
    m: Map<u128, ShareView>,
    owner: Seq<char>,
    project_id: u128,
    project: EditableProject,
    credentials: ProjectShareCredentials,
    now: int,
    serialized_len: Option<usize>,
    later: int,
)
    requires
        share_create_outcome(m, owner, project_id, project, credentials, now, serialized_len).0 is Ok,
        later >= share_expiry(now),
    ensures
        ({
            let m1 = share_create_outcome(m, owner, project_id, project, credentials, now, serialized_len).1;
            let (r, m2) = resolve_outcome(m1, credentials, later, serialized_len);
            &&& r == Err::<ProjectFields, ProjectShareError>(ProjectShareError::Expired)
            &&& !m2.contains_key(credentials.share_id)
        }),
{
}

/// Revocation is owner-scoped: a share is revoked only by its owner naming its
/// project; anyone else is told it was not found, and nothing changes.
pub proof fn lemma_revocation_is_owner_scoped(
    m: Map<u128, ShareView>,
    owner: Seq<char>,
    project_id: u128,
    share_id: u128,
)
    requires
        m.contains_key(share_id),
        m[share_id].source_owner_id != owner || m[share_id].source_project_id != project_id,
    ensures
        revoke_outcome(m, owner, project_id, share_id) == (Err::<(), ProjectShareError>(ProjectShareError::NotFound), m),
{
}

/// Once an owner revokes a project's shares, none of them opens: each is not found.
pub proof fn lemma_revoked_shares_are_gone(
    m: Map<u128, ShareView>,
    owner: Seq<char>,
    project_id: u128,
    credentials: ProjectShareCredentials,
    now: int,
    serialized_len: Option<usize>,
)
    requires
        m.contains_key(credentials.share_id),
        m[credentials.share_id].source_owner_id == owner,
        m[credentials.share_id].source_project_id == project_id,
    ensures
        resolve_outcome(revoke_project_outcome(m, owner, project_id), credentials, now, serialized_len).0 == Err::<
            ProjectFields,
            ProjectShareError,
        >(ProjectShareError::NotFound),
{
}

} // verus!
