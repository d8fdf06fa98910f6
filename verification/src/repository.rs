use vstd::prelude::*;

use crate::config::{FORMULA_VERSION, SCHEMA_VERSION};
use crate::engine::CalculationRevision;
use crate::ids::new_uuid;
use crate::instant::{current_instant, format_rfc3339, rfc3339_renderable, rfc3339_text, utc_instant, valid_instant};
use crate::project::{EditableProject, ProjectDocument, ProjectSettings, SqlPaygSettings};
use crate::resource::{duplicate_resources, same_resources, Resource};
use crate::text::{
    bytes_order, decimal_digits, join_text, lemma_decimal_digits_injective, lemma_lex_less_asymmetric, lemma_lex_less_transitive, lemma_lex_total,
    lex_less, text_equals, u64_text,
};
use vstd::string::StringSliceAdditionalSpecFns;
use vstd::utf8::encode_utf8;

verus! {

/// The largest JSON serialization of a project document that is stored, exclusive.
pub const MAX_PROJECT_DOCUMENT_BYTES: usize = 1_800_000;

pub const PROJECT_DOCUMENT_TYPE: &'static str = "project";

#[derive(Clone, Copy, Debug, PartialEq, Eq, Structural)]
pub enum RepositoryError {
    NotFound,
    PreconditionFailed,
    PayloadTooLarge,
    Unavailable,
}

impl RepositoryError {
    /// The error's message as text.
    pub open spec fn spec_message(&self) -> Seq<char> {
        match self {
            RepositoryError::NotFound => "project was not found"@,
            RepositoryError::PreconditionFailed => "project ETag did not match"@,
            RepositoryError::PayloadTooLarge => "project document exceeds the persistence limit"@,
            RepositoryError::Unavailable => "persistence service is unavailable"@,
        }
    }

    /// The error's message.
    pub fn message(&self) -> (r: &'static str)
        ensures
            r@ == self.spec_message(),
    {
        match self {
            RepositoryError::NotFound => "project was not found",
            RepositoryError::PreconditionFailed => "project ETag did not match",
            RepositoryError::PayloadTooLarge => "project document exceeds the persistence limit",
            RepositoryError::Unavailable => "persistence service is unavailable",
        }
    }
}

pub open spec fn as_result(e: Option<RepositoryError>) -> Result<(), RepositoryError> {
    match e {
        Some(e) => Err(e),
        None => Ok(()),
    }
}

pub open spec fn opt_text(value: Option<String>) -> Option<Seq<char>> {
    match value {
        Some(s) => Some(s@),
        None => None,
    }
}

pub open spec fn revision_view(value: Option<CalculationRevision>) -> Option<Seq<char>> {
    match value {
        Some(r) => Some(r.formula_version@),
        None => None,
    }
}

/// What a project document says of itself, as plain values: everything but its
/// settings and resources, with the latest calculation revision by its formula version.
pub struct ProjectSummary {
    pub id: u128,
    pub document_type: Seq<char>,
    pub owner_id: Seq<char>,
    pub name: Seq<char>,
    pub description: Option<Seq<char>>,
    pub aws_price_snapshot_id: Option<Seq<char>>,
    pub azure_price_snapshot_id: Option<Seq<char>>,
    pub latest_calculation_revision: Option<Seq<char>>,
    pub formula_version: Seq<char>,
    pub schema_version: Seq<char>,
    pub created_at: Seq<char>,
    pub updated_at: Seq<char>,
    pub etag: Seq<char>,
}

pub open spec fn summary(d: ProjectDocument) -> ProjectSummary {
    ProjectSummary {
        id: d.id,
        document_type: d.document_type@,
        owner_id: d.owner_id@,
        name: d.name@,
        description: opt_text(d.description),
        aws_price_snapshot_id: opt_text(d.aws_price_snapshot_id),
        azure_price_snapshot_id: opt_text(d.azure_price_snapshot_id),
        latest_calculation_revision: revision_view(d.latest_calculation_revision),
        formula_version: d.formula_version@,
        schema_version: d.schema_version@,
        created_at: d.created_at@,
        updated_at: d.updated_at@,
        etag: d.etag@,
    }
}

/// The entity tag of a stored project version.
pub open spec fn project_etag_text(version: u64) -> Seq<char> {
    "\""@ + decimal_digits(version as nat) + "\""@
}

/// The entity tag of a stored project version.
pub fn etag(version: u64) -> (r: String)
    ensures
        r@ == project_etag_text(version),
{
    let digits = u64_text(version);
    let head = join_text("\"", digits.as_str());
    join_text(head.as_str(), "\"")
}

/// The summary of a new document of the owner for an edited project.
pub open spec fn new_summary(
    owner_id: Seq<char>,
    id: u128,
    project: EditableProject,
    revision: Option<Seq<char>>,
    timestamp: Seq<char>,
    etag: Seq<char>,
) -> ProjectSummary {
    ProjectSummary {
        id,
        document_type: PROJECT_DOCUMENT_TYPE@,
        owner_id,
        name: project.name@,
        description: opt_text(project.description),
        aws_price_snapshot_id: opt_text(project.aws_price_snapshot_id),
        azure_price_snapshot_id: opt_text(project.azure_price_snapshot_id),
        latest_calculation_revision: revision,
        formula_version: FORMULA_VERSION@,
        schema_version: SCHEMA_VERSION@,
        created_at: timestamp,
        updated_at: timestamp,
        etag,
    }
}

/// The summary of a stored document after an edit: it keeps its id, owner and
/// creation time.
pub open spec fn updated_summary(
    stored: ProjectSummary,
    project: EditableProject,
    revision: Option<Seq<char>>,
    timestamp: Seq<char>,
    etag: Seq<char>,
) -> ProjectSummary {
    ProjectSummary {
        created_at: stored.created_at,
        ..new_summary(stored.owner_id, stored.id, project, revision, timestamp, etag)
    }
}

/// Builds a new document of the owner for an edited project.
pub fn build_project_document(
    owner_id: &str,
    id: u128,
    project: EditableProject,
    calculation_revision: Option<CalculationRevision>,
    timestamp: String,
    etag: String,
) -> (r: ProjectDocument)
    ensures
        summary(r) == new_summary(owner_id@, id, project, revision_view(calculation_revision), timestamp@, etag@),
        r.settings == project.settings,
        r.resources == project.resources,
{
    ProjectDocument {
        id,
        document_type: PROJECT_DOCUMENT_TYPE.to_owned(),
        owner_id: owner_id.to_owned(),
        name: project.name,
        description: project.description,
        settings: project.settings,
        resources: project.resources,
        aws_price_snapshot_id: project.aws_price_snapshot_id,
        azure_price_snapshot_id: project.azure_price_snapshot_id,
        latest_calculation_revision: calculation_revision,
        formula_version: FORMULA_VERSION.to_owned(),
        schema_version: SCHEMA_VERSION.to_owned(),
        created_at: timestamp.clone(),
        updated_at: timestamp,
        etag,
    }
}

fn copy_revision(value: &Option<CalculationRevision>) -> (r: Option<CalculationRevision>)
    ensures
        revision_view(r) == revision_view(*value),
{
    match value {
        Some(revision) => Some(CalculationRevision { formula_version: revision.formula_version.clone() }),
        None => None,
    }
}

/// Builds the document that replaces a stored one after an edit. The stored
/// calculation revision is kept when the edit leaves the pricing inputs as they
/// were; otherwise the given revision is recorded.
pub fn updated_project_document(
    stored: &ProjectDocument,
    project: EditableProject,
    calculation_revision: Option<CalculationRevision>,
    timestamp: String,
    etag: String,
    inputs_unchanged: bool,
) -> (r: ProjectDocument)
    ensures
        summary(r) == updated_summary(
            summary(*stored),
            project,
            if inputs_unchanged {
                revision_view(stored.latest_calculation_revision)
            } else {
                revision_view(calculation_revision)
            },
            timestamp@,
            etag@,
        ),
        r.settings == project.settings,
        r.resources == project.resources,
{
    let latest_calculation_revision = if inputs_unchanged {
        copy_revision(&stored.latest_calculation_revision)
    } else {
        calculation_revision
    };
    ProjectDocument {
        id: stored.id,
        document_type: PROJECT_DOCUMENT_TYPE.to_owned(),
        owner_id: stored.owner_id.clone(),
        name: project.name,
        description: project.description,
        settings: project.settings,
        resources: project.resources,
        aws_price_snapshot_id: project.aws_price_snapshot_id,
        azure_price_snapshot_id: project.azure_price_snapshot_id,
        latest_calculation_revision,
        formula_version: FORMULA_VERSION.to_owned(),
        schema_version: SCHEMA_VERSION.to_owned(),
        created_at: stored.created_at.clone(),
        updated_at: timestamp,
        etag,
    }
}

/// What the size check answers for a document whose JSON serialization has
/// `serialized_len` bytes (`None` where serialization failed).
pub open spec fn size_error(serialized_len: Option<usize>) -> Option<RepositoryError> {
    match serialized_len {
        None => Some(RepositoryError::Unavailable),
        Some(n) => if n >= MAX_PROJECT_DOCUMENT_BYTES {
            Some(RepositoryError::PayloadTooLarge)
        } else {
            None
        },
    }
}

/// Refuses a document whose JSON serialization reaches the persistence limit.
pub fn enforce_document_size(serialized_len: Option<usize>) -> (r: Result<(), RepositoryError>)
    ensures
        r == as_result(size_error(serialized_len)),
{
    match serialized_len {
        None => Err(RepositoryError::Unavailable),
        Some(n) => if n >= MAX_PROJECT_DOCUMENT_BYTES {
            Err(RepositoryError::PayloadTooLarge)
        } else {
            Ok(())
        },
    }
}

/// What stored-document validation answers: `None` for a document of this owner
/// (and launch id, where one is expected) that fits the limit.
pub open spec fn stored_document_error(
    s: ProjectSummary,
    owner_id: Seq<char>,
    expected_id: Option<u128>,
    serialized_len: Option<usize>,
) -> Option<RepositoryError> {
    if s.document_type != PROJECT_DOCUMENT_TYPE@ || s.owner_id != owner_id || (expected_id matches Some(id)
        && s.id != id) || s.etag.len() == 0 {
        Some(RepositoryError::Unavailable)
    } else {
        size_error(serialized_len)
    }
}

/// Accepts a stored document only for its owner and id, with an entity tag, and
/// within the size limit; `serialized_len` is the length of its JSON serialization.
pub fn validate_stored_document(
    document: &ProjectDocument,
    owner_id: &str,
    expected_id: Option<u128>,
    serialized_len: Option<usize>,
) -> (r: Result<(), RepositoryError>)
    ensures
        r == as_result(stored_document_error(summary(*document), owner_id@, expected_id, serialized_len)),
{
    let id_mismatch = match expected_id {
        Some(id) => document.id != id,
        None => false,
    };
    if !text_equals(document.document_type.as_str(), PROJECT_DOCUMENT_TYPE) || !text_equals(
        document.owner_id.as_str(),
        owner_id,
    ) || id_mismatch || document.etag.as_str().is_empty() {
        return Err(RepositoryError::Unavailable);
    }
    enforce_document_size(serialized_len)
}

/// A new document of the owner for an edited project, checked against the size
/// limit by the length of its JSON serialization through the codec.
pub fn new_project_document<K: ProjectDocumentCodec>(
    codec: &K,
    owner_id: &str,
    id: u128,
    project: EditableProject,
    calculation_revision: Option<CalculationRevision>,
    timestamp: String,
    etag: String,
) -> (r: Result<ProjectDocument, RepositoryError>)
    ensures
        exists|serialized_len: Option<usize>|
            match #[trigger] size_error(serialized_len) {
                Some(e) => r == Err::<ProjectDocument, RepositoryError>(e),
                None => r matches Ok(d) && summary(d) == new_summary(
                    owner_id@,
                    id,
                    project,
                    revision_view(calculation_revision),
                    timestamp@,
                    etag@,
                ) && d.settings == project.settings && d.resources == project.resources,
            },
{
    let document = build_project_document(owner_id, id, project, calculation_revision, timestamp, etag);
    let serialized_len = codec.document_json_len(&document);
    match enforce_document_size(serialized_len) {
        Ok(()) => Ok(document),
        Err(e) => Err(e),
    }
}

/// Whether two serializations of pricing inputs are the same bytes; `Unavailable`
/// where either serialization failed.
pub open spec fn inputs_compare(stored: Option<Seq<u8>>, edited: Option<Seq<u8>>) -> Option<bool> {
    match (stored, edited) {
        (Some(a), Some(b)) => Some(a == b),
        _ => None,
    }
}

/// Compares the JSON serializations of the stored and the edited pricing inputs.
pub fn same_pricing_inputs(stored: Option<Vec<u8>>, edited: Option<Vec<u8>>) -> (r: Result<bool, RepositoryError>)
    ensures
        match inputs_compare(
            match stored {
                Some(v) => Some(v@),
                None => None,
            },
            match edited {
                Some(v) => Some(v@),
                None => None,
            },
        ) {
            Some(b) => r == Ok::<bool, RepositoryError>(b),
            None => r == Err::<bool, RepositoryError>(RepositoryError::Unavailable),
        },
{
    match (stored, edited) {
        (Some(a), Some(b)) => Ok(bytes_order(a.as_slice(), b.as_slice()) == 0),
        _ => Err(RepositoryError::Unavailable),
    }
}

/// How project documents are written out: the length of a document's JSON
/// serialization, and the JSON serialization of a project's pricing inputs (its
/// settings, resources and price snapshot ids); `None` where serialization fails.
pub trait ProjectDocumentCodec {
    fn document_json_len(&self, document: &ProjectDocument) -> Option<usize>;

    fn pricing_inputs_json(
        &self,
        settings: &ProjectSettings,
        resources: &Vec<Resource>,
        aws_price_snapshot_id: &Option<String>,
        azure_price_snapshot_id: &Option<String>,
    ) -> Option<Vec<u8>>;
}

/// Whether an edit leaves the pricing inputs of a stored document as they were:
/// their serializations by the codec are compared byte for byte.
pub fn pricing_inputs_unchanged<K: ProjectDocumentCodec>(
    codec: &K,
    stored: &ProjectDocument,
    editable: &EditableProject,
) -> (r: Result<bool, RepositoryError>)
    ensures
        r is Err ==> r == Err::<bool, RepositoryError>(RepositoryError::Unavailable),
{
    let stored_inputs = codec.pricing_inputs_json(
        &stored.settings,
        &stored.resources,
        &stored.aws_price_snapshot_id,
        &stored.azure_price_snapshot_id,
    );
    let edited_inputs = codec.pricing_inputs_json(
        &editable.settings,
        &editable.resources,
        &editable.aws_price_snapshot_id,
        &editable.azure_price_snapshot_id,
    );
    same_pricing_inputs(stored_inputs, edited_inputs)
}

/// What replacing a stored document after an edit gives: `PreconditionFailed`
/// unless the edit was made on the current entity tag; `Unavailable` where the
/// pricing inputs could not be compared; otherwise the summary of the
/// replacement, which keeps the stored calculation revision exactly when the
/// pricing inputs are unchanged, unless the size check of its serialization
/// refuses it.
pub open spec fn replacement_outcome(
    current: ProjectSummary,
    if_match: Seq<char>,
    project: EditableProject,
    revision: Option<Seq<char>>,
    timestamp: Seq<char>,
    etag: Seq<char>,
    inputs_unchanged: Option<bool>,
    serialized_len: Option<usize>,
) -> Result<ProjectSummary, RepositoryError> {
    if current.etag != if_match {
        Err(RepositoryError::PreconditionFailed)
    } else {
        match inputs_unchanged {
            None => Err(RepositoryError::Unavailable),
            Some(unchanged) => {
                let kept = if unchanged {
                    current.latest_calculation_revision
                } else {
                    revision
                };
                match size_error(serialized_len) {
                    Some(e) => Err(e),
                    None => Ok(updated_summary(current, project, kept, timestamp, etag)),
                }
            },
        }
    }
}

/// The document that replaces the current one after an edit made on the entity
/// tag `if_match`: its pricing inputs are compared through the codec, and its
/// serialization is measured by it.
pub fn replacement_document<K: ProjectDocumentCodec>(
    codec: &K,
    current: &ProjectDocument,
    if_match: &str,
    project: EditableProject,
    calculation_revision: Option<CalculationRevision>,
    timestamp: String,
    etag: String,
) -> (r: Result<ProjectDocument, RepositoryError>)
    ensures
        exists|inputs_unchanged: Option<bool>, serialized_len: Option<usize>|
            match #[trigger] replacement_outcome(
                summary(*current),
                if_match@,
                project,
                revision_view(calculation_revision),
                timestamp@,
                etag@,
                inputs_unchanged,
                serialized_len,
            ) {
                Ok(s) => r matches Ok(d) && summary(d) == s && d.settings == project.settings && d.resources
                    == project.resources,
                Err(e) => r == Err::<ProjectDocument, RepositoryError>(e),
            },
{
    let ghost p0 = project;
    let ghost rv = revision_view(calculation_revision);
    if !text_equals(current.etag.as_str(), if_match) {
        assert(replacement_outcome(summary(*current), if_match@, p0, rv, timestamp@, etag@, None, None) == Err::<
            ProjectSummary,
            RepositoryError,
        >(RepositoryError::PreconditionFailed));
        return Err(RepositoryError::PreconditionFailed);
    }
    let unchanged = match pricing_inputs_unchanged(codec, current, &project) {
        Ok(b) => b,
        Err(e) => {
            assert(replacement_outcome(summary(*current), if_match@, p0, rv, timestamp@, etag@, None, None) == Err::<
                ProjectSummary,
                RepositoryError,
            >(RepositoryError::Unavailable));
            return Err(e);
        },
    };
    let document = updated_project_document(current, project, calculation_revision, timestamp, etag, unchanged);
    let serialized_len = codec.document_json_len(&document);
    assert(summary(document) == updated_summary(
        summary(*current),
        p0,
        if unchanged {
            summary(*current).latest_calculation_revision
        } else {
            rv
        },
        timestamp@,
        etag@,
    ));
    match enforce_document_size(serialized_len) {
        Ok(()) => {
            assert(replacement_outcome(summary(*current), if_match@, p0, rv, timestamp@, etag@, Some(unchanged), serialized_len)
                == Ok::<ProjectSummary, RepositoryError>(summary(document)));
            Ok(document)
        },
        Err(e) => {
            assert(replacement_outcome(summary(*current), if_match@, p0, rv, timestamp@, etag@, Some(unchanged), serialized_len)
                == Err::<ProjectSummary, RepositoryError>(e));
            Err(e)
        },
    }
}

/// A document returned by the store carries the entity tag of the response; a
/// response without one leaves the store unavailable.
pub fn with_response_etag(document: ProjectDocument, etag: String) -> (r: Result<ProjectDocument, RepositoryError>)
    ensures
        etag@.len() == 0 ==> r == Err::<ProjectDocument, RepositoryError>(RepositoryError::Unavailable),
        etag@.len() > 0 ==> r == Ok::<ProjectDocument, RepositoryError>((ProjectDocument { etag: etag, ..document })),
{
    if etag.as_str().unicode_len() == 0 {
        return Err(RepositoryError::Unavailable);
    }
    let mut document = document;
    document.etag = etag;
    Ok(document)
}

/// The current time as RFC 3339 text: the rendering of the instant the clock
/// reads, which reads back as that instant in UTC; `Unavailable` when that
/// instant has no RFC 3339 rendering.
pub fn current_timestamp() -> (r: Result<String, RepositoryError>)
    ensures
        r is Err ==> r == Err::<String, RepositoryError>(RepositoryError::Unavailable),
        r matches Ok(text) ==> text@.len() >= 20 && exists|n: int|
            valid_instant(n) && rfc3339_renderable(n) && #[trigger] rfc3339_text(n) == text@
                && utc_instant(text@) == Some(n),
{
    let now = current_instant();
    match format_rfc3339(now) {
        Some(text) => {
            assert(rfc3339_text(now as int) == text@ && utc_instant(text@) == Some(now as int));
            Ok(text)
        },
        None => Err(RepositoryError::Unavailable),
    }
}

/// A copy of an optional text.
pub fn copy_text(value: &Option<String>) -> (r: Option<String>)
    ensures
        r == *value,
{
    match value {
        Some(s) => Some(s.clone()),
        None => None,
    }
}

/// A copy of project settings.
pub fn copy_settings(settings: &ProjectSettings) -> (r: ProjectSettings)
    ensures
        r == *settings,
{
    let sql_payg = match &settings.sql_payg {
        Some(p) => Some(
            SqlPaygSettings {
                enterprise_licensed_cores: p.enterprise_licensed_cores,
                standard_licensed_cores: p.standard_licensed_cores,
                software_assurance_annual_usd: p.software_assurance_annual_usd,
            },
        ),
        None => None,
    };
    ProjectSettings {
        project_type: settings.project_type,
        aws_region: copy_text(&settings.aws_region),
        azure_region: settings.azure_region.clone(),
        currency: settings.currency.clone(),
        source_compute_discount: settings.source_compute_discount,
        source_license_discount: settings.source_license_discount,
        source_storage_discount: settings.source_storage_discount,
        azure_compute_discount: settings.azure_compute_discount,
        azure_license_discount: settings.azure_license_discount,
        azure_storage_discount: settings.azure_storage_discount,
        selected_parity_adjustment: settings.selected_parity_adjustment,
        default_annual_hours: settings.default_annual_hours,
        default_mi_purchase_option: settings.default_mi_purchase_option,
        enterprise_license_sa_usd_per_two_core_pack: settings.enterprise_license_sa_usd_per_two_core_pack,
        standard_license_sa_usd_per_two_core_pack: settings.standard_license_sa_usd_per_two_core_pack,
        remaining_coverage_months: settings.remaining_coverage_months,
        electricity_rate_usd_per_kwh: settings.electricity_rate_usd_per_kwh,
        sql_payg,
    }
}

/// A copy of a project document: the same summary, settings and resources.
pub fn copy_document(document: &ProjectDocument) -> (r: ProjectDocument)
    ensures
        summary(r) == summary(*document),
        r.settings == document.settings,
        same_resources(r.resources@, document.resources@),
{
    ProjectDocument {
        id: document.id,
        document_type: document.document_type.clone(),
        owner_id: document.owner_id.clone(),
        name: document.name.clone(),
        description: copy_text(&document.description),
        settings: copy_settings(&document.settings),
        resources: duplicate_resources(&document.resources),
        aws_price_snapshot_id: copy_text(&document.aws_price_snapshot_id),
        azure_price_snapshot_id: copy_text(&document.azure_price_snapshot_id),
        latest_calculation_revision: copy_revision(&document.latest_calculation_revision),
        formula_version: document.formula_version.clone(),
        schema_version: document.schema_version.clone(),
        created_at: document.created_at.clone(),
        updated_at: document.updated_at.clone(),
        etag: document.etag.clone(),
    }
}

// ---------------------------------------------------------------------------
// Listing order.
// ---------------------------------------------------------------------------

/// Projects are listed most recently updated first (by the bytes of the
/// timestamp), then by id.
#[verifier::opaque]
pub open spec fn listed_before(a: ProjectSummary, b: ProjectSummary) -> bool {
    lex_less(encode_utf8(b.updated_at), encode_utf8(a.updated_at)) || (encode_utf8(a.updated_at) == encode_utf8(
        b.updated_at,
    ) && a.id < b.id)
}

/// The listing order is transitive.
pub proof fn lemma_listed_before_transitive(a: ProjectSummary, b: ProjectSummary, c: ProjectSummary)
    requires
        listed_before(a, b),
        listed_before(b, c),
    ensures
        listed_before(a, c),
{
    reveal(listed_before);
    let ua = encode_utf8(a.updated_at);
    let ub = encode_utf8(b.updated_at);
    let uc = encode_utf8(c.updated_at);
    if lex_less(ub, ua) && lex_less(uc, ub) {
        lemma_lex_less_transitive(uc, ub, ua);
    }
}

/// The listing order is strict: two summaries are never listed before each
/// other, and a summary is never listed before itself.
pub proof fn lemma_listed_before_strict(a: ProjectSummary, b: ProjectSummary)
    requires
        listed_before(a, b),
    ensures
        !listed_before(b, a),
        a.id != b.id || encode_utf8(a.updated_at) != encode_utf8(b.updated_at),
{
    reveal(listed_before);
    let ua = encode_utf8(a.updated_at);
    let ub = encode_utf8(b.updated_at);
    if lex_less(ub, ua) {
        lemma_lex_less_asymmetric(ub, ua);
    }
}

/// Two summaries with different ids are always ordered one way or the other.
pub proof fn lemma_listed_before_total(a: ProjectSummary, b: ProjectSummary)
    requires
        a.id != b.id,
    ensures
        listed_before(a, b) || listed_before(b, a),
{
    reveal(listed_before);
    let ua = encode_utf8(a.updated_at);
    let ub = encode_utf8(b.updated_at);
    if ua != ub {
        lemma_lex_total(ua, ub);
    }
}

fn listed_before_exec(a: &ProjectDocument, b: &ProjectDocument) -> (r: bool)
    ensures
        r == listed_before(summary(*a), summary(*b)),
{
    reveal(listed_before);
    let order = bytes_order(b.updated_at.as_str().as_bytes(), a.updated_at.as_str().as_bytes());
    order == -1 || (order == 0 && a.id < b.id)
}

/// A sequence of distinct positions, as many as the range `lo..n` holds and all
/// within it, reaches every position of the range.
proof fn lemma_origin_reaches(origin: Seq<int>, lo: int, n: int, j: int)
    requires
        0 <= lo <= j < n,
        origin.len() == n - lo,
        forall|q: int| 0 <= q < origin.len() ==> lo <= #[trigger] origin[q] < n,
        forall|a: int, b: int| 0 <= a < b < origin.len() ==> #[trigger] origin[a] != #[trigger] origin[b],
    ensures
        exists|q: int| 0 <= q < origin.len() && origin[q] == j,
{
    let s = origin.to_set();
    let target = vstd::set_lib::set_int_range(lo, n);
    vstd::set_lib::lemma_int_range(lo, n);
    assert(origin.no_duplicates()) by {
        assert forall|a: int, b: int| 0 <= a < origin.len() && 0 <= b < origin.len() && a != b implies origin[a]
            != origin[b] by {
            if a < b {
            } else {
            }
        }
    }
    origin.unique_seq_to_set();
    if !origin.contains(j) {
        assert(s.subset_of(target.remove(j))) by {
            assert forall|x: int| s.contains(x) implies target.remove(j).contains(x) by {
                let q = choose|q: int| 0 <= q < origin.len() && origin[q] == x;
            }
        }
        vstd::set_lib::lemma_len_subset(s, target.remove(j));
        assert(false);
    }
}

/// A listed document is a stored document of the owner with an entity tag.
pub open spec fn listable(d: ProjectDocument, owner_id: Seq<char>) -> bool {
    let s = summary(d);
    s.document_type == PROJECT_DOCUMENT_TYPE@ && s.owner_id == owner_id && s.etag.len() > 0
}

/// Two documents share an id.
pub open spec fn repeats_an_id(docs: Seq<ProjectDocument>) -> bool {
    exists|a: int, b: int| 0 <= a < b < docs.len() && (#[trigger] docs[a]).id == (#[trigger] docs[b]).id
}

/// The owner's documents as the store returned them, checked in order and put
/// in listing order: each must be a stored document of the owner with an entity
/// tag whose serialization (measured by the codec) fits the limit, and no two
/// may share an id. The first failing check answers.
pub fn listing_of<K: ProjectDocumentCodec>(codec: &K, owner_id: &str, documents: Vec<ProjectDocument>) -> (r: Result<
    Vec<ProjectDocument>,
    RepositoryError,
>)
    ensures
        r matches Ok(out) ==> {
            &&& in_listing_order(out@)
            &&& out@.len() == documents@.len()
            &&& forall|j: int| 0 <= j < documents@.len() ==> out@.contains(#[trigger] documents@[j])
            &&& forall|i: int| 0 <= i < out@.len() ==> documents@.contains(#[trigger] out@[i])
            &&& forall|i: int| 0 <= i < out@.len() ==> listable(#[trigger] out@[i], owner_id@)
        },
        (exists|j: int| 0 <= j < documents@.len() && !listable(#[trigger] documents@[j], owner_id@)) ==> r is Err,
        repeats_an_id(documents@) ==> r is Err,
        r matches Err(e) ==> e == RepositoryError::Unavailable || e == RepositoryError::PayloadTooLarge,
{
    let n = documents.len();
    let mut i: usize = 0;
    while i < n
        invariant
            n == documents@.len(),
            i <= n,
            forall|j: int| 0 <= j < i ==> listable(#[trigger] documents@[j], owner_id@),
        decreases n - i,
    {
        let serialized_len = codec.document_json_len(&documents[i]);
        match validate_stored_document(&documents[i], owner_id, None, serialized_len) {
            Ok(()) => {},
            Err(e) => {
                return Err(e);
            },
        }
        i = i + 1;
    }
    let ghost all = documents@;
    let mut remaining = documents;
    let mut out: Vec<ProjectDocument> = Vec::new();
    let ghost mut origin: Seq<int> = Seq::empty();
    while remaining.len() > 0
        invariant
            all.len() == n,
            forall|j: int| 0 <= j < n ==> listable(#[trigger] all[j], owner_id@),
            remaining@ == all.take(remaining@.len() as int),
            remaining@.len() <= n,
            out@.len() + remaining@.len() == n,
            origin.len() == out@.len(),
            in_listing_order(out@),
            forall|q: int|
                0 <= q < out@.len() ==> remaining@.len() <= #[trigger] origin[q] < n && out@[q] == all[origin[q]],
            forall|a: int, b: int| 0 <= a < b < out@.len() ==> #[trigger] origin[a] != #[trigger] origin[b],
            forall|a: int, b: int| remaining@.len() <= a < b < n ==> (#[trigger] all[a]).id != (#[trigger] all[b]).id,
        decreases remaining@.len(),
    {
        let k = remaining.len() - 1;
        let ghost before = out@;
        let ghost before_origin = origin;
        let doc = remaining.pop().unwrap();
        assert(doc == all[k as int]);
        let mut q: usize = 0;
        while q < out.len()
            invariant
                out@ == before,
                q <= out@.len(),
                all.len() == n,
                k < n,
                doc == all[k as int],
                before_origin.len() == before.len(),
                forall|t: int|
                    0 <= t < before.len() ==> k < #[trigger] before_origin[t] < n && before[t] == all[before_origin[t]],
                forall|t: int| 0 <= t < q ==> (#[trigger] out@[t]).id != doc.id,
            decreases out@.len() - q,
        {
            if out[q].id == doc.id {
                proof {
                    let j = before_origin[q as int];
                    assert(all[k as int].id == all[j].id);
                }
                return Err(RepositoryError::Unavailable);
            }
            q = q + 1;
        }
        let p = insert_listed(&mut out, doc);
        proof {
            assert(remaining@ =~= all.take(k as int));
            let new_origin = before_origin.insert(p as int, k as int);
            assert forall|t: int| 0 <= t < out@.len() implies k <= #[trigger] new_origin[t] < n && out@[t]
                == all[new_origin[t]] by {
                if t < p {
                    assert(out@[t] == before[t] && new_origin[t] == before_origin[t]);
                } else if t > p {
                    assert(out@[t] == before[t - 1] && new_origin[t] == before_origin[t - 1]);
                }
            }
            assert forall|a: int, b: int| 0 <= a < b < out@.len() implies #[trigger] new_origin[a]
                != #[trigger] new_origin[b] by {
                if a < p && b < p {
                    assert(new_origin[a] == before_origin[a] && new_origin[b] == before_origin[b]);
                } else if a < p && b > p {
                    assert(new_origin[a] == before_origin[a] && new_origin[b] == before_origin[b - 1]);
                } else if a > p && b > p {
                    assert(new_origin[a] == before_origin[a - 1] && new_origin[b] == before_origin[b - 1]);
                } else if a == p {
                    assert(new_origin[b] == before_origin[b - 1]);
                } else {
                    assert(new_origin[a] == before_origin[a]);
                }
            }
            assert forall|a: int, b: int| k <= a < b < n implies (#[trigger] all[a]).id != (#[trigger] all[b]).id by {
                if a == k {
                    lemma_origin_reaches(before_origin, k as int + 1, n as int, b);
                    let t = choose|t: int| 0 <= t < before_origin.len() && before_origin[t] == b;
                    assert(before[t] == all[b]);
                }
            }
            origin = new_origin;
        }
    }
    proof {
        assert forall|j: int| 0 <= j < n implies out@.contains(#[trigger] all[j]) by {
            lemma_origin_reaches(origin, 0, n as int, j);
            let q = choose|q: int| 0 <= q < origin.len() && origin[q] == j;
            assert(out@[q] == all[j]);
        }
        assert forall|q: int| 0 <= q < out@.len() implies all.contains(#[trigger] out@[q]) by {
            assert(out@[q] == all[origin[q]]);
        }
        assert forall|q: int| 0 <= q < out@.len() implies listable(#[trigger] out@[q], owner_id@) by {
            assert(out@[q] == all[origin[q]]);
        }
    }
    Ok(out)
}

// ---------------------------------------------------------------------------
// The project store.
// ---------------------------------------------------------------------------

/// A stored project document and the version its entity tag counts.
#[derive(Debug)]
struct StoredProject {
    document: ProjectDocument,
    version: u64,
}

/// A stored project as plain values: its summary, the version its entity tag
/// counts, and its settings and resources.
pub struct StoredProjectView {
    pub summary: ProjectSummary,
    pub version: u64,
    pub settings: ProjectSettings,
    pub resources: Seq<Resource>,
}

impl View for StoredProject {
    type V = StoredProjectView;

    closed spec fn view(&self) -> StoredProjectView {
        StoredProjectView {
            summary: summary(self.document),
            version: self.version,
            settings: self.document.settings,
            resources: self.document.resources@,
        }
    }
}

/// Projects are keyed by owner and id.
pub type ProjectKey = (Seq<char>, u128);

spec fn pkey(s: StoredProject) -> ProjectKey {
    (s.document.owner_id@, s.document.id)
}

spec fn pkeys_distinct(records: Seq<StoredProject>) -> bool {
    forall|i: int, j: int| 0 <= i < j < records.len() ==> pkey(records[i]) != pkey(records[j])
}

spec fn etags_current(records: Seq<StoredProject>) -> bool {
    forall|i: int| 0 <= i < records.len() ==> (#[trigger] records[i]).document.etag@ == project_etag_text(records[i].version)
}

spec fn project_map(records: Seq<StoredProject>) -> Map<ProjectKey, StoredProjectView> {
    Map::new(
        |k: ProjectKey| exists|i: int| 0 <= i < records.len() && pkey(records[i]) == k,
        |k: ProjectKey| records[choose|i: int| 0 <= i < records.len() && pkey(records[i]) == k]@,
    )
}

proof fn lemma_project_map_at(records: Seq<StoredProject>, j: int)
    requires
        pkeys_distinct(records),
        0 <= j < records.len(),
    ensures
        project_map(records).contains_key(pkey(records[j])),
        project_map(records)[pkey(records[j])] == records[j]@,
{
    let k = pkey(records[j]);
    assert(project_map(records).contains_key(k));
    let c = choose|i: int| 0 <= i < records.len() && pkey(records[i]) == k;
    assert(c == j);
}

proof fn lemma_project_map_set(before: Seq<StoredProject>, i: int, stored: StoredProject)
    requires
        pkeys_distinct(before),
        0 <= i < before.len(),
        pkey(stored) == pkey(before[i]),
    ensures
        pkeys_distinct(before.update(i, stored)),
        project_map(before.update(i, stored)) == project_map(before).insert(pkey(stored), stored@),
{
    let after = before.update(i, stored);
    let k = pkey(stored);
    assert forall|a: int, b: int| 0 <= a < b < after.len() implies pkey(after[a]) != pkey(after[b]) by {
        assert(pkey(after[a]) == pkey(before[a]));
        assert(pkey(after[b]) == pkey(before[b]));
    }
    let m = project_map(after);
    let n = project_map(before).insert(k, stored@);
    assert forall|o: ProjectKey| #[trigger] m.contains_key(o) <==> n.contains_key(o) by {
        if m.contains_key(o) {
            let j = choose|j: int| 0 <= j < after.len() && pkey(after[j]) == o;
            assert(pkey(before[j]) == o);
        }
        if project_map(before).contains_key(o) {
            let j = choose|j: int| 0 <= j < before.len() && pkey(before[j]) == o;
            assert(pkey(after[j]) == o);
        }
        if o == k {
            assert(pkey(after[i]) == o);
        }
    }
    assert forall|o: ProjectKey| #[trigger] m.contains_key(o) implies m[o] == n[o] by {
        let j = choose|j: int| 0 <= j < after.len() && pkey(after[j]) == o;
        lemma_project_map_at(after, j);
        if j != i {
            lemma_project_map_at(before, j);
        }
    }
    assert(m =~= n);
}

proof fn lemma_project_map_push(before: Seq<StoredProject>, stored: StoredProject)
    requires
        pkeys_distinct(before),
        !project_map(before).contains_key(pkey(stored)),
    ensures
        pkeys_distinct(before.push(stored)),
        project_map(before.push(stored)) == project_map(before).insert(pkey(stored), stored@),
{
    let after = before.push(stored);
    let n_before = before.len() as int;
    let k = pkey(stored);
    assert forall|a: int, b: int| 0 <= a < b < after.len() implies pkey(after[a]) != pkey(after[b]) by {
        if b == n_before {
            assert(after[a] == before[a]);
            if pkey(before[a]) == k {
                assert(project_map(before).contains_key(k));
            }
        } else {
            assert(after[a] == before[a] && after[b] == before[b]);
        }
    }
    let m = project_map(after);
    let n = project_map(before).insert(k, stored@);
    assert forall|o: ProjectKey| #[trigger] m.contains_key(o) <==> n.contains_key(o) by {
        if m.contains_key(o) {
            let j = choose|j: int| 0 <= j < after.len() && pkey(after[j]) == o;
            if j < n_before {
                assert(after[j] == before[j]);
            }
        }
        if project_map(before).contains_key(o) {
            let j = choose|j: int| 0 <= j < before.len() && pkey(before[j]) == o;
            assert(after[j] == before[j]);
        }
        if o == k {
            assert(pkey(after[n_before]) == o);
        }
    }
    assert forall|o: ProjectKey| #[trigger] m.contains_key(o) implies m[o] == n[o] by {
        let j = choose|j: int| 0 <= j < after.len() && pkey(after[j]) == o;
        lemma_project_map_at(after, j);
        if j != n_before {
            assert(after[j] == before[j]);
            lemma_project_map_at(before, j);
        }
    }
    assert(m =~= n);
}

proof fn lemma_project_map_remove(before: Seq<StoredProject>, i: int)
    requires
        pkeys_distinct(before),
        0 <= i < before.len(),
    ensures
        pkeys_distinct(before.remove(i)),
        project_map(before.remove(i)) == project_map(before).remove(pkey(before[i])),
{
    let after = before.remove(i);
    let k = pkey(before[i]);
    assert forall|a: int, b: int| 0 <= a < b < after.len() implies pkey(after[a]) != pkey(after[b]) by {
        let a0 = if a < i { a } else { a + 1 };
        let b0 = if b < i { b } else { b + 1 };
        assert(after[a] == before[a0] && after[b] == before[b0]);
    }
    let m = project_map(after);
    let n = project_map(before).remove(k);
    assert forall|o: ProjectKey| #[trigger] m.contains_key(o) <==> n.contains_key(o) by {
        if m.contains_key(o) {
            let j = choose|j: int| 0 <= j < after.len() && pkey(after[j]) == o;
            let j0 = if j < i { j } else { j + 1 };
            assert(after[j] == before[j0]);
            assert(project_map(before).contains_key(o));
        }
        if n.contains_key(o) {
            let j = choose|j: int| 0 <= j < before.len() && pkey(before[j]) == o;
            assert(j != i);
            let j1 = if j < i { j } else { j - 1 };
            assert(after[j1] == before[j]);
        }
    }
    assert forall|o: ProjectKey| #[trigger] m.contains_key(o) implies m[o] == n[o] by {
        let j = choose|j: int| 0 <= j < after.len() && pkey(after[j]) == o;
        let j0 = if j < i { j } else { j + 1 };
        assert(after[j] == before[j0]);
        lemma_project_map_at(after, j);
        lemma_project_map_at(before, j0);
    }
    assert(m =~= n);
}

/// Project documents kept in memory, one per owner and id, written out through a codec.
pub struct InMemoryProjectRepository<K: ProjectDocumentCodec> {
    projects: Vec<StoredProject>,
    codec: K,
}

impl<K: ProjectDocumentCodec> View for InMemoryProjectRepository<K> {
    type V = Map<ProjectKey, StoredProjectView>;

    closed spec fn view(&self) -> Map<ProjectKey, StoredProjectView> {
        project_map(self.projects@)
    }
}

/// A document holds what a stored project holds: its summary, settings and resources.
pub open spec fn holds_stored(d: ProjectDocument, v: StoredProjectView) -> bool {
    summary(d) == v.summary && d.settings == v.settings && same_resources(d.resources@, v.resources)
}

/// Some stored project of the owner is what the document holds.
pub open spec fn stored_for(m: Map<ProjectKey, StoredProjectView>, owner: Seq<char>, d: ProjectDocument) -> bool {
    exists|k: ProjectKey| #[trigger] m.contains_key(k) && k.0 == owner && holds_stored(d, m[k])
}

/// Some listed document has this summary.
pub open spec fn listed_in(docs: Seq<ProjectDocument>, s: ProjectSummary) -> bool {
    exists|i: int| 0 <= i < docs.len() && summary(#[trigger] docs[i]) == s
}

/// The owner's documents, listed: in listing order, each one of the owner's
/// stored projects, and every one of them there.
pub open spec fn is_listing(docs: Seq<ProjectDocument>, m: Map<ProjectKey, StoredProjectView>, owner: Seq<char>) -> bool {
    &&& in_listing_order(docs)
    &&& forall|i: int| 0 <= i < docs.len() ==> stored_for(m, owner, #[trigger] docs[i])
    &&& forall|k: ProjectKey| #[trigger] m.contains_key(k) && k.0 == owner ==> listed_in(docs, m[k].summary)
}

/// Creating a project document at `timestamp` with the id `id`: the summary of
/// the document and the projects after, given the length of its serialization.
pub open spec fn create_outcome(
    m: Map<ProjectKey, StoredProjectView>,
    owner: Seq<char>,
    id: u128,
    project: EditableProject,
    revision: Option<Seq<char>>,
    timestamp: Seq<char>,
    serialized_len: Option<usize>,
) -> (Result<ProjectSummary, RepositoryError>, Map<ProjectKey, StoredProjectView>) {
    match size_error(serialized_len) {
        Some(e) => (Err(e), m),
        None => {
            let s = new_summary(owner, id, project, revision, timestamp, project_etag_text(1));
            (
                Ok(s),
                m.insert(
                    (owner, id),
                    StoredProjectView { summary: s, version: 1, settings: project.settings, resources: project.resources@ },
                ),
            )
        },
    }
}

/// Updating a stored project at `timestamp`: the summary of the new document
/// and the projects after, given whether the edit left the pricing inputs as
/// they were and the length of the new document's serialization. Only the
/// current entity tag is accepted.
pub open spec fn update_outcome(
    m: Map<ProjectKey, StoredProjectView>,
    owner: Seq<char>,
    id: u128,
    if_match: Seq<char>,
    project: EditableProject,
    revision: Option<Seq<char>>,
    timestamp: Seq<char>,
    inputs_unchanged: Option<bool>,
    serialized_len: Option<usize>,
) -> (Result<ProjectSummary, RepositoryError>, Map<ProjectKey, StoredProjectView>) {
    let key = (owner, id);
    if !m.contains_key(key) {
        (Err(RepositoryError::NotFound), m)
    } else if m[key].summary.etag != if_match {
        (Err(RepositoryError::PreconditionFailed), m)
    } else if m[key].version == u64::MAX {
        (Err(RepositoryError::Unavailable), m)
    } else {
        match inputs_unchanged {
            None => (Err(RepositoryError::Unavailable), m),
            Some(unchanged) => {
                let version = (m[key].version + 1) as u64;
                let kept = if unchanged {
                    m[key].summary.latest_calculation_revision
                } else {
                    revision
                };
                let s = updated_summary(m[key].summary, project, kept, timestamp, project_etag_text(version));
                match size_error(serialized_len) {
                    Some(e) => (Err(e), m),
                    None => (
                        Ok(s),
                        m.insert(
                            key,
                            StoredProjectView {
                                summary: s,
                                version,
                                settings: project.settings,
                                resources: project.resources@,
                            },
                        ),
                    ),
                }
            },
        }
    }
}

/// Every stored project is filed under its own owner and id, and its entity tag
/// is the tag of its stored version.
pub open spec fn store_valid(m: Map<ProjectKey, StoredProjectView>) -> bool {
    forall|k: ProjectKey| #[trigger]
        m.contains_key(k) ==> m[k].summary.etag == project_etag_text(m[k].version) && m[k].summary.owner_id == k.0
            && m[k].summary.id == k.1
}

/// Deleting the owner's project with this id: `NotFound` when there is none.
pub open spec fn delete_outcome(m: Map<ProjectKey, StoredProjectView>, owner: Seq<char>, id: u128) -> (
    Result<(), RepositoryError>,
    Map<ProjectKey, StoredProjectView>,
) {
    if m.contains_key((owner, id)) {
        (Ok(()), m.remove((owner, id)))
    } else {
        (Err(RepositoryError::NotFound), m)
    }
}

pub open spec fn summary_result(r: Result<ProjectDocument, RepositoryError>) -> Result<ProjectSummary, RepositoryError> {
    match r {
        Ok(d) => Ok(summary(d)),
        Err(e) => Err(e),
    }
}

/// The documents are in listing order.
pub open spec fn in_listing_order(docs: Seq<ProjectDocument>) -> bool {
    forall|a: int, b: int| 0 <= a < b < docs.len() ==> listed_before(summary(#[trigger] docs[a]), summary(#[trigger] docs[b]))
}

/// Inserts a document into a listing at its place; its id is new to the listing.
fn insert_listed(out: &mut Vec<ProjectDocument>, doc: ProjectDocument) -> (p: usize)
    requires
        in_listing_order(old(out)@),
        forall|q: int| 0 <= q < old(out)@.len() ==> summary(#[trigger] old(out)@[q]).id != summary(doc).id,
    ensures
        p <= old(out)@.len(),
        final(out)@ == old(out)@.insert(p as int, doc),
        in_listing_order(final(out)@),
{
    let ghost x = summary(doc);
    let ghost before = out@;
    let mut p: usize = 0;
    while p < out.len() && listed_before_exec(&out[p], &doc)
        invariant
            out@ == before,
            x == summary(doc),
            p <= before.len(),
            forall|q: int| 0 <= q < p ==> listed_before(summary(#[trigger] before[q]), x),
        decreases before.len() - p,
    {
        p = p + 1;
    }
    proof {
        if p < before.len() {
            lemma_listed_before_total(summary(before[p as int]), x);
            assert(listed_before(x, summary(before[p as int])));
            assert forall|q: int| p <= q < before.len() implies listed_before(x, summary(#[trigger] before[q])) by {
                if q > p {
                    lemma_listed_before_transitive(x, summary(before[p as int]), summary(before[q]));
                }
            }
        }
    }
    out.insert(p, doc);
    proof {
        assert forall|a: int, b: int| 0 <= a < b < out@.len() implies listed_before(
            summary(#[trigger] out@[a]),
            summary(#[trigger] out@[b]),
        ) by {
            if b < p {
                assert(out@[a] == before[a] && out@[b] == before[b]);
            } else if b == p {
                assert(out@[a] == before[a]);
            } else if a < p {
                assert(out@[a] == before[a] && out@[b] == before[b - 1]);
                lemma_listed_before_transitive(summary(before[a]), x, summary(before[b - 1]));
            } else if a == p {
                assert(out@[b] == before[b - 1]);
            } else {
                assert(out@[a] == before[a - 1] && out@[b] == before[b - 1]);
            }
        }
    }
    p
}

proof fn lemma_listing_of_records(
    records: Seq<StoredProject>,
    out: Seq<ProjectDocument>,
    o: Seq<char>,
    origin: Seq<int>,
    pos: Seq<int>,
)
    requires
        pkeys_distinct(records),
        in_listing_order(out),
        origin.len() == out.len(),
        pos.len() == records.len(),
        forall|q: int|
            0 <= q < out.len() ==> 0 <= #[trigger] origin[q] < records.len() && pkey(records[origin[q]]).0 == o
                && holds_stored(out[q], records[origin[q]]@),
        forall|j: int|
            0 <= j < records.len() && pkey(records[j]).0 == o ==> 0 <= #[trigger] pos[j] < out.len() && summary(
                out[pos[j]],
            ) == summary(records[j].document),
    ensures
        is_listing(out, project_map(records), o),
{
    let m = project_map(records);
    assert forall|q: int| 0 <= q < out.len() implies stored_for(m, o, #[trigger] out[q]) by {
        let j = origin[q];
        lemma_project_map_at(records, j);
        assert(m.contains_key(pkey(records[j])) && pkey(records[j]).0 == o && holds_stored(out[q], m[pkey(records[j])]));
    }
    assert forall|k: ProjectKey| #[trigger] m.contains_key(k) && k.0 == o implies listed_in(out, m[k].summary) by {
        let j = choose|j: int| 0 <= j < records.len() && pkey(records[j]) == k;
        lemma_project_map_at(records, j);
        let q = pos[j];
        assert(0 <= q < out.len() && summary(out[q]) == m[k].summary);
    }
}

impl<K: ProjectDocumentCodec> InMemoryProjectRepository<K> {
    #[verifier::type_invariant]
    spec fn wf(self) -> bool {
        &&& pkeys_distinct(self.projects@)
        &&& etags_current(self.projects@)
    }

    /// An empty store that writes documents out through `codec`.
    pub fn new(codec: K) -> (r: InMemoryProjectRepository<K>)
        ensures
            r@ == Map::<ProjectKey, StoredProjectView>::empty(),
    {
        let r = InMemoryProjectRepository { projects: Vec::new(), codec };
        assert(r@ =~= Map::<ProjectKey, StoredProjectView>::empty());
        r
    }

    proof fn lemma_store_valid(&self)
        requires
            etags_current(self.projects@),
            pkeys_distinct(self.projects@),
        ensures
            store_valid(self@),
    {
        assert forall|k: ProjectKey| #[trigger] self@.contains_key(k) implies self@[k].summary.etag
            == project_etag_text(self@[k].version) && self@[k].summary.owner_id == k.0 && self@[k].summary.id == k.1 by {
            let j = choose|j: int| 0 <= j < self.projects@.len() && pkey(self.projects@[j]) == k;
            lemma_project_map_at(self.projects@, j);
            assert(self.projects@[j].document.etag@ == project_etag_text(self.projects@[j].version));
        }
    }

    fn find(&self, owner_id: &str, project_id: u128) -> (r: Option<usize>)
        ensures
            match r {
                Some(i) => i < self.projects@.len() && pkey(self.projects@[i as int]) == (owner_id@, project_id),
                None => !self@.contains_key((owner_id@, project_id)),
            },
    {
        let mut i: usize = 0;
        while i < self.projects.len()
            invariant
                i <= self.projects@.len(),
                forall|k: int| 0 <= k < i ==> pkey(self.projects@[k]) != (owner_id@, project_id),
            decreases self.projects@.len() - i,
        {
            let stored = &self.projects[i];
            if stored.document.id == project_id && text_equals(stored.document.owner_id.as_str(), owner_id) {
                return Some(i);
            }
            i = i + 1;
        }
        None
    }

    /// The store answers.
    pub fn check_health(&self) -> (r: Result<(), RepositoryError>)
        ensures
            r is Ok,
    {
        Ok(())
    }

    /// The owner's project documents, most recently updated first, then by id.
    #[verifier::rlimit(40)]
    pub fn list(&self, owner_id: &str) -> (r: Result<Vec<ProjectDocument>, RepositoryError>)
        ensures
            r matches Ok(docs) && is_listing(docs@, self@, owner_id@),
    {
        proof {
            use_type_invariant(self);
        }
        let ghost records = self.projects@;
        let ghost o = owner_id@;
        let mut out: Vec<ProjectDocument> = Vec::new();
        let ghost mut origin: Seq<int> = Seq::empty();
        let ghost mut pos: Seq<int> = Seq::empty();
        let mut i: usize = 0;
        while i < self.projects.len()
            invariant
                records == self.projects@,
                o == owner_id@,
                pkeys_distinct(records),
                i <= records.len(),
                in_listing_order(out@),
                origin.len() == out@.len(),
                pos.len() == i,
                forall|q: int|
                    0 <= q < out@.len() ==> 0 <= #[trigger] origin[q] < i && pkey(records[origin[q]]).0 == o
                        && holds_stored(out@[q], records[origin[q]]@),
                forall|j: int|
                    0 <= j < i && pkey(records[j]).0 == o ==> 0 <= #[trigger] pos[j] < out@.len() && summary(
                        out@[pos[j]],
                    ) == summary(records[j].document),
            decreases records.len() - i,
        {
            let stored = &self.projects[i];
            if text_equals(stored.document.owner_id.as_str(), owner_id) {
                let doc = copy_document(&stored.document);
                proof {
                    assert forall|q: int| 0 <= q < out@.len() implies summary(#[trigger] out@[q]).id != summary(doc).id by {
                        let j = origin[q];
                        assert(pkey(records[j]) != pkey(records[i as int]));
                    }
                }
                let ghost before = out@;
                let p = insert_listed(&mut out, doc);
                proof {
                    let pi = p as int;
                    let new_origin = origin.insert(pi, i as int);
                    let new_pos = Seq::new(
                        (i + 1) as nat,
                        |j: int|
                            if j == i {
                                pi
                            } else if pos[j] >= pi {
                                pos[j] + 1
                            } else {
                                pos[j]
                            },
                    );
                    assert forall|q: int| 0 <= q < out@.len() implies 0 <= #[trigger] new_origin[q] < i + 1 && pkey(
                        records[new_origin[q]],
                    ).0 == o && holds_stored(out@[q], records[new_origin[q]]@) by {
                        if q < pi {
                            assert(new_origin[q] == origin[q] && out@[q] == before[q]);
                        } else if q > pi {
                            assert(new_origin[q] == origin[q - 1] && out@[q] == before[q - 1]);
                        }
                    }
                    assert forall|j: int| 0 <= j < i + 1 && pkey(records[j]).0 == o implies 0 <= #[trigger] new_pos[j]
                        < out@.len() && summary(out@[new_pos[j]]) == summary(records[j].document) by {
                        if j < i {
                            if pos[j] >= pi {
                                assert(out@[pos[j] + 1] == before[pos[j]]);
                            } else {
                                assert(out@[pos[j]] == before[pos[j]]);
                            }
                        }
                    }
                    origin = new_origin;
                    pos = new_pos;
                }
            } else {
                proof {
                    pos = pos.push(0);
                }
            }
            i = i + 1;
        }
        proof {
            lemma_listing_of_records(records, out@, o, origin, pos);
        }
        Ok(out)
    }

    /// The owner's project with this id.
    pub fn get(&self, owner_id: &str, project_id: u128) -> (r: Result<ProjectDocument, RepositoryError>)
        ensures
            match r {
                Ok(d) => self@.contains_key((owner_id@, project_id)) && summary(d) == self@[(owner_id@, project_id)].summary
                    && d.settings == self@[(owner_id@, project_id)].settings && same_resources(
                    d.resources@,
                    self@[(owner_id@, project_id)].resources,
                ),
                Err(e) => e == RepositoryError::NotFound && !self@.contains_key((owner_id@, project_id)),
            },
    {
        proof {
            use_type_invariant(self);
        }
        match self.find(owner_id, project_id) {
            Some(i) => {
                proof {
                    lemma_project_map_at(self.projects@, i as int);
                }
                Ok(copy_document(&self.projects[i].document))
            },
            None => Err(RepositoryError::NotFound),
        }
    }

    fn put(&mut self, stored: StoredProject)
        requires
            stored.document.etag@ == project_etag_text(stored.version),
        ensures
            final(self)@ == old(self)@.insert(pkey(stored), stored@),
    {
        proof {
            use_type_invariant(&*self);
        }
        let ghost before = self.projects@;
        match self.find(stored.document.owner_id.as_str(), stored.document.id) {
            Some(i) => {
                proof {
                    lemma_project_map_set(before, i as int, stored);
                    assert(etags_current(before.update(i as int, stored)));
                }
                let mut records: Vec<StoredProject> = Vec::new();
                std::mem::swap(&mut records, &mut self.projects);
                records.set(i, stored);
                self.projects = records;
            },
            None => {
                proof {
                    lemma_project_map_push(before, stored);
                    assert(etags_current(before.push(stored)));
                }
                let mut records: Vec<StoredProject> = Vec::new();
                std::mem::swap(&mut records, &mut self.projects);
                records.push(stored);
                self.projects = records;
            },
        }
    }

    /// Creates a project of the owner with the id `project_id` at `timestamp`.
    pub fn create_at(
        &mut self,
        owner_id: &str,
        project_id: u128,
        project: EditableProject,
        calculation_revision: Option<CalculationRevision>,
        timestamp: String,
    ) -> (r: Result<ProjectDocument, RepositoryError>)
        ensures
            exists|serialized_len: Option<usize>|
                (summary_result(r), final(self)@) == #[trigger] create_outcome(
                    old(self)@,
                    owner_id@,
                    project_id,
                    project,
                    revision_view(calculation_revision),
                    timestamp@,
                    serialized_len,
                ),
            r matches Ok(d) ==> d.settings == project.settings && final(self)@[(owner_id@, project_id)].resources
                == project.resources@ && same_resources(d.resources@, project.resources@),
            store_valid(final(self)@),
    {
        proof {
            use_type_invariant(&*self);
            self.lemma_store_valid();
        }
        let ghost m = self@;
        let ghost p0 = project;
        let ghost rv = revision_view(calculation_revision);
        let ghost ts = timestamp@;
        let document = build_project_document(
            owner_id,
            project_id,
            project,
            calculation_revision,
            timestamp,
            etag(1),
        );
        let serialized_len = self.codec.document_json_len(&document);
        let ghost outcome = create_outcome(m, owner_id@, project_id, p0, rv, ts, serialized_len);
        match enforce_document_size(serialized_len) {
            Ok(()) => {},
            Err(e) => {
                assert(outcome.0 == Err::<ProjectSummary, RepositoryError>(e));
                return Err(e);
            },
        }
        let result = copy_document(&document);
        let stored = StoredProject { document, version: 1 };
        self.put(stored);
        proof {
            use_type_invariant(&*self);
            self.lemma_store_valid();
        }
        assert(outcome.1 == self@);
        Ok(result)
    }

    /// Updates the owner's project at `timestamp`, given the entity tag it was read with.
    pub fn update_at(
        &mut self,
        owner_id: &str,
        project_id: u128,
        if_match: &str,
        project: EditableProject,
        calculation_revision: Option<CalculationRevision>,
        timestamp: String,
    ) -> (r: Result<ProjectDocument, RepositoryError>)
        ensures
            exists|inputs_unchanged: Option<bool>, serialized_len: Option<usize>|
                (summary_result(r), final(self)@) == #[trigger] update_outcome(
                    old(self)@,
                    owner_id@,
                    project_id,
                    if_match@,
                    project,
                    revision_view(calculation_revision),
                    timestamp@,
                    inputs_unchanged,
                    serialized_len,
                ),
            r matches Ok(d) ==> d.settings == project.settings && final(self)@[(owner_id@, project_id)].resources
                == project.resources@ && same_resources(d.resources@, project.resources@),
            store_valid(final(self)@),
    {
        proof {
            use_type_invariant(&*self);
            self.lemma_store_valid();
        }
        let ghost m = self@;
        let ghost p0 = project;
        let ghost rv = revision_view(calculation_revision);
        let ghost ts = timestamp@;
        let i = match self.find(owner_id, project_id) {
            Some(i) => i,
            None => {
                assert(update_outcome(m, owner_id@, project_id, if_match@, p0, rv, ts, None, None).0 == Err::<
                    ProjectSummary,
                    RepositoryError,
                >(RepositoryError::NotFound));
                return Err(RepositoryError::NotFound);
            },
        };
        proof {
            lemma_project_map_at(self.projects@, i as int);
        }
        let stored = &self.projects[i];
        if !text_equals(stored.document.etag.as_str(), if_match) {
            assert(update_outcome(m, owner_id@, project_id, if_match@, p0, rv, ts, None, None).0 == Err::<
                ProjectSummary,
                RepositoryError,
            >(RepositoryError::PreconditionFailed));
            return Err(RepositoryError::PreconditionFailed);
        }
        if stored.version == u64::MAX {
            assert(update_outcome(m, owner_id@, project_id, if_match@, p0, rv, ts, None, None).0 == Err::<
                ProjectSummary,
                RepositoryError,
            >(RepositoryError::Unavailable));
            return Err(RepositoryError::Unavailable);
        }
        let version = stored.version + 1;
        let unchanged = match pricing_inputs_unchanged(&self.codec, &stored.document, &project) {
            Ok(b) => b,
            Err(e) => {
                assert(update_outcome(m, owner_id@, project_id, if_match@, p0, rv, ts, None, None).0 == Err::<
                    ProjectSummary,
                    RepositoryError,
                >(e));
                return Err(e);
            },
        };
        let document = updated_project_document(
            &stored.document,
            project,
            calculation_revision,
            timestamp,
            etag(version),
            unchanged,
        );
        let serialized_len = self.codec.document_json_len(&document);
        let ghost outcome = update_outcome(m, owner_id@, project_id, if_match@, p0, rv, ts, Some(unchanged), serialized_len);
        match enforce_document_size(serialized_len) {
            Ok(()) => {},
            Err(e) => {
                assert(outcome.0 == Err::<ProjectSummary, RepositoryError>(e));
                return Err(e);
            },
        }
        let result = copy_document(&document);
        self.put(StoredProject { document, version });
        proof {
            use_type_invariant(&*self);
            self.lemma_store_valid();
        }
        assert(outcome.1 == self@);
        Ok(result)
    }

    /// Deletes the owner's project with this id.
    pub fn delete(&mut self, owner_id: &str, project_id: u128) -> (r: Result<(), RepositoryError>)
        ensures
            (r, final(self)@) == delete_outcome(old(self)@, owner_id@, project_id),
            store_valid(final(self)@),
    {
        proof {
            use_type_invariant(&*self);
            self.lemma_store_valid();
        }
        let i = match self.find(owner_id, project_id) {
            Some(i) => i,
            None => {
                return Err(RepositoryError::NotFound);
            },
        };
        proof {
            lemma_project_map_at(self.projects@, i as int);
            lemma_project_map_remove(self.projects@, i as int);
            let after = self.projects@.remove(i as int);
            assert forall|j: int| 0 <= j < after.len() implies (#[trigger] after[j]).document.etag@ == project_etag_text(
                after[j].version,
            ) by {
                let j0 = if j < i { j } else { j + 1 };
                assert(after[j] == self.projects@[j0]);
            }
        }
        let mut records: Vec<StoredProject> = Vec::new();
        std::mem::swap(&mut records, &mut self.projects);
        records.remove(i);
        self.projects = records;
        proof {
            use_type_invariant(&*self);
            self.lemma_store_valid();
        }
        Ok(())
    }
}

/// Where project documents are kept, one per owner and id.
pub trait ProjectRepository {
    fn check_health(&self) -> Result<(), RepositoryError>;

    fn list(&self, owner_id: &str) -> Result<Vec<ProjectDocument>, RepositoryError>;

    fn create(
        &mut self,
        owner_id: &str,
        project: EditableProject,
        calculation_revision: Option<CalculationRevision>,
    ) -> Result<ProjectDocument, RepositoryError>;

    fn get(&self, owner_id: &str, project_id: u128) -> Result<ProjectDocument, RepositoryError>;

    fn update(
        &mut self,
        owner_id: &str,
        project_id: u128,
        if_match: &str,
        project: EditableProject,
        calculation_revision: Option<CalculationRevision>,
    ) -> Result<ProjectDocument, RepositoryError>;

    fn delete(&mut self, owner_id: &str, project_id: u128) -> Result<(), RepositoryError>;
}

impl<K: ProjectDocumentCodec> ProjectRepository for InMemoryProjectRepository<K> {
    /// The store answers.
    fn check_health(&self) -> (r: Result<(), RepositoryError>)
        ensures
            r is Ok,
    {
        InMemoryProjectRepository::check_health(self)
    }

    /// The owner's project documents, most recently updated first, then by id.
    fn list(&self, owner_id: &str) -> (r: Result<Vec<ProjectDocument>, RepositoryError>)
        ensures
            r matches Ok(docs) && is_listing(docs@, self@, owner_id@),
    {
        InMemoryProjectRepository::list(self, owner_id)
    }

    /// Creates a project of the owner under a new random id, timestamped now.
    fn create(
        &mut self,
        owner_id: &str,
        project: EditableProject,
        calculation_revision: Option<CalculationRevision>,
    ) -> (r: Result<ProjectDocument, RepositoryError>)
        ensures
            (r == Err::<ProjectDocument, RepositoryError>(RepositoryError::Unavailable) && final(self)@ == old(self)@)
                || exists|id: u128, timestamp: Seq<char>, serialized_len: Option<usize>|
                (summary_result(r), final(self)@) == #[trigger] create_outcome(
                    old(self)@,
                    owner_id@,
                    id,
                    project,
                    revision_view(calculation_revision),
                    timestamp,
                    serialized_len,
                ),
            r matches Ok(d) ==> d.settings == project.settings && same_resources(d.resources@, project.resources@),
    {
        let timestamp = match current_timestamp() {
            Ok(t) => t,
            Err(e) => {
                return Err(e);
            },
        };
        let id = new_uuid();
        self.create_at(owner_id, id, project, calculation_revision, timestamp)
    }

    /// The owner's project with this id.
    fn get(&self, owner_id: &str, project_id: u128) -> (r: Result<ProjectDocument, RepositoryError>)
        ensures
            match r {
                Ok(d) => self@.contains_key((owner_id@, project_id)) && summary(d) == self@[(owner_id@, project_id)].summary
                    && d.settings == self@[(owner_id@, project_id)].settings && same_resources(
                    d.resources@,
                    self@[(owner_id@, project_id)].resources,
                ),
                Err(e) => e == RepositoryError::NotFound && !self@.contains_key((owner_id@, project_id)),
            },
    {
        InMemoryProjectRepository::get(self, owner_id, project_id)
    }

    /// Updates the owner's project, timestamped now, given the entity tag it was read with.
    fn update(
        &mut self,
        owner_id: &str,
        project_id: u128,
        if_match: &str,
        project: EditableProject,
        calculation_revision: Option<CalculationRevision>,
    ) -> (r: Result<ProjectDocument, RepositoryError>)
        ensures
            (r == Err::<ProjectDocument, RepositoryError>(RepositoryError::Unavailable) && final(self)@ == old(self)@)
                || exists|
                    timestamp: Seq<char>,
                    inputs_unchanged: Option<bool>,
                    serialized_len: Option<usize>,
                |
                (summary_result(r), final(self)@) == #[trigger] update_outcome(
                    old(self)@,
                    owner_id@,
                    project_id,
                    if_match@,
                    project,
                    revision_view(calculation_revision),
                    timestamp,
                    inputs_unchanged,
                    serialized_len,
                ),
            r matches Ok(d) ==> d.settings == project.settings && same_resources(d.resources@, project.resources@),
    {
        let timestamp = match current_timestamp() {
            Ok(t) => t,
            Err(e) => {
                return Err(e);
            },
        };
        self.update_at(owner_id, project_id, if_match, project, calculation_revision, timestamp)
    }

    /// Deletes the owner's project with this id.
    fn delete(&mut self, owner_id: &str, project_id: u128) -> (r: Result<(), RepositoryError>)
        ensures
            (r, final(self)@) == delete_outcome(old(self)@, owner_id@, project_id),
    {
        InMemoryProjectRepository::delete(self, owner_id, project_id)
    }
}

// ---------------------------------------------------------------------------
// Laws of the project store.
// ---------------------------------------------------------------------------

/// Project operations are owner-scoped: creating, updating or deleting a
/// project of one owner leaves every project of another owner as it was, and an
/// owner reads or deletes only a project stored under its own name.
pub proof fn lemma_projects_are_owner_scoped(
    m: Map<ProjectKey, StoredProjectView>,
    owner: Seq<char>,
    id: u128,
    if_match: Seq<char>,
    project: EditableProject,
    revision: Option<Seq<char>>,
    timestamp: Seq<char>,
    inputs_unchanged: Option<bool>,
    serialized_len: Option<usize>,
    other: ProjectKey,
)
    requires
        other.0 != owner,
    ensures
        create_outcome(m, owner, id, project, revision, timestamp, serialized_len).1.contains_key(other)
            == m.contains_key(other),
        create_outcome(m, owner, id, project, revision, timestamp, serialized_len).1[other] == m[other],
        update_outcome(m, owner, id, if_match, project, revision, timestamp, inputs_unchanged, serialized_len).1.contains_key(
            other,
        ) == m.contains_key(other),
        update_outcome(m, owner, id, if_match, project, revision, timestamp, inputs_unchanged, serialized_len).1[other]
            == m[other],
        delete_outcome(m, owner, id).1.contains_key(other) == m.contains_key(other),
        delete_outcome(m, owner, id).1[other] == m[other],
        !m.contains_key((owner, id)) ==> delete_outcome(m, owner, id).0 == Err::<(), RepositoryError>(
            RepositoryError::NotFound,
        ),
{
}

/// An update is accepted only with the current entity tag: any other tag is
/// refused as a failed precondition and changes nothing.
pub proof fn lemma_update_requires_current_etag(
    m: Map<ProjectKey, StoredProjectView>,
    owner: Seq<char>,
    id: u128,
    if_match: Seq<char>,
    project: EditableProject,
    revision: Option<Seq<char>>,
    timestamp: Seq<char>,
    inputs_unchanged: Option<bool>,
    serialized_len: Option<usize>,
)
    requires
        m.contains_key((owner, id)),
        m[(owner, id)].summary.etag != if_match,
    ensures
        update_outcome(m, owner, id, if_match, project, revision, timestamp, inputs_unchanged, serialized_len) == (
            Err::<ProjectSummary, RepositoryError>(RepositoryError::PreconditionFailed),
            m,
        ),
{
}

/// A successful update gives the project a new entity tag, keeps its id, owner
/// and creation time, and leaves every tag the tag of its version.
pub proof fn lemma_update_replaces_etag(
    m: Map<ProjectKey, StoredProjectView>,
    owner: Seq<char>,
    id: u128,
    if_match: Seq<char>,
    project: EditableProject,
    revision: Option<Seq<char>>,
    timestamp: Seq<char>,
    inputs_unchanged: Option<bool>,
    serialized_len: Option<usize>,
)
    requires
        store_valid(m),
        update_outcome(m, owner, id, if_match, project, revision, timestamp, inputs_unchanged, serialized_len).0 is Ok,
    ensures
        ({
            let m1 = update_outcome(m, owner, id, if_match, project, revision, timestamp, inputs_unchanged, serialized_len).1;
            &&& m1.contains_key((owner, id))
            &&& m1[(owner, id)].summary.etag != m[(owner, id)].summary.etag
            &&& m1[(owner, id)].summary.id == id
            &&& m1[(owner, id)].summary.owner_id == m[(owner, id)].summary.owner_id
            &&& m1[(owner, id)].summary.created_at == m[(owner, id)].summary.created_at
            &&& m1[(owner, id)].summary.name == project.name@
            &&& store_valid(m1)
        }),
{
    let key = (owner, id);
    let v = m[key].version;
    let version = (v + 1) as u64;
    lemma_decimal_digits_injective(v as nat, version as nat);
    let a = project_etag_text(v);
    let b = project_etag_text(version);
    reveal_strlit("\"");
    if a == b {
        assert(a.subrange(1, a.len() - 1) =~= decimal_digits(v as nat));
        assert(b.subrange(1, b.len() - 1) =~= decimal_digits(version as nat));
    }
    assert(m.contains_key(key));
    assert(m[key].summary.etag == a);
    let m1 = update_outcome(m, owner, id, if_match, project, revision, timestamp, inputs_unchanged, serialized_len).1;
    assert(m1[key].summary.etag == b);
    assert forall|k: ProjectKey| #[trigger] m1.contains_key(k) implies m1[k].summary.etag == project_etag_text(
        m1[k].version,
    ) && m1[k].summary.owner_id == k.0 && m1[k].summary.id == k.1 by {
        if k != key {
            assert(m.contains_key(k));
        }
    }
}

/// Edits that leave the pricing inputs as they were keep the stored calculation
/// revision; edits of the pricing inputs record the revision given with them.
pub proof fn lemma_revision_retention(
    m: Map<ProjectKey, StoredProjectView>,
    owner: Seq<char>,
    id: u128,
    if_match: Seq<char>,
    project: EditableProject,
    revision: Option<Seq<char>>,
    timestamp: Seq<char>,
    unchanged: bool,
    serialized_len: Option<usize>,
)
    requires
        update_outcome(m, owner, id, if_match, project, revision, timestamp, Some(unchanged), serialized_len).0 is Ok,
    ensures
        ({
            let m1 = update_outcome(m, owner, id, if_match, project, revision, timestamp, Some(unchanged), serialized_len).1;
            &&& unchanged ==> m1[(owner, id)].summary.latest_calculation_revision == m[(
                owner,
                id,
            )].summary.latest_calculation_revision
            &&& !unchanged ==> m1[(owner, id)].summary.latest_calculation_revision == revision
        }),
{
}

/// A created project is stored under its owner at the first version, and the
/// store stays valid.
pub proof fn lemma_created_project_is_stored(
    m: Map<ProjectKey, StoredProjectView>,
    owner: Seq<char>,
    id: u128,
    project: EditableProject,
    revision: Option<Seq<char>>,
    timestamp: Seq<char>,
    serialized_len: Option<usize>,
)
    requires
        store_valid(m),
        create_outcome(m, owner, id, project, revision, timestamp, serialized_len).0 is Ok,
    ensures
        ({
            let (r, m1) = create_outcome(m, owner, id, project, revision, timestamp, serialized_len);
            &&& m1.contains_key((owner, id))
            &&& r == Ok::<ProjectSummary, RepositoryError>(m1[(owner, id)].summary)
            &&& m1[(owner, id)].version == 1
            &&& m1[(owner, id)].summary.created_at == m1[(owner, id)].summary.updated_at
            &&& store_valid(m1)
        }),
{
}

} // verus!
