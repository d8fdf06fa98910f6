use vstd::prelude::*;

use crate::decimal::DecimalValue;
use crate::digest::{hex_digest_text, sha256_hex_text};
use crate::instant::{current_instant, format_rfc3339, parse_rfc3339, rfc3339_parse, rfc3339_renderable, valid_instant, NANOS_PER_SECOND};
use crate::text::{decimal_digits, join_text, text_equals, u64_text};

verus! {

pub const CALCULATOR_LAUNCH_DOCUMENT_TYPE: &'static str = "azure_calculator_launch";

pub const CALCULATOR_MANIFEST_VERSION: u16 = 1;

pub const CALCULATOR_PROTOCOL_VERSION: u16 = 1;

pub const CALCULATOR_CONTRACT_VERSION: &'static str = "2026-08-23";

pub const MINIMUM_COMPANION_VERSION: &'static str = "1.0.0";

pub const MAX_CALCULATOR_MANIFEST_ITEMS: usize = 25;

pub const MAX_CALCULATOR_MANIFEST_BYTES: usize = 262_144;

/// The public pricing calculator a manifest is written for.
pub const CALCULATOR_URL: &'static str = "https://azure.microsoft.com/en-us/pricing/calculator/";

pub const MANIFEST_CURRENCY: &'static str = "USD";

pub const MANIFEST_LOCALE: &'static str = "en-US";

/// How long a ready or claimed launch stays open.
pub const ACTIVE_TTL_SECONDS: i64 = 600;

/// How long the tombstone of a consumed launch is kept.
pub const CONSUMED_TTL_SECONDS: i64 = 86_400;

#[derive(Clone, Copy, Debug, PartialEq, Eq, Structural)]
pub enum CalculatorProduct {
    AzureSqlManagedInstance,
}

#[derive(Clone, Copy, Debug, PartialEq, Eq, Structural)]
pub enum CalculatorDeploymentModel {
    SingleInstance,
}

#[derive(Clone, Copy, Debug, PartialEq, Eq, Structural)]
pub enum CalculatorServiceTier {
    NextGenerationGeneralPurpose,
    BusinessCritical,
}

#[derive(Clone, Copy, Debug, PartialEq, Eq, Structural)]
pub enum CalculatorHardwareFamily {
    PremiumSeries,
    PremiumSeriesMemoryOptimized,
}

#[derive(Clone, Copy, Debug, PartialEq, Eq, Structural)]
pub enum CalculatorPurchaseOption {
    Payg,
    OneYearReservation,
    ThreeYearReservation,
    OneYearSavingsPlan,
}

#[derive(Clone, Copy, Debug)]
pub struct CalculatorExpectedPublicAnnual {
    pub compute: DecimalValue,
    pub additional_memory: DecimalValue,
    pub license: DecimalValue,
    pub storage: DecimalValue,
    pub total_before_parity: DecimalValue,
}

#[derive(Clone, Debug)]
pub struct CalculatorManifestItem {
    pub item_key: String,
    pub display_name: String,
    pub product: CalculatorProduct,
    pub region: String,
    pub deployment_model: CalculatorDeploymentModel,
    pub service_tier: CalculatorServiceTier,
    pub hardware_family: CalculatorHardwareFamily,
    pub vcores: u32,
    pub selected_memory_gb: DecimalValue,
    pub zone_redundant: bool,
    pub quantity: u32,
    pub hours_per_month: DecimalValue,
    pub purchase_option: CalculatorPurchaseOption,
    pub azure_hybrid_benefit: bool,
    pub data_storage_gb: DecimalValue,
    pub backup_storage_gb: DecimalValue,
    pub expected_public_annual: CalculatorExpectedPublicAnnual,
}

/// What a companion enters into the public pricing calculator.
#[derive(Clone, Debug)]
pub struct CalculatorManifest {
    pub schema_version: u16,
    pub calculator_contract_version: String,
    pub calculator_url: String,
    pub generated_at: String,
    pub currency: String,
    pub locale: String,
    pub items: Vec<CalculatorManifestItem>,
}

#[derive(Clone, Copy, Debug, PartialEq, Eq, Structural)]
pub enum CalculatorLaunchStatus {
    Ready,
    Claimed,
    Consumed,
}

/// A launch of the pricing calculator for one owner: ready, then claimed by one
/// companion instance, then consumed, when its manifest is dropped.
#[derive(Clone, Debug)]
pub struct CalculatorLaunchDocument {
    pub id: u128,
    pub document_type: String,
    pub owner_id: String,
    pub source_project_id: Option<u128>,
    pub source_project_etag: Option<String>,
    pub source_formula_version: Option<String>,
    pub source_azure_snapshot_id: Option<String>,
    pub status: CalculatorLaunchStatus,
    pub protocol_version: u16,
    pub manifest_version: u16,
    pub calculator_contract_version: String,
    pub minimum_companion_version: String,
    pub manifest_sha256: Option<String>,
    pub manifest: Option<CalculatorManifest>,
    pub companion_instance_id: Option<u128>,
    pub companion_version: Option<String>,
    pub created_at: String,
    pub claim_expires_at: String,
    pub updated_at: String,
    pub ttl: i64,
    pub etag: String,
}

/// A launch to create: the project it prices and its manifest, with the
/// manifest's JSON serialization, which its digest and size are taken of.
#[derive(Clone, Debug)]
pub struct NewCalculatorLaunch {
    pub id: u128,
    pub source_project_id: u128,
    pub source_project_etag: String,
    pub source_formula_version: String,
    pub source_azure_snapshot_id: String,
    pub manifest: CalculatorManifest,
    pub manifest_json: Vec<u8>,
}

#[derive(Clone, Debug)]
pub struct CreatedCalculatorLaunch {
    pub document: CalculatorLaunchDocument,
    pub created: bool,
}

#[derive(Clone, Copy, Debug, PartialEq, Eq, Structural)]
pub enum CalculatorLaunchError {
    NotFound,
    Conflict,
    Expired,
    PreconditionFailed,
    InvalidManifest,
    PayloadTooLarge,
    Unavailable,
}

impl CalculatorLaunchError {
    /// The error's message as text.
    pub open spec fn spec_message(&self) -> Seq<char> {
        match self {
            CalculatorLaunchError::NotFound => "calculator launch was not found"@,
            CalculatorLaunchError::Conflict => "calculator launch conflicts with an existing launch"@,
            CalculatorLaunchError::Expired => "calculator launch has expired"@,
            CalculatorLaunchError::PreconditionFailed => "calculator launch ETag did not match"@,
            CalculatorLaunchError::InvalidManifest => "calculator launch manifest is invalid"@,
            CalculatorLaunchError::PayloadTooLarge => "calculator launch manifest exceeds the persistence limit"@,
            CalculatorLaunchError::Unavailable => "calculator launch persistence is unavailable"@,
        }
    }

    /// The error's message.
    pub fn message(&self) -> (r: &'static str)
        ensures
            r@ == self.spec_message(),
    {
        match self {
            CalculatorLaunchError::NotFound => "calculator launch was not found",
            CalculatorLaunchError::Conflict => "calculator launch conflicts with an existing launch",
            CalculatorLaunchError::Expired => "calculator launch has expired",
            CalculatorLaunchError::PreconditionFailed => "calculator launch ETag did not match",
            CalculatorLaunchError::InvalidManifest => "calculator launch manifest is invalid",
            CalculatorLaunchError::PayloadTooLarge => "calculator launch manifest exceeds the persistence limit",
            CalculatorLaunchError::Unavailable => "calculator launch persistence is unavailable",
        }
    }
}

// ---------------------------------------------------------------------------
// Plain views.
// ---------------------------------------------------------------------------

/// A manifest as plain values.
pub struct ManifestView {
    pub schema_version: u16,
    pub calculator_contract_version: Seq<char>,
    pub calculator_url: Seq<char>,
    pub generated_at: Seq<char>,
    pub currency: Seq<char>,
    pub locale: Seq<char>,
    pub items: Seq<CalculatorManifestItem>,
}

impl View for CalculatorManifest {
    type V = ManifestView;

    open spec fn view(&self) -> ManifestView {
        ManifestView {
            schema_version: self.schema_version,
            calculator_contract_version: self.calculator_contract_version@,
            calculator_url: self.calculator_url@,
            generated_at: self.generated_at@,
            currency: self.currency@,
            locale: self.locale@,
            items: self.items@,
        }
    }
}

pub open spec fn opt_text(value: Option<String>) -> Option<Seq<char>> {
    match value {
        Some(s) => Some(s@),
        None => None,
    }
}

pub open spec fn opt_manifest(value: Option<CalculatorManifest>) -> Option<ManifestView> {
    match value {
        Some(m) => Some(m@),
        None => None,
    }
}

/// A launch document as plain values.
pub struct LaunchView {
    pub id: u128,
    pub document_type: Seq<char>,
    pub owner_id: Seq<char>,
    pub source_project_id: Option<u128>,
    pub source_project_etag: Option<Seq<char>>,
    pub source_formula_version: Option<Seq<char>>,
    pub source_azure_snapshot_id: Option<Seq<char>>,
    pub status: CalculatorLaunchStatus,
    pub protocol_version: u16,
    pub manifest_version: u16,
    pub calculator_contract_version: Seq<char>,
    pub minimum_companion_version: Seq<char>,
    pub manifest_sha256: Option<Seq<char>>,
    pub manifest: Option<ManifestView>,
    pub companion_instance_id: Option<u128>,
    pub companion_version: Option<Seq<char>>,
    pub created_at: Seq<char>,
    pub claim_expires_at: Seq<char>,
    pub updated_at: Seq<char>,
    pub ttl: i64,
    pub etag: Seq<char>,
}

impl View for CalculatorLaunchDocument {
    type V = LaunchView;

    open spec fn view(&self) -> LaunchView {
        LaunchView {
            id: self.id,
            document_type: self.document_type@,
            owner_id: self.owner_id@,
            source_project_id: self.source_project_id,
            source_project_etag: opt_text(self.source_project_etag),
            source_formula_version: opt_text(self.source_formula_version),
            source_azure_snapshot_id: opt_text(self.source_azure_snapshot_id),
            status: self.status,
            protocol_version: self.protocol_version,
            manifest_version: self.manifest_version,
            calculator_contract_version: self.calculator_contract_version@,
            minimum_companion_version: self.minimum_companion_version@,
            manifest_sha256: opt_text(self.manifest_sha256),
            manifest: opt_manifest(self.manifest),
            companion_instance_id: self.companion_instance_id,
            companion_version: opt_text(self.companion_version),
            created_at: self.created_at@,
            claim_expires_at: self.claim_expires_at@,
            updated_at: self.updated_at@,
            ttl: self.ttl,
            etag: self.etag@,
        }
    }
}

fn copy_text(value: &Option<String>) -> (r: Option<String>)
    ensures
        r == *value,
{
    match value {
        Some(s) => Some(s.clone()),
        None => None,
    }
}

impl CalculatorManifestItem {
    /// A copy of the item.
    pub fn copy(&self) -> (r: CalculatorManifestItem)
        ensures
            r == *self,
    {
        CalculatorManifestItem {
            item_key: self.item_key.clone(),
            display_name: self.display_name.clone(),
            product: self.product,
            region: self.region.clone(),
            deployment_model: self.deployment_model,
            service_tier: self.service_tier,
            hardware_family: self.hardware_family,
            vcores: self.vcores,
            selected_memory_gb: self.selected_memory_gb,
            zone_redundant: self.zone_redundant,
            quantity: self.quantity,
            hours_per_month: self.hours_per_month,
            purchase_option: self.purchase_option,
            azure_hybrid_benefit: self.azure_hybrid_benefit,
            data_storage_gb: self.data_storage_gb,
            backup_storage_gb: self.backup_storage_gb,
            expected_public_annual: self.expected_public_annual,
        }
    }
}

impl CalculatorManifest {
    /// A copy of the manifest.
    pub fn copy(&self) -> (r: CalculatorManifest)
        ensures
            r@ == self@,
    {
        let mut items: Vec<CalculatorManifestItem> = Vec::new();
        let mut i: usize = 0;
        while i < self.items.len()
            invariant
                i <= self.items@.len(),
                items@ == self.items@.subrange(0, i as int),
            decreases self.items@.len() - i,
        {
            items.push(self.items[i].copy());
            i = i + 1;
            assert(items@ =~= self.items@.subrange(0, i as int));
        }
        assert(items@ =~= self.items@);
        CalculatorManifest {
            schema_version: self.schema_version,
            calculator_contract_version: self.calculator_contract_version.clone(),
            calculator_url: self.calculator_url.clone(),
            generated_at: self.generated_at.clone(),
            currency: self.currency.clone(),
            locale: self.locale.clone(),
            items,
        }
    }
}

fn copy_manifest(value: &Option<CalculatorManifest>) -> (r: Option<CalculatorManifest>)
    ensures
        opt_manifest(r) == opt_manifest(*value),
{
    match value {
        Some(m) => Some(m.copy()),
        None => None,
    }
}

impl CalculatorLaunchDocument {
    /// A copy of the document.
    pub fn copy(&self) -> (r: CalculatorLaunchDocument)
        ensures
            r@ == self@,
    {
        CalculatorLaunchDocument {
            id: self.id,
            document_type: self.document_type.clone(),
            owner_id: self.owner_id.clone(),
            source_project_id: self.source_project_id,
            source_project_etag: copy_text(&self.source_project_etag),
            source_formula_version: copy_text(&self.source_formula_version),
            source_azure_snapshot_id: copy_text(&self.source_azure_snapshot_id),
            status: self.status,
            protocol_version: self.protocol_version,
            manifest_version: self.manifest_version,
            calculator_contract_version: self.calculator_contract_version.clone(),
            minimum_companion_version: self.minimum_companion_version.clone(),
            manifest_sha256: copy_text(&self.manifest_sha256),
            manifest: copy_manifest(&self.manifest),
            companion_instance_id: self.companion_instance_id,
            companion_version: copy_text(&self.companion_version),
            created_at: self.created_at.clone(),
            claim_expires_at: self.claim_expires_at.clone(),
            updated_at: self.updated_at.clone(),
            ttl: self.ttl,
            etag: self.etag.clone(),
        }
    }
}

// ---------------------------------------------------------------------------
// Manifests.
// ---------------------------------------------------------------------------

/// The manifest is written for this calculator contract: its version, the public
/// calculator, US dollars in the en-US locale, and one to 25 items.
pub open spec fn manifest_fields_valid(m: ManifestView) -> bool {
    &&& m.schema_version == CALCULATOR_MANIFEST_VERSION
    &&& m.calculator_contract_version == CALCULATOR_CONTRACT_VERSION@
    &&& m.calculator_url == CALCULATOR_URL@
    &&& m.currency == MANIFEST_CURRENCY@
    &&& m.locale == MANIFEST_LOCALE@
    &&& 0 < m.items.len() <= MAX_CALCULATOR_MANIFEST_ITEMS
}

/// What manifest validation answers: `None` for an accepted manifest.
pub open spec fn manifest_error(m: ManifestView, json_len: nat) -> Option<CalculatorLaunchError> {
    if !manifest_fields_valid(m) {
        Some(CalculatorLaunchError::InvalidManifest)
    } else if json_len > MAX_CALCULATOR_MANIFEST_BYTES {
        Some(CalculatorLaunchError::PayloadTooLarge)
    } else {
        None
    }
}

pub open spec fn as_result(e: Option<CalculatorLaunchError>) -> Result<(), CalculatorLaunchError> {
    match e {
        Some(e) => Err(e),
        None => Ok(()),
    }
}

/// Accepts a manifest for this calculator contract whose JSON serialization,
/// `manifest_json`, fits the size limit.
pub fn validate_manifest(manifest: &CalculatorManifest, manifest_json: &[u8]) -> (r: Result<(), CalculatorLaunchError>)
    ensures
        r == as_result(manifest_error(manifest@, manifest_json@.len())),
{
    if manifest.schema_version != CALCULATOR_MANIFEST_VERSION || !text_equals(
        manifest.calculator_contract_version.as_str(),
        CALCULATOR_CONTRACT_VERSION,
    ) || !text_equals(manifest.calculator_url.as_str(), CALCULATOR_URL) || !text_equals(
        manifest.currency.as_str(),
        MANIFEST_CURRENCY,
    ) || !text_equals(manifest.locale.as_str(), MANIFEST_LOCALE) || manifest.items.len() == 0
        || manifest.items.len() > MAX_CALCULATOR_MANIFEST_ITEMS {
        return Err(CalculatorLaunchError::InvalidManifest);
    }
    if manifest_json.len() > MAX_CALCULATOR_MANIFEST_BYTES {
        return Err(CalculatorLaunchError::PayloadTooLarge);
    }
    Ok(())
}

/// The manifest's digest: the lowercase hexadecimal SHA-256 of its JSON serialization.
pub fn manifest_sha256(manifest_json: &[u8]) -> (r: String)
    ensures
        r@ == hex_digest_text(manifest_json@),
{
    sha256_hex_text(manifest_json)
}

/// The entity tag of a launch at a stored version.
pub open spec fn launch_etag_text(version: u64) -> Seq<char> {
    "\"calculator-launch-"@ + decimal_digits(version as nat) + "\""@
}

/// The entity tag of a launch at a stored version.
pub fn launch_etag(version: u64) -> (r: String)
    ensures
        r@ == launch_etag_text(version),
{
    let digits = u64_text(version);
    let head = join_text("\"calculator-launch-", digits.as_str());
    join_text(head.as_str(), "\"")
}

// ---------------------------------------------------------------------------
// Documents.
// ---------------------------------------------------------------------------

/// The manifest payload of an open launch is present in full.
pub open spec fn active_payload_present(v: LaunchView) -> bool {
    &&& v.source_project_id is Some
    &&& v.source_project_etag is Some
    &&& v.source_formula_version is Some
    &&& v.source_azure_snapshot_id is Some
    &&& v.manifest_sha256 is Some
    &&& v.manifest is Some
}

/// The document's envelope names this owner, this launch and this protocol.
pub open spec fn envelope_valid(v: LaunchView, owner_id: Seq<char>, expected_id: Option<u128>) -> bool {
    &&& v.document_type == CALCULATOR_LAUNCH_DOCUMENT_TYPE@
    &&& v.owner_id == owner_id
    &&& (expected_id matches Some(id) ==> v.id == id)
    &&& v.protocol_version == CALCULATOR_PROTOCOL_VERSION
    &&& v.manifest_version == CALCULATOR_MANIFEST_VERSION
    &&& v.calculator_contract_version == CALCULATOR_CONTRACT_VERSION@
    &&& v.minimum_companion_version == MINIMUM_COMPANION_VERSION@
    &&& v.ttl > 0
    &&& v.etag.len() > 0
}

/// Each status carries what it should: a ready launch its payload and no
/// companion, a claimed one both, a consumed one only its companion.
pub open spec fn status_consistent(v: LaunchView) -> bool {
    match v.status {
        CalculatorLaunchStatus::Ready => active_payload_present(v) && v.companion_instance_id is None
            && v.companion_version is None,
        CalculatorLaunchStatus::Claimed => active_payload_present(v) && v.companion_instance_id is Some
            && v.companion_version is Some,
        CalculatorLaunchStatus::Consumed => !active_payload_present(v) && v.companion_instance_id is Some
            && v.companion_version is Some,
    }
}

/// The three timestamps are RFC 3339.
pub open spec fn timestamps_parse(v: LaunchView) -> bool {
    &&& rfc3339_parse(v.created_at) is Some
    &&& rfc3339_parse(v.claim_expires_at) is Some
    &&& rfc3339_parse(v.updated_at) is Some
}

/// What document validation answers, given the JSON serialization of the
/// document's manifest: `None` for an accepted document.
pub open spec fn document_error(v: LaunchView, owner_id: Seq<char>, expected_id: Option<u128>, manifest_json: Seq<u8>) -> Option<
    CalculatorLaunchError,
> {
    if !envelope_valid(v, owner_id, expected_id) || !status_consistent(v) {
        Some(CalculatorLaunchError::Unavailable)
    } else if v.manifest is Some && v.manifest_sha256 is Some && manifest_error(
        v.manifest.unwrap(),
        manifest_json.len(),
    ) is Some {
        manifest_error(v.manifest.unwrap(), manifest_json.len())
    } else if v.manifest is Some && v.manifest_sha256 is Some && hex_digest_text(manifest_json)
        != v.manifest_sha256.unwrap() {
        Some(CalculatorLaunchError::Unavailable)
    } else if !timestamps_parse(v) {
        Some(CalculatorLaunchError::Unavailable)
    } else {
        None
    }
}

fn opt_is_some<T>(value: &Option<T>) -> (r: bool)
    ensures
        r == value is Some,
{
    match value {
        Some(_) => true,
        None => false,
    }
}

/// Accepts a stored document only for its owner and launch, with a consistent
/// status, an intact manifest and readable timestamps; `manifest_json` is the
/// JSON serialization of the document's manifest.
pub fn validate_document(
    document: &CalculatorLaunchDocument,
    owner_id: &str,
    expected_id: Option<u128>,
    manifest_json: &[u8],
) -> (r: Result<(), CalculatorLaunchError>)
    ensures
        r == as_result(document_error(document@, owner_id@, expected_id, manifest_json@)),
{
    let id_mismatch = match expected_id {
        Some(id) => document.id != id,
        None => false,
    };
    if !text_equals(document.document_type.as_str(), CALCULATOR_LAUNCH_DOCUMENT_TYPE) || !text_equals(
        document.owner_id.as_str(),
        owner_id,
    ) || id_mismatch || document.protocol_version != CALCULATOR_PROTOCOL_VERSION || document.manifest_version
        != CALCULATOR_MANIFEST_VERSION || !text_equals(
        document.calculator_contract_version.as_str(),
        CALCULATOR_CONTRACT_VERSION,
    ) || !text_equals(document.minimum_companion_version.as_str(), MINIMUM_COMPANION_VERSION) || document.ttl
        <= 0 || document.etag.as_str().is_empty() {
        return Err(CalculatorLaunchError::Unavailable);
    }
    let active_payload_present = opt_is_some(&document.source_project_id) && opt_is_some(
        &document.source_project_etag,
    ) && opt_is_some(&document.source_formula_version) && opt_is_some(&document.source_azure_snapshot_id)
        && opt_is_some(&document.manifest_sha256) && opt_is_some(&document.manifest);
    let has_companion = opt_is_some(&document.companion_instance_id);
    let has_companion_version = opt_is_some(&document.companion_version);
    let consistent = match document.status {
        CalculatorLaunchStatus::Ready => active_payload_present && !has_companion && !has_companion_version,
        CalculatorLaunchStatus::Claimed => active_payload_present && has_companion && has_companion_version,
        CalculatorLaunchStatus::Consumed => !active_payload_present && has_companion && has_companion_version,
    };
    if !consistent {
        return Err(CalculatorLaunchError::Unavailable);
    }
    match (&document.manifest, &document.manifest_sha256) {
        (Some(manifest), Some(expected_hash)) => {
            match validate_manifest(manifest, manifest_json) {
                Ok(()) => {},
                Err(e) => {
                    return Err(e);
                },
            }
            let actual = manifest_sha256(manifest_json);
            if !text_equals(actual.as_str(), expected_hash.as_str()) {
                return Err(CalculatorLaunchError::Unavailable);
            }
        },
        _ => {},
    }
    match parse_timestamp(document.created_at.as_str()) {
        Ok(_) => {},
        Err(e) => {
            return Err(e);
        },
    }
    match parse_timestamp(document.claim_expires_at.as_str()) {
        Ok(_) => {},
        Err(e) => {
            return Err(e);
        },
    }
    match parse_timestamp(document.updated_at.as_str()) {
        Ok(_) => {},
        Err(e) => {
            return Err(e);
        },
    }
    Ok(())
}

/// Whether a launch has expired at `now`: `None` when its expiry is unreadable.
pub open spec fn expired_at(v: LaunchView, now: int) -> Option<bool> {
    match rfc3339_parse(v.claim_expires_at) {
        Some((expires, _)) => Some(now >= expires),
        None => None,
    }
}

/// Parses an RFC 3339 timestamp, as nanoseconds since the Unix epoch.
pub fn parse_timestamp(value: &str) -> (r: Result<i128, CalculatorLaunchError>)
    ensures
        match rfc3339_parse(value@) {
            Some((t, _)) => r == Ok::<i128, CalculatorLaunchError>(t),
            None => r == Err::<i128, CalculatorLaunchError>(CalculatorLaunchError::Unavailable),
        },
{
    match parse_rfc3339(value) {
        Some((t, _)) => Ok(t),
        None => Err(CalculatorLaunchError::Unavailable),
    }
}

/// Whether the launch has expired at `now` (nanoseconds since the Unix epoch).
pub fn is_expired(document: &CalculatorLaunchDocument, now: i128) -> (r: Result<bool, CalculatorLaunchError>)
    ensures
        match expired_at(document@, now as int) {
            Some(b) => r == Ok::<bool, CalculatorLaunchError>(b),
            None => r == Err::<bool, CalculatorLaunchError>(CalculatorLaunchError::Unavailable),
        },
{
    match parse_timestamp(document.claim_expires_at.as_str()) {
        Ok(expires) => Ok(now >= expires),
        Err(e) => Err(e),
    }
}

/// What the expiry check answers: `Expired` once expired, `Unavailable` for an
/// unreadable expiry.
pub open spec fn expiry_error(v: LaunchView, now: int) -> Option<CalculatorLaunchError> {
    match expired_at(v, now) {
        Some(true) => Some(CalculatorLaunchError::Expired),
        Some(false) => None,
        None => Some(CalculatorLaunchError::Unavailable),
    }
}

/// Refuses a launch that has expired at `now`.
pub fn ensure_not_expired(document: &CalculatorLaunchDocument, now: i128) -> (r: Result<(), CalculatorLaunchError>)
    ensures
        r == as_result(expiry_error(document@, now as int)),
{
    match is_expired(document, now) {
        Ok(true) => Err(CalculatorLaunchError::Expired),
        Ok(false) => Ok(()),
        Err(e) => Err(e),
    }
}

/// The RFC 3339 text of the instant `seconds` after `now`, when there is one;
/// it reads back as that instant in UTC.
pub open spec fn offset_text(now: int, seconds: int) -> Option<Seq<char>> {
    let t = now + seconds * NANOS_PER_SECOND;
    if rfc3339_renderable(t) && rfc3339_parse(crate::instant::rfc3339_text(t)) == Some((t as i128, 0i32)) {
        Some(crate::instant::rfc3339_text(t))
    } else {
        None
    }
}

/// Formats the instant `seconds` after `now`; `Unavailable` where it has no
/// RFC 3339 text.
pub fn format_after(now: i128, seconds: i64) -> (r: Result<String, CalculatorLaunchError>)
    requires
        0 <= seconds <= CONSUMED_TTL_SECONDS,
    ensures
        match offset_text(now as int, seconds as int) {
            Some(t) => r matches Ok(s) && s@ == t,
            None => r == Err::<String, CalculatorLaunchError>(CalculatorLaunchError::Unavailable),
        },
{
    let delta: i128 = (seconds as i128) * NANOS_PER_SECOND;
    match now.checked_add(delta) {
        Some(t) => match format_rfc3339(t) {
            Some(s) => Ok(s),
            None => Err(CalculatorLaunchError::Unavailable),
        },
        None => Err(CalculatorLaunchError::Unavailable),
    }
}

// ---------------------------------------------------------------------------
// The launch store.
// ---------------------------------------------------------------------------

/// The clock a launch store reads: nanoseconds since the Unix epoch.
pub trait CalculatorLaunchClock {
    fn now(&self) -> i128;
}

/// The system clock.
#[derive(Debug)]
pub struct SystemCalculatorLaunchClock;

impl CalculatorLaunchClock for SystemCalculatorLaunchClock {
    /// The instant the system clock reads, one the date-time type represents.
    fn now(&self) -> (r: i128)
        ensures
            valid_instant(r as int),
    {
        current_instant()
    }
}

/// Where launches are kept, one per owner and launch id.
pub trait CalculatorLaunchRepository {
    fn create(&mut self, owner_id: &str, launch: NewCalculatorLaunch) -> Result<
        CreatedCalculatorLaunch,
        CalculatorLaunchError,
    >;

    fn claim(
        &mut self,
        owner_id: &str,
        launch_id: u128,
        companion_instance_id: u128,
        companion_version: &str,
    ) -> Result<CalculatorLaunchDocument, CalculatorLaunchError>;

    fn acknowledge(
        &mut self,
        owner_id: &str,
        launch_id: u128,
        companion_instance_id: u128,
        if_match: &str,
    ) -> Result<(), CalculatorLaunchError>;

    fn purge_project(&mut self, owner_id: &str, project_id: u128) -> Result<(), CalculatorLaunchError>;
}

/// A stored launch: its document, the version its entity tag counts, and the
/// JSON serialization of its manifest.
#[derive(Debug)]
struct StoredLaunch {
    document: CalculatorLaunchDocument,
    version: u64,
    manifest_json: Vec<u8>,
}

/// A stored launch as plain values.
pub struct StoredView {
    pub document: LaunchView,
    pub version: u64,
    pub manifest_json: Seq<u8>,
}

impl View for StoredLaunch {
    type V = StoredView;

    closed spec fn view(&self) -> StoredView {
        StoredView { document: self.document@, version: self.version, manifest_json: self.manifest_json@ }
    }
}

/// Launches are keyed by owner and launch id.
pub type LaunchKey = (Seq<char>, u128);

spec fn key_of(s: StoredLaunch) -> LaunchKey {
    (s.document.owner_id@, s.document.id)
}

spec fn keys_distinct(records: Seq<StoredLaunch>) -> bool {
    forall|i: int, j: int| 0 <= i < j < records.len() ==> key_of(records[i]) != key_of(records[j])
}

/// The stored launches by key.
spec fn launch_map(records: Seq<StoredLaunch>) -> Map<LaunchKey, StoredView> {
    Map::new(
        |k: LaunchKey| exists|i: int| 0 <= i < records.len() && key_of(records[i]) == k,
        |k: LaunchKey| records[choose|i: int| 0 <= i < records.len() && key_of(records[i]) == k]@,
    )
}

proof fn lemma_launch_map_at(records: Seq<StoredLaunch>, j: int)
    requires
        keys_distinct(records),
        0 <= j < records.len(),
    ensures
        launch_map(records).contains_key(key_of(records[j])),
        launch_map(records)[key_of(records[j])] == records[j]@,
{
    let k = key_of(records[j]);
    assert(launch_map(records).contains_key(k));
    let c = choose|i: int| 0 <= i < records.len() && key_of(records[i]) == k;
    assert(c == j);
}

proof fn lemma_launch_map_set(before: Seq<StoredLaunch>, i: int, stored: StoredLaunch)
    requires
        keys_distinct(before),
        0 <= i < before.len(),
        key_of(stored) == key_of(before[i]),
    ensures
        keys_distinct(before.update(i, stored)),
        launch_map(before.update(i, stored)) == launch_map(before).insert(key_of(stored), stored@),
{
    let after = before.update(i, stored);
    let k = key_of(stored);
    assert forall|a: int, b: int| 0 <= a < b < after.len() implies key_of(after[a]) != key_of(after[b]) by {
        assert(key_of(after[a]) == key_of(before[a]));
        assert(key_of(after[b]) == key_of(before[b]));
    }
    let m = launch_map(after);
    let n = launch_map(before).insert(k, stored@);
    assert forall|o: LaunchKey| #[trigger] m.contains_key(o) <==> n.contains_key(o) by {
        if m.contains_key(o) {
            let j = choose|j: int| 0 <= j < after.len() && key_of(after[j]) == o;
            assert(key_of(before[j]) == o);
        }
        if launch_map(before).contains_key(o) {
            let j = choose|j: int| 0 <= j < before.len() && key_of(before[j]) == o;
            assert(key_of(after[j]) == o);
        }
        if o == k {
            assert(key_of(after[i]) == o);
        }
    }
    assert forall|o: LaunchKey| #[trigger] m.contains_key(o) implies m[o] == n[o] by {
        let j = choose|j: int| 0 <= j < after.len() && key_of(after[j]) == o;
        lemma_launch_map_at(after, j);
        if j != i {
            lemma_launch_map_at(before, j);
        }
    }
    assert(m =~= n);
}

proof fn lemma_launch_map_push(before: Seq<StoredLaunch>, stored: StoredLaunch)
    requires
        keys_distinct(before),
        !launch_map(before).contains_key(key_of(stored)),
    ensures
        keys_distinct(before.push(stored)),
        launch_map(before.push(stored)) == launch_map(before).insert(key_of(stored), stored@),
{
    let after = before.push(stored);
    let n_before = before.len() as int;
    let k = key_of(stored);
    assert forall|a: int, b: int| 0 <= a < b < after.len() implies key_of(after[a]) != key_of(after[b]) by {
        if b == n_before {
            assert(after[a] == before[a]);
            if key_of(before[a]) == k {
                assert(launch_map(before).contains_key(k));
            }
        } else {
            assert(after[a] == before[a] && after[b] == before[b]);
        }
    }
    let m = launch_map(after);
    let n = launch_map(before).insert(k, stored@);
    assert forall|o: LaunchKey| #[trigger] m.contains_key(o) <==> n.contains_key(o) by {
        if m.contains_key(o) {
            let j = choose|j: int| 0 <= j < after.len() && key_of(after[j]) == o;
            if j < n_before {
                assert(after[j] == before[j]);
            }
        }
        if launch_map(before).contains_key(o) {
            let j = choose|j: int| 0 <= j < before.len() && key_of(before[j]) == o;
            assert(after[j] == before[j]);
        }
        if o == k {
            assert(key_of(after[n_before]) == o);
        }
    }
    assert forall|o: LaunchKey| #[trigger] m.contains_key(o) implies m[o] == n[o] by {
        let j = choose|j: int| 0 <= j < after.len() && key_of(after[j]) == o;
        lemma_launch_map_at(after, j);
        if j != n_before {
            assert(after[j] == before[j]);
            lemma_launch_map_at(before, j);
        }
    }
    assert(m =~= n);
}

/// Launches kept in memory, one per owner and launch id, read against a clock.
pub struct InMemoryCalculatorLaunchRepository<C: CalculatorLaunchClock> {
    launches: Vec<StoredLaunch>,
    clock: C,
}

impl<C: CalculatorLaunchClock> View for InMemoryCalculatorLaunchRepository<C> {
    type V = Map<LaunchKey, StoredView>;

    closed spec fn view(&self) -> Map<LaunchKey, StoredView> {
        launch_map(self.launches@)
    }
}

/// A launch to create, as plain values.
pub struct NewLaunchView {
    pub id: u128,
    pub source_project_id: u128,
    pub source_project_etag: Seq<char>,
    pub source_formula_version: Seq<char>,
    pub source_azure_snapshot_id: Seq<char>,
    pub manifest: ManifestView,
    pub manifest_json: Seq<u8>,
}

impl View for NewCalculatorLaunch {
    type V = NewLaunchView;

    open spec fn view(&self) -> NewLaunchView {
        NewLaunchView {
            id: self.id,
            source_project_id: self.source_project_id,
            source_project_etag: self.source_project_etag@,
            source_formula_version: self.source_formula_version@,
            source_azure_snapshot_id: self.source_azure_snapshot_id@,
            manifest: self.manifest@,
            manifest_json: self.manifest_json@,
        }
    }
}

/// The ready launch created for an owner, timestamped `created` and open until `expires`.
pub open spec fn ready_document(owner: Seq<char>, l: NewLaunchView, created: Seq<char>, expires: Seq<char>) -> LaunchView {
    LaunchView {
        id: l.id,
        document_type: CALCULATOR_LAUNCH_DOCUMENT_TYPE@,
        owner_id: owner,
        source_project_id: Some(l.source_project_id),
        source_project_etag: Some(l.source_project_etag),
        source_formula_version: Some(l.source_formula_version),
        source_azure_snapshot_id: Some(l.source_azure_snapshot_id),
        status: CalculatorLaunchStatus::Ready,
        protocol_version: CALCULATOR_PROTOCOL_VERSION,
        manifest_version: CALCULATOR_MANIFEST_VERSION,
        calculator_contract_version: CALCULATOR_CONTRACT_VERSION@,
        minimum_companion_version: MINIMUM_COMPANION_VERSION@,
        manifest_sha256: Some(hex_digest_text(l.manifest_json)),
        manifest: Some(l.manifest),
        companion_instance_id: None,
        companion_version: None,
        created_at: created,
        claim_expires_at: expires,
        updated_at: created,
        ttl: ACTIVE_TTL_SECONDS,
        etag: launch_etag_text(1),
    }
}

/// The launch once claimed by a companion instance at version `version`,
/// updated at `updated` and open until `expires`.
pub open spec fn claimed_document(
    v: LaunchView,
    instance: u128,
    companion_version: Seq<char>,
    version: u64,
    updated: Seq<char>,
    expires: Seq<char>,
) -> LaunchView {
    LaunchView {
        status: CalculatorLaunchStatus::Claimed,
        companion_instance_id: Some(instance),
        companion_version: Some(companion_version),
        updated_at: updated,
        claim_expires_at: expires,
        ttl: ACTIVE_TTL_SECONDS,
        etag: launch_etag_text(version),
        ..v
    }
}

/// The tombstone of a consumed launch at version `version`: its project binding
/// and manifest are dropped.
pub open spec fn consumed_document(v: LaunchView, version: u64, updated: Seq<char>, expires: Seq<char>) -> LaunchView {
    LaunchView {
        status: CalculatorLaunchStatus::Consumed,
        source_project_id: None,
        source_project_etag: None,
        source_formula_version: None,
        source_azure_snapshot_id: None,
        manifest_sha256: None,
        manifest: None,
        updated_at: updated,
        claim_expires_at: expires,
        ttl: CONSUMED_TTL_SECONDS,
        etag: launch_etag_text(version),
        ..v
    }
}

/// A stored launch was made for the same project version and manifest.
pub open spec fn same_binding(v: LaunchView, l: NewLaunchView) -> bool {
    &&& v.source_project_id == Some(l.source_project_id)
    &&& v.source_project_etag == Some(l.source_project_etag)
    &&& v.manifest_sha256 == Some(hex_digest_text(l.manifest_json))
}

/// A ready or claimed launch of the owner.
pub open spec fn owner_active(v: LaunchView, owner: Seq<char>) -> bool {
    v.owner_id == owner && (v.status == CalculatorLaunchStatus::Ready || v.status == CalculatorLaunchStatus::Claimed)
}

/// Some open launch of the owner has an unreadable expiry.
pub open spec fn owner_unreadable(m: Map<LaunchKey, StoredView>, owner: Seq<char>, now: int) -> bool {
    exists|k: LaunchKey| #[trigger] m.contains_key(k) && owner_active(m[k].document, owner) && expired_at(
        m[k].document,
        now,
    ) is None
}

/// Some open launch of the owner has not expired.
pub open spec fn owner_has_open_launch(m: Map<LaunchKey, StoredView>, owner: Seq<char>, now: int) -> bool {
    exists|k: LaunchKey| #[trigger] m.contains_key(k) && owner_active(m[k].document, owner) && expired_at(
        m[k].document,
        now,
    ) == Some(false)
}

/// Creating a launch at `now`: the outcome (the document, and whether it is new)
/// and the launches after. A repeated request for the same project version and
/// manifest returns the ready launch; an owner has at most one open launch.
pub open spec fn create_outcome(m: Map<LaunchKey, StoredView>, owner: Seq<char>, l: NewLaunchView, now: int) -> (
    Result<(LaunchView, bool), CalculatorLaunchError>,
    Map<LaunchKey, StoredView>,
) {
    let key = (owner, l.id);
    if manifest_error(l.manifest, l.manifest_json.len()) is Some {
        (Err(manifest_error(l.manifest, l.manifest_json.len()).unwrap()), m)
    } else if m.contains_key(key) {
        let v = m[key].document;
        if same_binding(v, l) && v.status == CalculatorLaunchStatus::Ready {
            match expiry_error(v, now) {
                Some(e) => (Err(e), m),
                None => (Ok((v, false)), m),
            }
        } else {
            (Err(CalculatorLaunchError::Conflict), m)
        }
    } else if owner_unreadable(m, owner, now) {
        (Err(CalculatorLaunchError::Unavailable), m)
    } else if owner_has_open_launch(m, owner, now) {
        (Err(CalculatorLaunchError::Conflict), m)
    } else {
        match (offset_text(now, 0), offset_text(now, ACTIVE_TTL_SECONDS as int)) {
            (Some(created), Some(expires)) => {
                let d = ready_document(owner, l, created, expires);
                (Ok((d, true)), m.insert(key, StoredView { document: d, version: 1, manifest_json: l.manifest_json }))
            },
            _ => (Err(CalculatorLaunchError::Unavailable), m),
        }
    }
}

/// Claiming a launch for a companion instance at `now`: the document returned
/// and the launches after. Only a ready launch is claimed; the claimant sees its
/// claim again, and any other instance is refused.
pub open spec fn claim_outcome(
    m: Map<LaunchKey, StoredView>,
    owner: Seq<char>,
    id: u128,
    instance: u128,
    companion_version: Seq<char>,
    now: int,
) -> (Result<LaunchView, CalculatorLaunchError>, Map<LaunchKey, StoredView>) {
    let key = (owner, id);
    if !m.contains_key(key) {
        (Err(CalculatorLaunchError::NotFound), m)
    } else {
        let st = m[key];
        let v = st.document;
        if document_error(v, owner, Some(id), st.manifest_json) is Some {
            (Err(document_error(v, owner, Some(id), st.manifest_json).unwrap()), m)
        } else if expiry_error(v, now) is Some {
            (Err(expiry_error(v, now).unwrap()), m)
        } else if v.status == CalculatorLaunchStatus::Ready {
            if st.version == u64::MAX {
                (Err(CalculatorLaunchError::Unavailable), m)
            } else {
                match (offset_text(now, 0), offset_text(now, ACTIVE_TTL_SECONDS as int)) {
                    (Some(updated), Some(expires)) => {
                        let version = (st.version + 1) as u64;
                        let d = claimed_document(v, instance, companion_version, version, updated, expires);
                        (Ok(d), m.insert(key, StoredView { document: d, version, manifest_json: st.manifest_json }))
                    },
                    _ => (Err(CalculatorLaunchError::Unavailable), m),
                }
            }
        } else if v.status == CalculatorLaunchStatus::Claimed && v.companion_instance_id == Some(instance) {
            (Ok(v), m)
        } else {
            (Err(CalculatorLaunchError::Conflict), m)
        }
    }
}

/// Acknowledging a claimed launch at `now` with its entity tag: the outcome and
/// the launches after. The claimant consumes the launch, which drops its
/// manifest; acknowledging it again succeeds and changes nothing.
pub open spec fn acknowledge_outcome(
    m: Map<LaunchKey, StoredView>,
    owner: Seq<char>,
    id: u128,
    instance: u128,
    if_match: Seq<char>,
    now: int,
) -> (Result<(), CalculatorLaunchError>, Map<LaunchKey, StoredView>) {
    let key = (owner, id);
    if !m.contains_key(key) {
        (Err(CalculatorLaunchError::NotFound), m)
    } else {
        let st = m[key];
        let v = st.document;
        if document_error(v, owner, Some(id), st.manifest_json) is Some {
            (Err(document_error(v, owner, Some(id), st.manifest_json).unwrap()), m)
        } else if v.status == CalculatorLaunchStatus::Consumed && v.companion_instance_id == Some(instance) {
            (Ok(()), m)
        } else if expiry_error(v, now) is Some {
            (Err(expiry_error(v, now).unwrap()), m)
        } else if v.status != CalculatorLaunchStatus::Claimed || v.companion_instance_id != Some(instance) {
            (Err(CalculatorLaunchError::Conflict), m)
        } else if v.etag != if_match {
            (Err(CalculatorLaunchError::PreconditionFailed), m)
        } else if st.version == u64::MAX {
            (Err(CalculatorLaunchError::Unavailable), m)
        } else {
            match (offset_text(now, 0), offset_text(now, CONSUMED_TTL_SECONDS as int)) {
                (Some(updated), Some(expires)) => {
                    let version = (st.version + 1) as u64;
                    let d = consumed_document(v, version, updated, expires);
                    (Ok(()), m.insert(key, StoredView { document: d, version, manifest_json: Seq::empty() }))
                },
                _ => (Err(CalculatorLaunchError::Unavailable), m),
            }
        }
    }
}

/// A launch that purging a project removes: an unconsumed launch of the owner
/// for that project.
pub open spec fn purged_by(k: LaunchKey, v: LaunchView, owner: Seq<char>, project_id: u128) -> bool {
    k.0 == owner && v.source_project_id == Some(project_id) && v.status != CalculatorLaunchStatus::Consumed
}

/// The launches left once a project's launches are purged.
pub open spec fn purge_outcome(m: Map<LaunchKey, StoredView>, owner: Seq<char>, project_id: u128) -> Map<
    LaunchKey,
    StoredView,
> {
    Map::new(|k: LaunchKey| m.contains_key(k) && !purged_by(k, m[k].document, owner, project_id), |k: LaunchKey| m[k])
}

pub open spec fn created_view(r: Result<CreatedCalculatorLaunch, CalculatorLaunchError>) -> Result<
    (LaunchView, bool),
    CalculatorLaunchError,
> {
    match r {
        Ok(c) => Ok((c.document@, c.created)),
        Err(e) => Err(e),
    }
}

pub open spec fn document_view(r: Result<CalculatorLaunchDocument, CalculatorLaunchError>) -> Result<
    LaunchView,
    CalculatorLaunchError,
> {
    match r {
        Ok(d) => Ok(d@),
        Err(e) => Err(e),
    }
}

fn same_text(a: &Option<String>, b: &str) -> (r: bool)
    ensures
        r == (opt_text(*a) == Some(b@)),
{
    match a {
        Some(a) => text_equals(a.as_str(), b),
        None => false,
    }
}

fn same_id(a: Option<u128>, b: u128) -> (r: bool)
    ensures
        r == (a == Some(b)),
{
    match a {
        Some(a) => a == b,
        None => false,
    }
}

impl StoredLaunch {
    fn copy(&self) -> (r: StoredLaunch)
        ensures
            r@ == self@,
            key_of(r) == key_of(*self),
    {
        StoredLaunch {
            document: self.document.copy(),
            version: self.version,
            manifest_json: vstd::slice::slice_to_vec(self.manifest_json.as_slice()),
        }
    }
}

impl<C: CalculatorLaunchClock> InMemoryCalculatorLaunchRepository<C> {
    #[verifier::type_invariant]
    spec fn wf(self) -> bool {
        keys_distinct(self.launches@)
    }

    /// An empty store read against the given clock.
    pub fn with_clock(clock: C) -> (r: InMemoryCalculatorLaunchRepository<C>)
        ensures
            r@ == Map::<LaunchKey, StoredView>::empty(),
    {
        let r = InMemoryCalculatorLaunchRepository { launches: Vec::new(), clock };
        assert(r@ =~= Map::<LaunchKey, StoredView>::empty());
        r
    }

    fn find(&self, owner_id: &str, launch_id: u128) -> (r: Option<usize>)
        ensures
            match r {
                Some(i) => i < self.launches@.len() && key_of(self.launches@[i as int]) == (owner_id@, launch_id),
                None => !self@.contains_key((owner_id@, launch_id)),
            },
    {
        let mut i: usize = 0;
        while i < self.launches.len()
            invariant
                i <= self.launches@.len(),
                forall|k: int| 0 <= k < i ==> key_of(self.launches@[k]) != (owner_id@, launch_id),
            decreases self.launches@.len() - i,
        {
            let stored = &self.launches[i];
            if stored.document.id == launch_id && text_equals(stored.document.owner_id.as_str(), owner_id) {
                return Some(i);
            }
            i = i + 1;
        }
        None
    }

    /// The stored launch of the owner with this id.
    pub fn get(&self, owner_id: &str, launch_id: u128) -> (r: Option<CalculatorLaunchDocument>)
        ensures
            match r {
                Some(d) => self@.contains_key((owner_id@, launch_id)) && d@ == self@[(owner_id@, launch_id)].document,
                None => !self@.contains_key((owner_id@, launch_id)),
            },
    {
        proof {
            use_type_invariant(self);
        }
        match self.find(owner_id, launch_id) {
            Some(i) => {
                proof {
                    lemma_launch_map_at(self.launches@, i as int);
                }
                Some(self.launches[i].document.copy())
            },
            None => None,
        }
    }

    fn scan_open(&self, owner_id: &str, now: i128) -> (r: (bool, bool))
        ensures
            r.0 == owner_unreadable(self@, owner_id@, now as int),
            r.1 == owner_has_open_launch(self@, owner_id@, now as int),
    {
        proof {
            use_type_invariant(self);
        }
        let ghost records = self.launches@;
        let mut unreadable = false;
        let mut open = false;
        let mut i: usize = 0;
        while i < self.launches.len()
            invariant
                records == self.launches@,
                i <= records.len(),
                unreadable == exists|j: int| 0 <= j < i && owner_active(records[j]@.document, owner_id@) && expired_at(
                    #[trigger] records[j]@.document,
                    now as int,
                ) is None,
                open == exists|j: int| 0 <= j < i && owner_active(records[j]@.document, owner_id@) && expired_at(
                    #[trigger] records[j]@.document,
                    now as int,
                ) == Some(false),
            decreases records.len() - i,
        {
            let document = &self.launches[i].document;
            let active = text_equals(document.owner_id.as_str(), owner_id) && (match document.status {
                CalculatorLaunchStatus::Ready => true,
                CalculatorLaunchStatus::Claimed => true,
                CalculatorLaunchStatus::Consumed => false,
            });
            proof {
                assert(records[i as int]@.document == document@);
                assert(active == owner_active(records[i as int]@.document, owner_id@));
            }
            if active {
                match is_expired(document, now) {
                    Ok(false) => {
                        open = true;
                    },
                    Ok(true) => {},
                    Err(_) => {
                        unreadable = true;
                    },
                }
            }
            i = i + 1;
        }
        proof {
            let m = launch_map(records);
            let n = now as int;
            if unreadable {
                let j = choose|j: int| 0 <= j < records.len() && owner_active(records[j]@.document, owner_id@)
                    && expired_at(#[trigger] records[j]@.document, n) is None;
                lemma_launch_map_at(records, j);
                assert(m.contains_key(key_of(records[j])));
            }
            if owner_unreadable(m, owner_id@, n) {
                let k = choose|k: LaunchKey| #[trigger] m.contains_key(k) && owner_active(m[k].document, owner_id@)
                    && expired_at(m[k].document, n) is None;
                let j = choose|j: int| 0 <= j < records.len() && key_of(records[j]) == k;
                lemma_launch_map_at(records, j);
                assert(expired_at(records[j]@.document, n) is None);
            }
            if open {
                let j = choose|j: int| 0 <= j < records.len() && owner_active(records[j]@.document, owner_id@)
                    && expired_at(#[trigger] records[j]@.document, n) == Some(false);
                lemma_launch_map_at(records, j);
                assert(m.contains_key(key_of(records[j])));
            }
            if owner_has_open_launch(m, owner_id@, n) {
                let k = choose|k: LaunchKey| #[trigger] m.contains_key(k) && owner_active(m[k].document, owner_id@)
                    && expired_at(m[k].document, n) == Some(false);
                let j = choose|j: int| 0 <= j < records.len() && key_of(records[j]) == k;
                lemma_launch_map_at(records, j);
                assert(expired_at(records[j]@.document, n) == Some(false));
            }
        }
        (unreadable, open)
    }

    /// Creates a launch at `now` (nanoseconds since the Unix epoch).
    pub fn create_at(&mut self, owner_id: &str, launch: NewCalculatorLaunch, now: i128) -> (r: Result<
        CreatedCalculatorLaunch,
        CalculatorLaunchError,
    >)
        ensures
            (created_view(r), final(self)@) == create_outcome(old(self)@, owner_id@, launch@, now as int),
    {
        proof {
            use_type_invariant(&*self);
        }
        match validate_manifest(&launch.manifest, launch.manifest_json.as_slice()) {
            Ok(()) => {},
            Err(e) => {
                return Err(e);
            },
        }
        let sha = manifest_sha256(launch.manifest_json.as_slice());
        match self.find(owner_id, launch.id) {
            Some(i) => {
                proof {
                    lemma_launch_map_at(self.launches@, i as int);
                }
                let document = &self.launches[i].document;
                let same = same_id(document.source_project_id, launch.source_project_id) && same_text(
                    &document.source_project_etag,
                    launch.source_project_etag.as_str(),
                ) && same_text(&document.manifest_sha256, sha.as_str());
                if same && document.status == CalculatorLaunchStatus::Ready {
                    match ensure_not_expired(document, now) {
                        Ok(()) => {},
                        Err(e) => {
                            return Err(e);
                        },
                    }
                    return Ok(CreatedCalculatorLaunch { document: document.copy(), created: false });
                }
                return Err(CalculatorLaunchError::Conflict);
            },
            None => {},
        }
        let (unreadable, open) = self.scan_open(owner_id, now);
        if unreadable {
            return Err(CalculatorLaunchError::Unavailable);
        }
        if open {
            return Err(CalculatorLaunchError::Conflict);
        }
        let created = match format_after(now, 0) {
            Ok(t) => t,
            Err(e) => {
                return Err(e);
            },
        };
        let expires = match format_after(now, ACTIVE_TTL_SECONDS) {
            Ok(t) => t,
            Err(e) => {
                return Err(e);
            },
        };
        let document = CalculatorLaunchDocument {
            id: launch.id,
            document_type: CALCULATOR_LAUNCH_DOCUMENT_TYPE.to_owned(),
            owner_id: owner_id.to_owned(),
            source_project_id: Some(launch.source_project_id),
            source_project_etag: Some(launch.source_project_etag),
            source_formula_version: Some(launch.source_formula_version),
            source_azure_snapshot_id: Some(launch.source_azure_snapshot_id),
            status: CalculatorLaunchStatus::Ready,
            protocol_version: CALCULATOR_PROTOCOL_VERSION,
            manifest_version: CALCULATOR_MANIFEST_VERSION,
            calculator_contract_version: CALCULATOR_CONTRACT_VERSION.to_owned(),
            minimum_companion_version: MINIMUM_COMPANION_VERSION.to_owned(),
            manifest_sha256: Some(sha),
            manifest: Some(launch.manifest),
            companion_instance_id: None,
            companion_version: None,
            created_at: created.clone(),
            claim_expires_at: expires,
            updated_at: created,
            ttl: ACTIVE_TTL_SECONDS,
            etag: launch_etag(1),
        };
        match validate_document(&document, owner_id, Some(launch.id), launch.manifest_json.as_slice()) {
            Ok(()) => {},
            Err(e) => {
                return Err(e);
            },
        }
        let stored = StoredLaunch { document: document.copy(), version: 1, manifest_json: launch.manifest_json };
        proof {
            lemma_launch_map_push(self.launches@, stored);
        }
        let mut records: Vec<StoredLaunch> = Vec::new();
        std::mem::swap(&mut records, &mut self.launches);
        records.push(stored);
        self.launches = records;
        Ok(CreatedCalculatorLaunch { document, created: true })
    }

    /// Claims a launch for a companion instance at `now` (nanoseconds since the Unix epoch).
    pub fn claim_at(
        &mut self,
        owner_id: &str,
        launch_id: u128,
        companion_instance_id: u128,
        companion_version: &str,
        now: i128,
    ) -> (r: Result<CalculatorLaunchDocument, CalculatorLaunchError>)
        ensures
            (document_view(r), final(self)@) == claim_outcome(
                old(self)@,
                owner_id@,
                launch_id,
                companion_instance_id,
                companion_version@,
                now as int,
            ),
    {
        proof {
            use_type_invariant(&*self);
        }
        let i = match self.find(owner_id, launch_id) {
            Some(i) => i,
            None => {
                return Err(CalculatorLaunchError::NotFound);
            },
        };
        proof {
            lemma_launch_map_at(self.launches@, i as int);
        }
        let stored = &self.launches[i];
        match validate_document(&stored.document, owner_id, Some(launch_id), stored.manifest_json.as_slice()) {
            Ok(()) => {},
            Err(e) => {
                return Err(e);
            },
        }
        match ensure_not_expired(&stored.document, now) {
            Ok(()) => {},
            Err(e) => {
                return Err(e);
            },
        }
        match stored.document.status {
            CalculatorLaunchStatus::Ready => {
                if stored.version == u64::MAX {
                    return Err(CalculatorLaunchError::Unavailable);
                }
                let version = stored.version + 1;
                let updated = match format_after(now, 0) {
                    Ok(t) => t,
                    Err(e) => {
                        return Err(e);
                    },
                };
                let expires = match format_after(now, ACTIVE_TTL_SECONDS) {
                    Ok(t) => t,
                    Err(e) => {
                        return Err(e);
                    },
                };
                let mut document = stored.document.copy();
                document.status = CalculatorLaunchStatus::Claimed;
                document.companion_instance_id = Some(companion_instance_id);
                document.companion_version = Some(companion_version.to_owned());
                document.updated_at = updated;
                document.claim_expires_at = expires;
                document.ttl = ACTIVE_TTL_SECONDS;
                document.etag = launch_etag(version);
                match validate_document(&document, owner_id, Some(launch_id), stored.manifest_json.as_slice()) {
                    Ok(()) => {},
                    Err(e) => {
                        return Err(e);
                    },
                }
                let next = StoredLaunch {
                    document: document.copy(),
                    version,
                    manifest_json: vstd::slice::slice_to_vec(stored.manifest_json.as_slice()),
                };
                proof {
                    lemma_launch_map_set(self.launches@, i as int, next);
                }
                let mut records: Vec<StoredLaunch> = Vec::new();
                std::mem::swap(&mut records, &mut self.launches);
                records.set(i, next);
                self.launches = records;
                Ok(document)
            },
            CalculatorLaunchStatus::Claimed => {
                if same_id(stored.document.companion_instance_id, companion_instance_id) {
                    Ok(stored.document.copy())
                } else {
                    Err(CalculatorLaunchError::Conflict)
                }
            },
            CalculatorLaunchStatus::Consumed => Err(CalculatorLaunchError::Conflict),
        }
    }

    /// Acknowledges a claimed launch for its companion instance at `now`
    /// (nanoseconds since the Unix epoch), with the entity tag of the claim.
    pub fn acknowledge_at(
        &mut self,
        owner_id: &str,
        launch_id: u128,
        companion_instance_id: u128,
        if_match: &str,
        now: i128,
    ) -> (r: Result<(), CalculatorLaunchError>)
        ensures
            (r, final(self)@) == acknowledge_outcome(
                old(self)@,
                owner_id@,
                launch_id,
                companion_instance_id,
                if_match@,
                now as int,
            ),
    {
        proof {
            use_type_invariant(&*self);
        }
        let i = match self.find(owner_id, launch_id) {
            Some(i) => i,
            None => {
                return Err(CalculatorLaunchError::NotFound);
            },
        };
        proof {
            lemma_launch_map_at(self.launches@, i as int);
        }
        let stored = &self.launches[i];
        match validate_document(&stored.document, owner_id, Some(launch_id), stored.manifest_json.as_slice()) {
            Ok(()) => {},
            Err(e) => {
                return Err(e);
            },
        }
        let is_claimant = same_id(stored.document.companion_instance_id, companion_instance_id);
        if stored.document.status == CalculatorLaunchStatus::Consumed && is_claimant {
            return Ok(());
        }
        match ensure_not_expired(&stored.document, now) {
            Ok(()) => {},
            Err(e) => {
                return Err(e);
            },
        }
        if stored.document.status != CalculatorLaunchStatus::Claimed || !is_claimant {
            return Err(CalculatorLaunchError::Conflict);
        }
        if !text_equals(stored.document.etag.as_str(), if_match) {
            return Err(CalculatorLaunchError::PreconditionFailed);
        }
        if stored.version == u64::MAX {
            return Err(CalculatorLaunchError::Unavailable);
        }
        let version = stored.version + 1;
        let updated = match format_after(now, 0) {
            Ok(t) => t,
            Err(e) => {
                return Err(e);
            },
        };
        let expires = match format_after(now, CONSUMED_TTL_SECONDS) {
            Ok(t) => t,
            Err(e) => {
                return Err(e);
            },
        };
        let mut document = stored.document.copy();
        document.status = CalculatorLaunchStatus::Consumed;
        document.source_project_id = None;
        document.source_project_etag = None;
        document.source_formula_version = None;
        document.source_azure_snapshot_id = None;
        document.manifest_sha256 = None;
        document.manifest = None;
        document.updated_at = updated;
        document.claim_expires_at = expires;
        document.ttl = CONSUMED_TTL_SECONDS;
        document.etag = launch_etag(version);
        let empty: Vec<u8> = Vec::new();
        match validate_document(&document, owner_id, Some(launch_id), empty.as_slice()) {
            Ok(()) => {},
            Err(e) => {
                return Err(e);
            },
        }
        let next = StoredLaunch { document, version, manifest_json: empty };
        proof {
            lemma_launch_map_set(self.launches@, i as int, next);
        }
        let mut records: Vec<StoredLaunch> = Vec::new();
        std::mem::swap(&mut records, &mut self.launches);
        records.set(i, next);
        self.launches = records;
        Ok(())
    }

    /// Removes the owner's unconsumed launches for a project.
    pub fn purge_project(&mut self, owner_id: &str, project_id: u128) -> (r: Result<(), CalculatorLaunchError>)
        ensures
            r is Ok,
            final(self)@ == purge_outcome(old(self)@, owner_id@, project_id),
    {
        proof {
            use_type_invariant(&*self);
        }
        let ghost records = self.launches@;
        let mut kept: Vec<StoredLaunch> = Vec::new();
        let mut i: usize = 0;
        while i < self.launches.len()
            invariant
                records == self.launches@,
                keys_distinct(records),
                i <= records.len(),
                keys_distinct(kept@),
                forall|k: LaunchKey| #[trigger]
                    launch_map(kept@).contains_key(k) <==> exists|j: int|
                        0 <= j < i && key_of(records[j]) == k && !purged_by(
                            k,
                            #[trigger] records[j]@.document,
                            owner_id@,
                            project_id,
                        ),
                forall|j: int|
                    0 <= j < i && !purged_by(key_of(records[j]), #[trigger] records[j]@.document, owner_id@, project_id)
                        ==> launch_map(kept@)[key_of(records[j])] == records[j]@,
            decreases records.len() - i,
        {
            let stored = &self.launches[i];
            let purged = text_equals(stored.document.owner_id.as_str(), owner_id) && same_id(
                stored.document.source_project_id,
                project_id,
            ) && stored.document.status != CalculatorLaunchStatus::Consumed;
            proof {
                assert(purged == purged_by(key_of(records[i as int]), records[i as int]@.document, owner_id@, project_id));
            }
            let ghost before = kept@;
            if !purged {
                let copy = stored.copy();
                proof {
                    if launch_map(before).contains_key(key_of(copy)) {
                        let j = choose|j: int|
                            0 <= j < i && key_of(records[j]) == key_of(copy) && !purged_by(
                                key_of(copy),
                                #[trigger] records[j]@.document,
                                owner_id@,
                                project_id,
                            );
                        assert(false);
                    }
                    lemma_launch_map_push(before, copy);
                }
                kept.push(copy);
            }
            proof {
                let k0 = key_of(records[i as int]);
                assert forall|k: LaunchKey| #[trigger]
                    launch_map(kept@).contains_key(k) <==> exists|j: int|
                        0 <= j < i + 1 && key_of(records[j]) == k && !purged_by(
                            k,
                            #[trigger] records[j]@.document,
                            owner_id@,
                            project_id,
                        ) by {
                    if launch_map(kept@).contains_key(k) && k != k0 {
                        assert(launch_map(before).contains_key(k));
                    }
                    if k == k0 && !purged {
                        assert(key_of(records[i as int]) == k);
                    }
                    if k == k0 && purged && launch_map(kept@).contains_key(k) {
                        let j = choose|j: int|
                            0 <= j < i && key_of(records[j]) == k && !purged_by(
                                k,
                                #[trigger] records[j]@.document,
                                owner_id@,
                                project_id,
                            );
                        assert(false);
                    }
                }
                assert forall|j: int|
                    0 <= j < i + 1 && !purged_by(
                        key_of(records[j]),
                        #[trigger] records[j]@.document,
                        owner_id@,
                        project_id,
                    ) implies launch_map(kept@)[key_of(records[j])] == records[j]@ by {
                    if j < i && !purged {
                        assert(key_of(records[j]) != k0);
                    }
                }
            }
            i = i + 1;
        }
        proof {
            let m = launch_map(records);
            let n = purge_outcome(m, owner_id@, project_id);
            let km = launch_map(kept@);
            assert forall|k: LaunchKey| #[trigger] km.contains_key(k) <==> n.contains_key(k) by {
                if km.contains_key(k) {
                    let j = choose|j: int|
                        0 <= j < records.len() && key_of(records[j]) == k && !purged_by(
                            k,
                            #[trigger] records[j]@.document,
                            owner_id@,
                            project_id,
                        );
                    lemma_launch_map_at(records, j);
                }
                if n.contains_key(k) {
                    let j = choose|j: int| 0 <= j < records.len() && key_of(records[j]) == k;
                    lemma_launch_map_at(records, j);
                    assert(!purged_by(k, records[j]@.document, owner_id@, project_id));
                }
            }
            assert forall|k: LaunchKey| #[trigger] km.contains_key(k) implies km[k] == n[k] by {
                let j = choose|j: int|
                    0 <= j < records.len() && key_of(records[j]) == k && !purged_by(
                        k,
                        #[trigger] records[j]@.document,
                        owner_id@,
                        project_id,
                    );
                lemma_launch_map_at(records, j);
            }
            assert(km =~= n);
        }
        self.launches = kept;
        Ok(())
    }
}

impl InMemoryCalculatorLaunchRepository<SystemCalculatorLaunchClock> {
    /// An empty store read against the system clock.
    pub fn new() -> (r: InMemoryCalculatorLaunchRepository<SystemCalculatorLaunchClock>)
        ensures
            r@ == Map::<LaunchKey, StoredView>::empty(),
    {
        InMemoryCalculatorLaunchRepository::with_clock(SystemCalculatorLaunchClock)
    }
}

impl<C: CalculatorLaunchClock> CalculatorLaunchRepository for InMemoryCalculatorLaunchRepository<C> {
    /// Creates a launch at the clock's time.
    fn create(&mut self, owner_id: &str, launch: NewCalculatorLaunch) -> (r: Result<
        CreatedCalculatorLaunch,
        CalculatorLaunchError,
    >)
        ensures
            exists|now: i128|
                (created_view(r), final(self)@) == #[trigger] create_outcome(
                    old(self)@,
                    owner_id@,
                    launch@,
                    now as int,
                ),
    {
        let now = self.clock.now();
        self.create_at(owner_id, launch, now)
    }

    /// Claims a launch at the clock's time.
    fn claim(
        &mut self,
        owner_id: &str,
        launch_id: u128,
        companion_instance_id: u128,
        companion_version: &str,
    ) -> (r: Result<CalculatorLaunchDocument, CalculatorLaunchError>)
        ensures
            exists|now: i128|
                (document_view(r), final(self)@) == #[trigger] claim_outcome(
                    old(self)@,
                    owner_id@,
                    launch_id,
                    companion_instance_id,
                    companion_version@,
                    now as int,
                ),
    {
        let now = self.clock.now();
        self.claim_at(owner_id, launch_id, companion_instance_id, companion_version, now)
    }

    /// Acknowledges a launch at the clock's time.
    fn acknowledge(
        &mut self,
        owner_id: &str,
        launch_id: u128,
        companion_instance_id: u128,
        if_match: &str,
    ) -> (r: Result<(), CalculatorLaunchError>)
        ensures
            exists|now: i128|
                (r, final(self)@) == #[trigger] acknowledge_outcome(
                    old(self)@,
                    owner_id@,
                    launch_id,
                    companion_instance_id,
                    if_match@,
                    now as int,
                ),
    {
        let now = self.clock.now();
        self.acknowledge_at(owner_id, launch_id, companion_instance_id, if_match, now)
    }

    /// Removes the owner's unconsumed launches for a project.
    fn purge_project(&mut self, owner_id: &str, project_id: u128) -> (r: Result<(), CalculatorLaunchError>)
        ensures
            r is Ok,
            final(self)@ == purge_outcome(old(self)@, owner_id@, project_id),
    {
        InMemoryCalculatorLaunchRepository::purge_project(self, owner_id, project_id)
    }
}

// ---------------------------------------------------------------------------
// Laws of the launch store.
// ---------------------------------------------------------------------------

/// Exactly one companion instance claims a launch: once an instance's claim
/// succeeds, a claim by any other instance at the same time is refused as a conflict.
pub proof fn lemma_single_claimant(
    m: Map<LaunchKey, StoredView>,
    owner: Seq<char>,
    id: u128,
    first: u128,
    first_version: Seq<char>,
    second: u128,
    second_version: Seq<char>,
    now: int,
)
    requires
        first != second,
        claim_outcome(m, owner, id, first, first_version, now).0 is Ok,
    ensures
        claim_outcome(claim_outcome(m, owner, id, first, first_version, now).1, owner, id, second, second_version, now).0
            == Err::<LaunchView, CalculatorLaunchError>(CalculatorLaunchError::Conflict),
{
    let key = (owner, id);
    let st = m[key];
    let v = st.document;
    if v.status == CalculatorLaunchStatus::Ready {
        let version = (st.version + 1) as u64;
        let updated = offset_text(now, 0).unwrap();
        let expires = offset_text(now, ACTIVE_TTL_SECONDS as int).unwrap();
        let d = claimed_document(v, first, first_version, version, updated, expires);
        let m1 = m.insert(key, StoredView { document: d, version, manifest_json: st.manifest_json });
        assert(m1[key].document == d);
        assert(launch_etag_text(version).len() > 0);
        assert(document_error(d, owner, Some(id), st.manifest_json) is None);
        assert(expired_at(d, now) == Some(false));
    }
}

/// Acknowledgement is idempotent for the claimant: once it succeeds, the same
/// instance acknowledging again, at any time and with any entity tag, succeeds
/// and changes nothing.
pub proof fn lemma_acknowledge_idempotent(
    m: Map<LaunchKey, StoredView>,
    owner: Seq<char>,
    id: u128,
    instance: u128,
    if_match: Seq<char>,
    now: int,
    again_if_match: Seq<char>,
    later: int,
)
    requires
        acknowledge_outcome(m, owner, id, instance, if_match, now).0 is Ok,
    ensures
        ({
            let m1 = acknowledge_outcome(m, owner, id, instance, if_match, now).1;
            acknowledge_outcome(m1, owner, id, instance, again_if_match, later) == (Ok::<(), CalculatorLaunchError>(()), m1)
        }),
{
    let key = (owner, id);
    let st = m[key];
    let v = st.document;
    if !(v.status == CalculatorLaunchStatus::Consumed && v.companion_instance_id == Some(instance)) {
        let version = (st.version + 1) as u64;
        let updated = offset_text(now, 0).unwrap();
        let expires = offset_text(now, CONSUMED_TTL_SECONDS as int).unwrap();
        let d = consumed_document(v, version, updated, expires);
        let m1 = m.insert(key, StoredView { document: d, version, manifest_json: Seq::empty() });
        assert(m1[key].document == d);
        assert(launch_etag_text(version).len() > 0);
        assert(document_error(d, owner, Some(id), Seq::empty()) is None);
    }
}

/// Acknowledging a claimed launch leaves a tombstone: consumed, with its project
/// binding and manifest dropped, and every later claim of it is refused (as a
/// conflict while the tombstone has not expired).
pub proof fn lemma_acknowledged_launch_is_consumed(
    m: Map<LaunchKey, StoredView>,
    owner: Seq<char>,
    id: u128,
    instance: u128,
    if_match: Seq<char>,
    now: int,
    claimant: u128,
    companion_version: Seq<char>,
    later: int,
)
    requires
        m.contains_key((owner, id)),
        m[(owner, id)].document.status == CalculatorLaunchStatus::Claimed,
        acknowledge_outcome(m, owner, id, instance, if_match, now).0 is Ok,
    ensures
        ({
            let m1 = acknowledge_outcome(m, owner, id, instance, if_match, now).1;
            &&& m1.contains_key((owner, id))
            &&& m1[(owner, id)].document.status == CalculatorLaunchStatus::Consumed
            &&& m1[(owner, id)].document.manifest is None
            &&& m1[(owner, id)].document.manifest_sha256 is None
            &&& m1[(owner, id)].document.source_project_id is None
            &&& claim_outcome(m1, owner, id, claimant, companion_version, later).0 is Err
            &&& expiry_error(m1[(owner, id)].document, later) is None ==> claim_outcome(
                m1,
                owner,
                id,
                claimant,
                companion_version,
                later,
            ).0 == Err::<LaunchView, CalculatorLaunchError>(CalculatorLaunchError::Conflict)
        }),
{
    let key = (owner, id);
    let st = m[key];
    let v = st.document;
    if !(v.status == CalculatorLaunchStatus::Consumed && v.companion_instance_id == Some(instance)) {
        let version = (st.version + 1) as u64;
        let updated = offset_text(now, 0).unwrap();
        let expires = offset_text(now, CONSUMED_TTL_SECONDS as int).unwrap();
        let d = consumed_document(v, version, updated, expires);
        let m1 = m.insert(key, StoredView { document: d, version, manifest_json: Seq::empty() });
        assert(m1[key].document == d);
    }
}

/// An owner has at most one open launch: a launch is created only when none of
/// the owner's ready or claimed launches is still open.
pub proof fn lemma_one_open_launch_per_owner(
    m: Map<LaunchKey, StoredView>,
    owner: Seq<char>,
    l: NewLaunchView,
    now: int,
)
    requires
        create_outcome(m, owner, l, now).0 matches Ok((_, created)) && created,
    ensures
        !owner_has_open_launch(m, owner, now),
        !m.contains_key((owner, l.id)),
{
}

/// Launch operations are owner-scoped: creating, claiming or acknowledging a
/// launch of one owner leaves every launch of another owner as it was.
pub proof fn lemma_launches_are_owner_scoped(
    m: Map<LaunchKey, StoredView>,
    owner: Seq<char>,
    l: NewLaunchView,
    id: u128,
    instance: u128,
    text: Seq<char>,
    now: int,
    other: LaunchKey,
)
    requires
        other.0 != owner,
    ensures
        create_outcome(m, owner, l, now).1.contains_key(other) == m.contains_key(other),
        create_outcome(m, owner, l, now).1[other] == m[other],
        claim_outcome(m, owner, id, instance, text, now).1.contains_key(other) == m.contains_key(other),
        claim_outcome(m, owner, id, instance, text, now).1[other] == m[other],
        acknowledge_outcome(m, owner, id, instance, text, now).1.contains_key(other) == m.contains_key(other),
        acknowledge_outcome(m, owner, id, instance, text, now).1[other] == m[other],
{
}

} // verus!
