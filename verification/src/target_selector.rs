use vstd::prelude::*;

use crate::decimal::{decimal_display, decimal_div, decimal_sub, fits, spec_max, DecimalValue};
use crate::text::{bytes_order, decimal_digits, join_text, lemma_lex_less_asymmetric, lemma_lex_less_transitive, lex_less, text_equals, usize_text};
use vstd::string::StringSliceAdditionalSpecFns;
use vstd::utf8::encode_utf8;

verus! {

const NGGP_IOPS_PER_VCORE: u64 = 1_600;

const NGGP_MAX_IOPS: u64 = 80_000;

#[derive(Clone, Debug)]
pub struct CapabilityCatalog {
    pub schema_version: String,
    pub candidates: Vec<TargetCandidate>,
}

/// One managed-instance configuration of the capability catalog.
#[derive(Clone, Debug)]
pub struct TargetCandidate {
    pub configuration_key: String,
    pub azure_region: String,
    pub service_tier: ServiceTier,
    pub hardware_family: String,
    pub vcores: u32,
    pub zone_redundant: bool,
    pub included_memory_gb: DecimalValue,
    pub supported_memory_gb: Vec<DecimalValue>,
    pub storage_architecture: String,
    pub maximum_storage_gb: Option<DecimalValue>,
    pub source_url: String,
    pub reviewed_date: String,
}

#[derive(Clone, Copy, Debug, PartialEq, Eq, Structural)]
pub enum ServiceTier {
    NextGenerationGeneralPurpose,
    BusinessCritical,
}

/// What the source workload needs of its target.
#[derive(Clone, Copy, Debug)]
pub struct TargetSelectionRequest<'a> {
    pub azure_region: &'a str,
    pub source_vcpu: u32,
    pub source_memory_gb: DecimalValue,
    pub required_storage_gb: DecimalValue,
    pub source_max_iops: u64,
    pub workbook_parity_mode: bool,
}

#[derive(Clone, Copy, Debug, PartialEq, Eq, Structural)]
pub enum MappingStatus {
    Mapped,
    NoMapping,
}

#[derive(Clone, Debug)]
pub struct TargetSelection {
    pub mapping_status: MappingStatus,
    pub requested_tier: ServiceTier,
    pub nggp_iops_limit: u64,
    pub selected: Option<SelectedTarget>,
    pub candidates: Vec<CandidateEvaluation>,
    pub outcome_reasons: Vec<SelectionReason>,
    pub storage_escalation: Option<StorageEscalation>,
}

#[derive(Clone, Debug)]
pub struct SelectedTarget {
    pub configuration_key: String,
    pub azure_region: String,
    pub service_tier: ServiceTier,
    pub hardware_family: String,
    pub vcores: u32,
    pub zone_redundant: bool,
    pub included_memory_gb: DecimalValue,
    pub selected_memory_gb: DecimalValue,
    pub additional_memory_gb: DecimalValue,
    pub storage_architecture: String,
    pub maximum_storage_gb: Option<DecimalValue>,
}

#[derive(Clone, Debug)]
pub struct CandidateEvaluation {
    pub configuration_key: String,
    pub vcores: u32,
    pub selected_memory_gb: Option<DecimalValue>,
    pub eligible: bool,
    pub rejection_reasons: Vec<SelectionReason>,
}

#[derive(Clone, Debug)]
pub struct SelectionReason {
    pub code: SelectionReasonCode,
    pub detail: String,
}

pub type ReasonView = (SelectionReasonCode, Seq<char>);

impl View for SelectionReason {
    type V = ReasonView;

    open spec fn view(&self) -> ReasonView {
        (self.code, self.detail@)
    }
}

pub open spec fn reason_views(reasons: Seq<SelectionReason>) -> Seq<ReasonView> {
    reasons.map_values(|reason: SelectionReason| reason@)
}

#[derive(Clone, Copy, Debug, PartialEq, Eq, Structural)]
pub enum SelectionReasonCode {
    RegionUnavailable,
    TierUnavailable,
    ZoneRedundancyUnsupported,
    HardwareFamilyUnsupported,
    InsufficientVcores,
    InsufficientMemory,
    InsufficientStorage,
}

#[derive(Clone, Debug, PartialEq)]
pub struct StorageEscalation {
    pub rejected_configuration_key: String,
    pub rejected_maximum_storage_gb: DecimalValue,
    pub selected_configuration_key: String,
}

#[derive(Clone, Copy, Debug, PartialEq, Eq, Structural)]
pub enum TargetSelectionError {
    InvalidSourceVcpu,
    InvalidSourceMemory,
    InvalidRequiredStorage,
}

impl TargetSelectionError {
    /// The error's message as text.
    pub open spec fn spec_message(&self) -> Seq<char> {
        match self {
            TargetSelectionError::InvalidSourceVcpu => "source vCPU must be greater than zero"@,
            TargetSelectionError::InvalidSourceMemory => "source memory must be greater than zero"@,
            TargetSelectionError::InvalidRequiredStorage => "required storage size must not be negative"@,
        }
    }

    /// The error's message.
    pub fn message(&self) -> (r: &'static str)
        ensures
            r@ == self.spec_message(),
    {
        match self {
            TargetSelectionError::InvalidSourceVcpu => "source vCPU must be greater than zero",
            TargetSelectionError::InvalidSourceMemory => "source memory must be greater than zero",
            TargetSelectionError::InvalidRequiredStorage => "required storage size must not be negative",
        }
    }
}

pub const ZONE_REDUNDANT_DETAIL: &'static str = "Zone-redundant targets are not eligible in v1.";

pub const PREMIUM_HARDWARE_DETAIL: &'static str = "Workbook-parity NGGP selection requires Premium-series hardware.";

pub const TIER_UNAVAILABLE_DETAIL: &'static str = "The requested service tier is not available in the selected region.";

pub const PREMIUM_SERIES: &'static str = "Premium Series";

pub const PREMIUM_SERIES_MEMORY_OPTIMIZED: &'static str = "Premium Series Memory Optimized";

// ---------------------------------------------------------------------------
// The model of a selection.
// ---------------------------------------------------------------------------

/// The candidate is offered in the requested region and tier.
pub open spec fn in_scope(c: TargetCandidate, region: Seq<char>, tier: ServiceTier) -> bool {
    c.azure_region@ == region && c.service_tier == tier
}

pub open spec fn premium_hardware(family: Seq<char>) -> bool {
    family == PREMIUM_SERIES@ || family == PREMIUM_SERIES_MEMORY_OPTIMIZED@
}

/// The first of the smallest values not below `floor`, scanning left to right.
pub open spec fn smallest_at_least(values: Seq<DecimalValue>, floor: DecimalValue) -> Option<DecimalValue>
    decreases values.len(),
{
    if values.len() == 0 {
        None
    } else {
        let best = smallest_at_least(values.drop_last(), floor);
        let v = values.last();
        if v.units() >= floor.units() && (best is None || v.units() < best.unwrap().units()) {
            Some(v)
        } else {
            best
        }
    }
}

/// The last of the largest values, scanning left to right.
pub open spec fn largest(values: Seq<DecimalValue>) -> Option<DecimalValue>
    decreases values.len(),
{
    if values.len() == 0 {
        None
    } else {
        let best = largest(values.drop_last());
        let v = values.last();
        if best is None || v.units() >= best.unwrap().units() {
            Some(v)
        } else {
            best
        }
    }
}

pub open spec fn reason_if(condition: bool, code: SelectionReasonCode, detail: Seq<char>) -> Seq<ReasonView> {
    if condition {
        seq![(code, detail)]
    } else {
        seq![]
    }
}

pub open spec fn vcores_detail(vcores: u32, source_vcpu: u32) -> Seq<char> {
    "Candidate has "@ + decimal_digits(vcores as nat) + " vCores but the source requires "@
        + decimal_digits(source_vcpu as nat) + "."@
}

pub open spec fn memory_detail(source_memory: DecimalValue) -> Seq<char> {
    "No supported memory value meets the source requirement of "@ + decimal_display(source_memory) + " GB."@
}

pub open spec fn storage_detail(required: DecimalValue) -> Seq<char> {
    "Candidate storage limit is below the required "@ + decimal_display(required) + " GB."@
}

pub open spec fn storage_below(maximum: Option<DecimalValue>, required: DecimalValue) -> bool {
    maximum matches Some(m) && m.units() < required.units()
}

/// The smallest supported memory that covers the source, and the reasons that
/// rule the candidate out; out of scope, a candidate is neither sized nor judged.
pub open spec fn spec_evaluation(
    c: TargetCandidate,
    req: TargetSelectionRequest,
    tier: ServiceTier,
    enforce_storage: bool,
) -> (Option<DecimalValue>, Seq<ReasonView>) {
    if !in_scope(c, req.azure_region@, tier) {
        (None, seq![])
    } else {
        let memory = smallest_at_least(c.supported_memory_gb@, req.source_memory_gb);
        (
            memory,
            reason_if(c.zone_redundant, SelectionReasonCode::ZoneRedundancyUnsupported, ZONE_REDUNDANT_DETAIL@)
                + reason_if(
                req.workbook_parity_mode && tier == ServiceTier::NextGenerationGeneralPurpose
                    && !premium_hardware(c.hardware_family@),
                SelectionReasonCode::HardwareFamilyUnsupported,
                PREMIUM_HARDWARE_DETAIL@,
            ) + reason_if(
                c.vcores < req.source_vcpu,
                SelectionReasonCode::InsufficientVcores,
                vcores_detail(c.vcores, req.source_vcpu),
            ) + reason_if(
                memory is None,
                SelectionReasonCode::InsufficientMemory,
                memory_detail(req.source_memory_gb),
            ) + reason_if(
                enforce_storage && storage_below(c.maximum_storage_gb, req.required_storage_gb),
                SelectionReasonCode::InsufficientStorage,
                storage_detail(req.required_storage_gb),
            ),
        )
    }
}

/// In scope, with no reason against it and a memory size that covers the source.
pub open spec fn eligible(c: TargetCandidate, req: TargetSelectionRequest, tier: ServiceTier, enforce_storage: bool) -> bool {
    let e = spec_evaluation(c, req, tier, enforce_storage);
    in_scope(c, req.azure_region@, tier) && e.1.len() == 0 && e.0 is Some
}

/// The relative overage `(x - base) / base`, as the decimal type computes it;
/// `None` where it cannot represent the result.
pub open spec fn overage(x: DecimalValue, base: DecimalValue) -> Option<DecimalValue> {
    match decimal_sub(x, base) {
        Some(d) => decimal_div(d, base),
        None => None,
    }
}

pub open spec fn opt_units(v: Option<DecimalValue>) -> Option<int> {
    match v {
        Some(d) => Some(d.units()),
        None => None,
    }
}

/// Order of optional values: by value, with a missing value after every present one.
pub open spec fn opt_before(a: Option<int>, b: Option<int>) -> bool {
    match (a, b) {
        (Some(x), Some(y)) => x < y,
        (Some(_), None) => true,
        _ => false,
    }
}

pub open spec fn tier_rank(tier: ServiceTier) -> int {
    match tier {
        ServiceTier::NextGenerationGeneralPurpose => 0,
        ServiceTier::BusinessCritical => 1,
    }
}

/// What candidates are ranked by: relative vCore overage, relative memory overage,
/// tier, vCores, configuration key.
pub type SelectionKey = (Option<int>, Option<int>, int, int, Seq<u8>);

pub open spec fn selection_key(c: TargetCandidate, memory: DecimalValue, req: TargetSelectionRequest) -> SelectionKey {
    (
        opt_units(overage(DecimalValue::integer_value(c.vcores as int), DecimalValue::integer_value(req.source_vcpu as int))),
        opt_units(overage(memory, req.source_memory_gb)),
        tier_rank(c.service_tier),
        c.vcores as int,
        encode_utf8(c.configuration_key@),
    )
}

/// Strict lexicographic order of selection keys.
pub open spec fn key_before(a: SelectionKey, b: SelectionKey) -> bool {
    ||| opt_before(a.0, b.0)
    ||| a.0 == b.0 && opt_before(a.1, b.1)
    ||| a.0 == b.0 && a.1 == b.1 && a.2 < b.2
    ||| a.0 == b.0 && a.1 == b.1 && a.2 == b.2 && a.3 < b.3
    ||| a.0 == b.0 && a.1 == b.1 && a.2 == b.2 && a.3 == b.3 && lex_less(a.4, b.4)
}

/// The ranking of candidate keys is transitive.
pub proof fn lemma_key_before_transitive(a: SelectionKey, b: SelectionKey, c: SelectionKey)
    requires
        key_before(a, b),
        key_before(b, c),
    ensures
        key_before(a, c),
{
    if a.0 == b.0 && a.1 == b.1 && a.2 == b.2 && a.3 == b.3 && b.0 == c.0 && b.1 == c.1 && b.2 == c.2 && b.3 == c.3 {
        lemma_lex_less_transitive(a.4, b.4, c.4);
    }
}

/// The key of an eligible candidate, sized with its smallest covering memory.
pub open spec fn candidate_key(c: TargetCandidate, req: TargetSelectionRequest, tier: ServiceTier, enforce_storage: bool) -> SelectionKey {
    selection_key(c, spec_evaluation(c, req, tier, enforce_storage).0.unwrap(), req)
}

/// The index of the first eligible candidate with the least key, scanning the
/// catalog in order: the head of the ranking that a stable sort produces.
pub open spec fn best_eligible(
    cands: Seq<TargetCandidate>,
    req: TargetSelectionRequest,
    tier: ServiceTier,
    enforce_storage: bool,
) -> Option<int>
    decreases cands.len(),
{
    if cands.len() == 0 {
        None
    } else {
        let best = best_eligible(cands.drop_last(), req, tier, enforce_storage);
        let c = cands.last();
        if eligible(c, req, tier, enforce_storage) && (best is None || key_before(
            candidate_key(c, req, tier, enforce_storage),
            candidate_key(cands[best.unwrap()], req, tier, enforce_storage),
        )) {
            Some(cands.len() - 1)
        } else {
            best
        }
    }
}

/// Only a shortfall of vCores or memory speaks against the candidate.
pub open spec fn only_capacity_reasons(reasons: Seq<ReasonView>) -> bool {
    forall|k: int|
        0 <= k < reasons.len() ==> (#[trigger] reasons[k]).0 == SelectionReasonCode::InsufficientVcores
            || reasons[k].0 == SelectionReasonCode::InsufficientMemory
}

/// For a candidate that could stand in when nothing is large enough: the smallest
/// supported memory that covers the source, else the largest supported memory.
pub open spec fn pool_choice(c: TargetCandidate, req: TargetSelectionRequest, tier: ServiceTier) -> Option<DecimalValue> {
    if in_scope(c, req.azure_region@, tier) && only_capacity_reasons(spec_evaluation(c, req, tier, false).1) {
        match smallest_at_least(c.supported_memory_gb@, req.source_memory_gb) {
            Some(m) => Some(m),
            None => largest(c.supported_memory_gb@),
        }
    } else {
        None
    }
}

/// The most vCores among the stand-in candidates.
pub open spec fn pool_max_vcores(cands: Seq<TargetCandidate>, req: TargetSelectionRequest, tier: ServiceTier) -> Option<int>
    decreases cands.len(),
{
    if cands.len() == 0 {
        None
    } else {
        let best = pool_max_vcores(cands.drop_last(), req, tier);
        let c = cands.last();
        if pool_choice(c, req, tier) is Some && (best is None || c.vcores > best.unwrap()) {
            Some(c.vcores as int)
        } else {
            best
        }
    }
}

/// The most memory among the stand-in candidates, in units of 10^-28 GB.
pub open spec fn pool_max_memory(cands: Seq<TargetCandidate>, req: TargetSelectionRequest, tier: ServiceTier) -> Option<int>
    decreases cands.len(),
{
    if cands.len() == 0 {
        None
    } else {
        let best = pool_max_memory(cands.drop_last(), req, tier);
        let c = cands.last();
        let m = pool_choice(c, req, tier);
        if m is Some && (best is None || m.unwrap().units() > best.unwrap()) {
            Some(m.unwrap().units())
        } else {
            best
        }
    }
}

/// `|a - b|`, as the decimal type computes it.
pub open spec fn distance(a: DecimalValue, b: DecimalValue) -> Option<DecimalValue> {
    if a.units() >= b.units() {
        decimal_sub(a, b)
    } else {
        decimal_sub(b, a)
    }
}

/// What stand-in candidates are ranked by: most vCores first when the source
/// needs more than any offers, most memory first likewise, then the closest
/// vCores, the closest memory, and the configuration key.
pub type FallbackKey = (int, int, int, Option<int>, Seq<u8>);

pub open spec fn fallback_key(
    c: TargetCandidate,
    memory: DecimalValue,
    req: TargetSelectionRequest,
    cpu_exceeded: bool,
    memory_exceeded: bool,
) -> FallbackKey {
    (
        if cpu_exceeded { -(c.vcores as int) } else { 0 },
        if memory_exceeded { -memory.units() } else { 0 },
        if c.vcores >= req.source_vcpu { c.vcores - req.source_vcpu } else { req.source_vcpu - c.vcores },
        opt_units(distance(memory, req.source_memory_gb)),
        encode_utf8(c.configuration_key@),
    )
}

pub open spec fn fallback_before(a: FallbackKey, b: FallbackKey) -> bool {
    ||| a.0 < b.0
    ||| a.0 == b.0 && a.1 < b.1
    ||| a.0 == b.0 && a.1 == b.1 && a.2 < b.2
    ||| a.0 == b.0 && a.1 == b.1 && a.2 == b.2 && opt_before(a.3, b.3)
    ||| a.0 == b.0 && a.1 == b.1 && a.2 == b.2 && a.3 == b.3 && lex_less(a.4, b.4)
}

/// A stand-in candidate that also has room for the storage, when storage counts.
pub open spec fn fallback_ok(c: TargetCandidate, req: TargetSelectionRequest, tier: ServiceTier, enforce_storage: bool) -> bool {
    pool_choice(c, req, tier) is Some && !(enforce_storage && storage_below(c.maximum_storage_gb, req.required_storage_gb))
}

/// The index of the first stand-in candidate with the least fallback key.
pub open spec fn best_fallback(
    cands: Seq<TargetCandidate>,
    req: TargetSelectionRequest,
    tier: ServiceTier,
    enforce_storage: bool,
    cpu_exceeded: bool,
    memory_exceeded: bool,
) -> Option<int>
    decreases cands.len(),
{
    if cands.len() == 0 {
        None
    } else {
        let best = best_fallback(cands.drop_last(), req, tier, enforce_storage, cpu_exceeded, memory_exceeded);
        let c = cands.last();
        if fallback_ok(c, req, tier, enforce_storage) && (best is None || fallback_before(
            fallback_key(c, pool_choice(c, req, tier).unwrap(), req, cpu_exceeded, memory_exceeded),
            fallback_key(
                cands[best.unwrap()],
                pool_choice(cands[best.unwrap()], req, tier).unwrap(),
                req,
                cpu_exceeded,
                memory_exceeded,
            ),
        )) {
            Some(cands.len() - 1)
        } else {
            best
        }
    }
}

/// The capacity-limited stand-in: only when the source needs more vCores or
/// memory than any candidate of the tier offers, the best-ranked such candidate
/// with its memory size.
pub open spec fn closest_capacity(
    cands: Seq<TargetCandidate>,
    req: TargetSelectionRequest,
    tier: ServiceTier,
    enforce_storage: bool,
) -> Option<(int, DecimalValue)> {
    match (pool_max_vcores(cands, req, tier), pool_max_memory(cands, req, tier)) {
        (Some(max_vcores), Some(max_memory)) => {
            let cpu_exceeded = req.source_vcpu > max_vcores;
            let memory_exceeded = req.source_memory_gb.units() > max_memory;
            if !cpu_exceeded && !memory_exceeded {
                None
            } else {
                match best_fallback(cands, req, tier, enforce_storage, cpu_exceeded, memory_exceeded) {
                    Some(i) => Some((i, pool_choice(cands[i], req, tier).unwrap())),
                    None => None,
                }
            }
        },
        _ => None,
    }
}

/// `smallest_at_least` finds the least value not below the floor, or reports that none is.
pub proof fn lemma_smallest_at_least(values: Seq<DecimalValue>, floor: DecimalValue)
    ensures
        match smallest_at_least(values, floor) {
            Some(v) => values.contains(v) && v.units() >= floor.units() && forall|k: int|
                0 <= k < values.len() && (#[trigger] values[k]).units() >= floor.units() ==> v.units() <= values[k].units(),
            None => forall|k: int| 0 <= k < values.len() ==> (#[trigger] values[k]).units() < floor.units(),
        },
    decreases values.len(),
{
    if values.len() > 0 {
        let rest = values.drop_last();
        lemma_smallest_at_least(rest, floor);
        assert forall|k: int| 0 <= k < rest.len() implies rest[k] == values[k] by {}
        let best = smallest_at_least(rest, floor);
        if best is Some {
            let k = choose|k: int| 0 <= k < rest.len() && rest[k] == best.unwrap();
            assert(values[k] == best.unwrap());
        }
        assert(values[values.len() - 1] == values.last());
    }
}

/// `largest` finds the greatest value of a non-empty sequence.
pub proof fn lemma_largest(values: Seq<DecimalValue>)
    ensures
        match largest(values) {
            Some(v) => values.contains(v) && forall|k: int| 0 <= k < values.len() ==> (#[trigger] values[k]).units() <= v.units(),
            None => values.len() == 0,
        },
    decreases values.len(),
{
    if values.len() > 0 {
        let rest = values.drop_last();
        lemma_largest(rest);
        assert forall|k: int| 0 <= k < rest.len() implies rest[k] == values[k] by {}
        let best = largest(rest);
        if best is Some {
            let k = choose|k: int| 0 <= k < rest.len() && rest[k] == best.unwrap();
            assert(values[k] == best.unwrap());
        }
        assert(values[values.len() - 1] == values.last());
    }
}

/// The memory chosen for the selected candidate, less the memory it includes,
/// stays within what a decimal holds, so its additional memory can be computed.
pub open spec fn chosen_memory_difference_fits(cands: Seq<TargetCandidate>, req: TargetSelectionRequest) -> bool {
    match spec_choice(cands, req, spec_requested_tier(cands, req)) {
        Some((i, m)) => fits(m.units() - cands[i].included_memory_gb.units()),
        None => true,
    }
}

/// The decimal type computes the chosen memory less the memory the chosen
/// candidate includes.
pub open spec fn chosen_memory_difference_defined(cands: Seq<TargetCandidate>, req: TargetSelectionRequest) -> bool {
    match spec_choice(cands, req, spec_requested_tier(cands, req)) {
        Some((i, m)) => decimal_sub(m, cands[i].included_memory_gb) is Some,
        None => true,
    }
}

/// The target as it is reported: the candidate's fields, the chosen memory, and
/// the memory beyond what the configuration includes (never negative).
pub open spec fn selected_target_of(t: SelectedTarget, c: TargetCandidate, memory: DecimalValue) -> bool {
    &&& t.configuration_key@ == c.configuration_key@
    &&& t.azure_region@ == c.azure_region@
    &&& t.service_tier == c.service_tier
    &&& t.hardware_family@ == c.hardware_family@
    &&& t.vcores == c.vcores
    &&& t.zone_redundant == c.zone_redundant
    &&& t.included_memory_gb == c.included_memory_gb
    &&& t.selected_memory_gb == memory
    &&& t.additional_memory_gb == spec_max(
        decimal_sub(memory, c.included_memory_gb).unwrap(),
        DecimalValue::integer_value(0),
    )
    &&& t.storage_architecture@ == c.storage_architecture@
    &&& t.maximum_storage_gb == c.maximum_storage_gb
}

/// The preferred candidate (storage aside) when storage pushed the choice to
/// another candidate: (preferred index, its storage limit, chosen index).
pub open spec fn spec_storage_escalation(
    cands: Seq<TargetCandidate>,
    req: TargetSelectionRequest,
    tier: ServiceTier,
) -> Option<(int, DecimalValue, int)> {
    match (best_eligible(cands, req, tier, false), best_eligible(cands, req, tier, true)) {
        (Some(p), Some(s)) => {
            if cands[p].configuration_key@ == cands[s].configuration_key@ {
                None
            } else {
                match cands[p].maximum_storage_gb {
                    Some(m) => if m.units() >= req.required_storage_gb.units() {
                        None
                    } else {
                        Some((p, m, s))
                    },
                    None => None,
                }
            }
        },
        _ => None,
    }
}

pub type EvaluationView = (Seq<char>, u32, Option<DecimalValue>, bool, Seq<ReasonView>);

impl View for CandidateEvaluation {
    type V = EvaluationView;

    open spec fn view(&self) -> EvaluationView {
        (
            self.configuration_key@,
            self.vcores,
            self.selected_memory_gb,
            self.eligible,
            reason_views(self.rejection_reasons@),
        )
    }
}

pub open spec fn evaluation_views(evaluations: Seq<CandidateEvaluation>) -> Seq<EvaluationView> {
    evaluations.map_values(|e: CandidateEvaluation| e@)
}

/// How a candidate of the requested region and tier fares, storage included.
pub open spec fn evaluation_entry(c: TargetCandidate, req: TargetSelectionRequest, tier: ServiceTier) -> EvaluationView {
    let e = spec_evaluation(c, req, tier, true);
    (c.configuration_key@, c.vcores, e.0, e.1.len() == 0, e.1)
}

/// The evaluations of the candidates in the requested region and tier, in catalog order.
pub open spec fn scoped_evaluations(cands: Seq<TargetCandidate>, req: TargetSelectionRequest, tier: ServiceTier) -> Seq<EvaluationView>
    decreases cands.len(),
{
    if cands.len() == 0 {
        seq![]
    } else {
        let rest = scoped_evaluations(cands.drop_last(), req, tier);
        if in_scope(cands.last(), req.azure_region@, tier) {
            rest.push(evaluation_entry(cands.last(), req, tier))
        } else {
            rest
        }
    }
}

/// Eligible first, then fewer vCores, then the configuration key.
pub open spec fn evaluation_before(a: EvaluationView, b: EvaluationView) -> bool {
    ||| a.3 && !b.3
    ||| a.3 == b.3 && a.1 < b.1
    ||| a.3 == b.3 && a.1 == b.1 && lex_less(encode_utf8(a.0), encode_utf8(b.0))
}

/// Where a stable insertion puts `x` into the ordered `s`: before the first
/// element that `x` precedes.
pub open spec fn insert_position(s: Seq<EvaluationView>, x: EvaluationView) -> int
    decreases s.len(),
{
    if s.len() == 0 {
        0
    } else if evaluation_before(x, s[0]) {
        0
    } else {
        1 + insert_position(s.drop_first(), x)
    }
}

/// The evaluations in the order a stable sort by `evaluation_before` gives.
pub open spec fn sorted_evaluations(s: Seq<EvaluationView>) -> Seq<EvaluationView>
    decreases s.len(),
{
    if s.len() == 0 {
        seq![]
    } else {
        let sorted = sorted_evaluations(s.drop_last());
        sorted.insert(insert_position(sorted, s.last()), s.last())
    }
}

pub open spec fn tier_label(tier: ServiceTier) -> Seq<char> {
    match tier {
        ServiceTier::NextGenerationGeneralPurpose => "Next-generation General Purpose"@,
        ServiceTier::BusinessCritical => "Business Critical"@,
    }
}

pub open spec fn fallback_vcores_detail(req: TargetSelectionRequest, c: TargetCandidate) -> Seq<char> {
    "Azure SQL Managed Instance does not offer the source requirement of "@ + decimal_digits(req.source_vcpu as nat)
        + " vCores in the "@ + tier_label(c.service_tier) + " tier on "@ + c.hardware_family@
        + " hardware. The closest available configuration provides "@ + decimal_digits(c.vcores as nat)
        + " vCores; this capacity-limited match has been applied and requires workload validation."@
}

pub open spec fn fallback_memory_detail(req: TargetSelectionRequest, c: TargetCandidate, memory: DecimalValue) -> Seq<char> {
    "Azure SQL Managed Instance does not offer the source requirement of "@ + decimal_display(req.source_memory_gb)
        + " GB memory in the "@ + tier_label(c.service_tier) + " tier on "@ + c.hardware_family@
        + " hardware. The closest available configuration provides "@ + decimal_display(memory)
        + " GB; this capacity-limited match has been applied and requires workload validation."@
}

/// Why a capacity-limited stand-in was applied: the shortfall of vCores and of memory.
pub open spec fn spec_fallback_reasons(req: TargetSelectionRequest, c: TargetCandidate, memory: DecimalValue) -> Seq<ReasonView> {
    reason_if(c.vcores < req.source_vcpu, SelectionReasonCode::InsufficientVcores, fallback_vcores_detail(req, c))
        + reason_if(
        memory.units() < req.source_memory_gb.units(),
        SelectionReasonCode::InsufficientMemory,
        fallback_memory_detail(req, c, memory),
    )
}

/// Why nothing could be chosen, when the region or the tier is missing from the catalog.
pub open spec fn spec_outcome_reasons(
    cands: Seq<TargetCandidate>,
    req: TargetSelectionRequest,
    tier: ServiceTier,
    any_eligible: bool,
) -> Seq<ReasonView> {
    if any_eligible {
        seq![]
    } else if !(exists|i: int| 0 <= i < cands.len() && (#[trigger] cands[i]).azure_region@ == req.azure_region@) {
        seq![
            (
                SelectionReasonCode::RegionUnavailable,
                "The capability catalog has no candidates in "@ + req.azure_region@ + "."@,
            ),
        ]
    } else if !(exists|i: int| 0 <= i < cands.len() && in_scope(#[trigger] cands[i], req.azure_region@, tier)) {
        seq![(SelectionReasonCode::TierUnavailable, TIER_UNAVAILABLE_DETAIL@)]
    } else {
        seq![]
    }
}

/// The error a request is refused with, if any.
pub open spec fn spec_request_error(req: TargetSelectionRequest) -> Option<TargetSelectionError> {
    if req.source_vcpu == 0 {
        Some(TargetSelectionError::InvalidSourceVcpu)
    } else if req.source_memory_gb.units() <= 0 {
        Some(TargetSelectionError::InvalidSourceMemory)
    } else if req.required_storage_gb.units() < 0 {
        Some(TargetSelectionError::InvalidRequiredStorage)
    } else {
        None
    }
}

/// The IOPS a Next-generation General Purpose target sustains: 1,600 per vCore of
/// the best such candidate (storage aside), or of the source when there is none,
/// capped at 80,000.
pub open spec fn spec_iops_limit(cands: Seq<TargetCandidate>, req: TargetSelectionRequest) -> int {
    let threshold = match best_eligible(cands, req, ServiceTier::NextGenerationGeneralPurpose, false) {
        Some(i) => cands[i].vcores as int,
        None => req.source_vcpu as int,
    };
    if threshold * 1600 <= 80_000 {
        threshold * 1600
    } else {
        80_000
    }
}

/// Next-generation General Purpose when its IOPS limit covers the source, else Business Critical.
pub open spec fn spec_requested_tier(cands: Seq<TargetCandidate>, req: TargetSelectionRequest) -> ServiceTier {
    if req.source_max_iops <= spec_iops_limit(cands, req) {
        ServiceTier::NextGenerationGeneralPurpose
    } else {
        ServiceTier::BusinessCritical
    }
}

/// The chosen candidate and memory: the best eligible candidate of the requested
/// tier with room for the storage, else the capacity-limited stand-in.
pub open spec fn spec_choice(cands: Seq<TargetCandidate>, req: TargetSelectionRequest, tier: ServiceTier) -> Option<(int, DecimalValue)> {
    match best_eligible(cands, req, tier, true) {
        Some(i) => Some((i, spec_evaluation(cands[i], req, tier, true).0.unwrap())),
        None => closest_capacity(cands, req, tier, true),
    }
}

pub open spec fn spec_selection_reasons(cands: Seq<TargetCandidate>, req: TargetSelectionRequest, tier: ServiceTier) -> Seq<ReasonView> {
    let with_storage = best_eligible(cands, req, tier, true);
    match (with_storage, closest_capacity(cands, req, tier, true)) {
        (None, Some((i, m))) => spec_fallback_reasons(req, cands[i], m),
        _ => spec_outcome_reasons(cands, req, tier, with_storage is Some),
    }
}

/// The chosen candidate is eligible (in the requested region and tier, with a
/// memory size that covers the source and no reason against it), and no eligible
/// candidate ranks before it; nothing is chosen only when no candidate is eligible.
pub proof fn lemma_best_eligible(
    cands: Seq<TargetCandidate>,
    req: TargetSelectionRequest,
    tier: ServiceTier,
    enforce_storage: bool,
)
    ensures
        match best_eligible(cands, req, tier, enforce_storage) {
            Some(i) => {
                &&& 0 <= i < cands.len()
                &&& eligible(cands[i], req, tier, enforce_storage)
                &&& cands[i].supported_memory_gb@.contains(spec_evaluation(cands[i], req, tier, enforce_storage).0.unwrap())
                &&& forall|j: int|
                    0 <= j < cands.len() && eligible(#[trigger] cands[j], req, tier, enforce_storage) ==> !key_before(
                        candidate_key(cands[j], req, tier, enforce_storage),
                        candidate_key(cands[i], req, tier, enforce_storage),
                    )
            },
            None => forall|j: int| 0 <= j < cands.len() ==> !eligible(#[trigger] cands[j], req, tier, enforce_storage),
        },
    decreases cands.len(),
{
    if cands.len() > 0 {
        let rest = cands.drop_last();
        lemma_best_eligible(rest, req, tier, enforce_storage);
        assert forall|j: int| 0 <= j < rest.len() implies rest[j] == cands[j] by {}
        let n = cands.len() - 1;
        assert(cands[n] == cands.last());
        lemma_smallest_at_least(cands[n].supported_memory_gb@, req.source_memory_gb);
        let best = best_eligible(rest, req, tier, enforce_storage);
        let result = best_eligible(cands, req, tier, enforce_storage);
        if best is Some && result == best {
            let b = best.unwrap();
            assert forall|j: int|
                0 <= j < cands.len() && eligible(#[trigger] cands[j], req, tier, enforce_storage) implies !key_before(
                candidate_key(cands[j], req, tier, enforce_storage),
                candidate_key(cands[b], req, tier, enforce_storage),
            ) by {
                if j < n {
                    assert(rest[j] == cands[j]);
                }
            }
        } else if best is Some {
            let b = best.unwrap();
            assert forall|j: int|
                0 <= j < cands.len() && eligible(#[trigger] cands[j], req, tier, enforce_storage) implies !key_before(
                candidate_key(cands[j], req, tier, enforce_storage),
                candidate_key(cands[n], req, tier, enforce_storage),
            ) by {
                if j < n {
                    assert(rest[j] == cands[j]);
                    if key_before(candidate_key(cands[j], req, tier, enforce_storage), candidate_key(cands[n], req, tier, enforce_storage)) {
                        lemma_key_before_transitive(
                            candidate_key(cands[j], req, tier, enforce_storage),
                            candidate_key(cands[n], req, tier, enforce_storage),
                            candidate_key(cands[b], req, tier, enforce_storage),
                        );
                    }
                } else {
                    lemma_key_before_irreflexive(candidate_key(cands[n], req, tier, enforce_storage));
                }
            }
        } else if result is Some {
            assert forall|j: int|
                0 <= j < cands.len() && eligible(#[trigger] cands[j], req, tier, enforce_storage) implies !key_before(
                candidate_key(cands[j], req, tier, enforce_storage),
                candidate_key(cands[n], req, tier, enforce_storage),
            ) by {
                if j < n {
                    assert(rest[j] == cands[j]);
                } else {
                    lemma_key_before_irreflexive(candidate_key(cands[n], req, tier, enforce_storage));
                }
            }
        } else {
            assert forall|j: int| 0 <= j < cands.len() implies !eligible(#[trigger] cands[j], req, tier, enforce_storage) by {
                if j < n {
                    assert(rest[j] == cands[j]);
                }
            }
        }
    }
}

/// Every chosen target is of the requested region and tier, with one of its
/// supported memory sizes; one chosen without the capacity-limited stand-in has
/// at least the source's vCores, memory that covers the source's, room for the
/// required storage, and no zone redundancy.
pub proof fn lemma_choice_meets_request(cands: Seq<TargetCandidate>, req: TargetSelectionRequest, tier: ServiceTier)
    ensures
        spec_choice(cands, req, tier) matches Some((i, m)) ==> {
            &&& 0 <= i < cands.len()
            &&& in_scope(cands[i], req.azure_region@, tier)
            &&& cands[i].supported_memory_gb@.contains(m)
        },
        best_eligible(cands, req, tier, true) matches Some(i) ==> {
            let m = spec_evaluation(cands[i], req, tier, true).0.unwrap();
            &&& cands[i].vcores >= req.source_vcpu
            &&& m.units() >= req.source_memory_gb.units()
            &&& !storage_below(cands[i].maximum_storage_gb, req.required_storage_gb)
            &&& !cands[i].zone_redundant
        },
{
    lemma_best_eligible(cands, req, tier, true);
    lemma_closest_capacity_member(cands, req, tier, true);
    match best_eligible(cands, req, tier, true) {
        Some(i) => {
            lemma_smallest_at_least(cands[i].supported_memory_gb@, req.source_memory_gb);
            let e = spec_evaluation(cands[i], req, tier, true);
            assert(e.1.len() == 0);
        },
        None => {},
    }
}

/// No candidate key ranks before itself.
pub proof fn lemma_key_before_irreflexive(a: SelectionKey)
    ensures
        !key_before(a, a),
{
    if lex_less(a.4, a.4) {
        lemma_lex_less_asymmetric(a.4, a.4);
    }
}

/// A stand-in is a candidate of the requested region and tier, and its memory is
/// one of the candidate's supported sizes.
pub proof fn lemma_closest_capacity_member(
    cands: Seq<TargetCandidate>,
    req: TargetSelectionRequest,
    tier: ServiceTier,
    enforce_storage: bool,
)
    ensures
        closest_capacity(cands, req, tier, enforce_storage) matches Some((i, m)) ==> {
            &&& 0 <= i < cands.len()
            &&& in_scope(cands[i], req.azure_region@, tier)
            &&& cands[i].supported_memory_gb@.contains(m)
            &&& fallback_ok(cands[i], req, tier, enforce_storage)
        },
{
    match (pool_max_vcores(cands, req, tier), pool_max_memory(cands, req, tier)) {
        (Some(max_vcores), Some(max_memory)) => {
            let cpu_exceeded = req.source_vcpu > max_vcores;
            let memory_exceeded = req.source_memory_gb.units() > max_memory;
            lemma_best_fallback_member(cands, req, tier, enforce_storage, cpu_exceeded, memory_exceeded);
            match best_fallback(cands, req, tier, enforce_storage, cpu_exceeded, memory_exceeded) {
                Some(i) => {
                    lemma_smallest_at_least(cands[i].supported_memory_gb@, req.source_memory_gb);
                    lemma_largest(cands[i].supported_memory_gb@);
                },
                None => {},
            }
        },
        _ => {},
    }
}

proof fn lemma_best_fallback_member(
    cands: Seq<TargetCandidate>,
    req: TargetSelectionRequest,
    tier: ServiceTier,
    enforce_storage: bool,
    cpu_exceeded: bool,
    memory_exceeded: bool,
)
    ensures
        best_fallback(cands, req, tier, enforce_storage, cpu_exceeded, memory_exceeded) matches Some(i) ==> 0 <= i
            < cands.len() && fallback_ok(cands[i], req, tier, enforce_storage),
    decreases cands.len(),
{
    if cands.len() > 0 {
        let rest = cands.drop_last();
        lemma_best_fallback_member(rest, req, tier, enforce_storage, cpu_exceeded, memory_exceeded);
        let best = best_fallback(rest, req, tier, enforce_storage, cpu_exceeded, memory_exceeded);
        if best is Some {
            assert(rest[best.unwrap()] == cands[best.unwrap()]);
        }
        assert(cands[cands.len() - 1] == cands.last());
    }
}

// ---------------------------------------------------------------------------
// Helpers.
// ---------------------------------------------------------------------------

fn reason(code: SelectionReasonCode, detail: &str) -> (r: SelectionReason)
    ensures
        r@ == (code, detail@),
{
    SelectionReason { code, detail: detail.to_owned() }
}

/// Appends `(code, detail)` when `condition` holds.
fn push_reason_if(reasons: &mut Vec<SelectionReason>, condition: bool, code: SelectionReasonCode, detail: &str)
    ensures
        reason_views(final(reasons)@) == reason_views(old(reasons)@) + reason_if(condition, code, detail@),
{
    let ghost before = reasons@;
    if condition {
        reasons.push(reason(code, detail));
    }
    assert(reason_views(reasons@) =~= reason_views(before) + reason_if(condition, code, detail@));
}

fn u32_text(n: u32) -> (r: String)
    ensures
        r@ == decimal_digits(n as nat),
{
    usize_text(n as usize)
}

/// The first of the smallest values not below `floor`.
pub fn smallest_memory_at_least(values: &Vec<DecimalValue>, floor: DecimalValue) -> (r: Option<DecimalValue>)
    ensures
        r == smallest_at_least(values@, floor),
{
    let mut best: Option<DecimalValue> = None;
    let mut i: usize = 0;
    assert(values@.subrange(0, 0) =~= Seq::<DecimalValue>::empty());
    while i < values.len()
        invariant
            i <= values@.len(),
            best == smallest_at_least(values@.subrange(0, i as int), floor),
        decreases values@.len() - i,
    {
        let v = values[i];
        assert(values@.subrange(0, i + 1).drop_last() =~= values@.subrange(0, i as int));
        let better = match best {
            Some(b) => v.lt(&b),
            None => true,
        };
        if floor.le(&v) && better {
            best = Some(v);
        }
        i = i + 1;
    }
    assert(values@.subrange(0, values@.len() as int) =~= values@);
    best
}

/// The last of the largest values.
pub fn largest_memory(values: &Vec<DecimalValue>) -> (r: Option<DecimalValue>)
    ensures
        r == largest(values@),
{
    let mut best: Option<DecimalValue> = None;
    let mut i: usize = 0;
    assert(values@.subrange(0, 0) =~= Seq::<DecimalValue>::empty());
    while i < values.len()
        invariant
            i <= values@.len(),
            best == largest(values@.subrange(0, i as int)),
        decreases values@.len() - i,
    {
        let v = values[i];
        assert(values@.subrange(0, i + 1).drop_last() =~= values@.subrange(0, i as int));
        let take = match best {
            Some(b) => b.le(&v),
            None => true,
        };
        if take {
            best = Some(v);
        }
        i = i + 1;
    }
    assert(values@.subrange(0, values@.len() as int) =~= values@);
    best
}

fn premium_hardware_exec(family: &str) -> (r: bool)
    ensures
        r == premium_hardware(family@),
{
    text_equals(family, PREMIUM_SERIES) || text_equals(family, PREMIUM_SERIES_MEMORY_OPTIMIZED)
}

fn storage_below_exec(maximum: Option<DecimalValue>, required: DecimalValue) -> (r: bool)
    ensures
        r == storage_below(maximum, required),
{
    match maximum {
        Some(m) => m.lt(&required),
        None => false,
    }
}

/// Sizes a candidate against the request and lists what rules it out.
pub fn evaluate_candidate(
    candidate: &TargetCandidate,
    request: TargetSelectionRequest,
    tier: ServiceTier,
    enforce_storage: bool,
) -> (r: (Option<DecimalValue>, Vec<SelectionReason>))
    ensures
        r.0 == spec_evaluation(*candidate, request, tier, enforce_storage).0,
        reason_views(r.1@) == spec_evaluation(*candidate, request, tier, enforce_storage).1,
{
    let mut reasons: Vec<SelectionReason> = Vec::new();
    assert(reason_views(reasons@) =~= seq![]);
    if !text_equals(candidate.azure_region.as_str(), request.azure_region) || candidate.service_tier != tier {
        return (None, reasons);
    }
    push_reason_if(&mut reasons, candidate.zone_redundant, SelectionReasonCode::ZoneRedundancyUnsupported, ZONE_REDUNDANT_DETAIL);
    push_reason_if(
        &mut reasons,
        request.workbook_parity_mode && tier == ServiceTier::NextGenerationGeneralPurpose
            && !premium_hardware_exec(candidate.hardware_family.as_str()),
        SelectionReasonCode::HardwareFamilyUnsupported,
        PREMIUM_HARDWARE_DETAIL,
    );
    let ghost before_vcores = reason_views(reasons@);
    if candidate.vcores < request.source_vcpu {
        let detail = join_text("Candidate has ", u32_text(candidate.vcores).as_str());
        let detail = join_text(detail.as_str(), " vCores but the source requires ");
        let detail = join_text(detail.as_str(), u32_text(request.source_vcpu).as_str());
        let detail = join_text(detail.as_str(), ".");
        push_reason_if(&mut reasons, true, SelectionReasonCode::InsufficientVcores, detail.as_str());
    }
    assert(reason_views(reasons@) =~= before_vcores + reason_if(
        candidate.vcores < request.source_vcpu,
        SelectionReasonCode::InsufficientVcores,
        vcores_detail(candidate.vcores, request.source_vcpu),
    ));
    let selected_memory_gb = smallest_memory_at_least(&candidate.supported_memory_gb, request.source_memory_gb);
    let ghost before_memory = reason_views(reasons@);
    if selected_memory_gb.is_none() {
        let detail = join_text(
            "No supported memory value meets the source requirement of ",
            request.source_memory_gb.to_string().as_str(),
        );
        let detail = join_text(detail.as_str(), " GB.");
        push_reason_if(&mut reasons, true, SelectionReasonCode::InsufficientMemory, detail.as_str());
    }
    assert(reason_views(reasons@) =~= before_memory + reason_if(
        selected_memory_gb is None,
        SelectionReasonCode::InsufficientMemory,
        memory_detail(request.source_memory_gb),
    ));
    let ghost before_storage = reason_views(reasons@);
    if enforce_storage && storage_below_exec(candidate.maximum_storage_gb, request.required_storage_gb) {
        let detail = join_text(
            "Candidate storage limit is below the required ",
            request.required_storage_gb.to_string().as_str(),
        );
        let detail = join_text(detail.as_str(), " GB.");
        push_reason_if(&mut reasons, true, SelectionReasonCode::InsufficientStorage, detail.as_str());
    }
    assert(reason_views(reasons@) =~= before_storage + reason_if(
        enforce_storage && storage_below(candidate.maximum_storage_gb, request.required_storage_gb),
        SelectionReasonCode::InsufficientStorage,
        storage_detail(request.required_storage_gb),
    ));
    (selected_memory_gb, reasons)
}

/// An eligible candidate, by its place in the catalog, with the memory size chosen for it.
#[derive(Clone, Copy, Debug)]
struct EligibleCandidate {
    index: usize,
    selected_memory_gb: DecimalValue,
}

fn overage_exec(x: DecimalValue, base: DecimalValue) -> (r: Option<DecimalValue>)
    ensures
        r == overage(x, base),
{
    match x.checked_sub(base) {
        Some(d) => d.checked_div(base),
        None => None,
    }
}

/// -1, 0 or 1 as `a` comes before, level with or after `b`.
fn option_order(a: Option<DecimalValue>, b: Option<DecimalValue>) -> (r: i8)
    ensures
        r == -1 <==> opt_before(opt_units(a), opt_units(b)),
        r == 0 <==> opt_units(a) == opt_units(b),
        r == 1 <==> opt_before(opt_units(b), opt_units(a)),
        -1 <= r <= 1,
{
    match (a, b) {
        (Some(x), Some(y)) => x.compare(&y),
        (Some(_), None) => -1,
        (None, Some(_)) => 1,
        (None, None) => 0,
    }
}

fn tier_priority(tier: ServiceTier) -> (r: u8)
    ensures
        r == tier_rank(tier),
{
    match tier {
        ServiceTier::NextGenerationGeneralPurpose => 0,
        ServiceTier::BusinessCritical => 1,
    }
}

/// Whether the first candidate ranks strictly before the second.
fn candidate_before(
    left: &TargetCandidate,
    left_memory: DecimalValue,
    right: &TargetCandidate,
    right_memory: DecimalValue,
    request: TargetSelectionRequest,
) -> (r: bool)
    ensures
        r == key_before(selection_key(*left, left_memory, request), selection_key(*right, right_memory, request)),
{
    let source_vcpu = DecimalValue::from_u32(request.source_vcpu);
    let left_vcpu = overage_exec(DecimalValue::from_u32(left.vcores), source_vcpu);
    let right_vcpu = overage_exec(DecimalValue::from_u32(right.vcores), source_vcpu);
    let vcpu_order = option_order(left_vcpu, right_vcpu);
    if vcpu_order != 0 {
        return vcpu_order == -1;
    }
    let left_memory_over = overage_exec(left_memory, request.source_memory_gb);
    let right_memory_over = overage_exec(right_memory, request.source_memory_gb);
    let memory_order = option_order(left_memory_over, right_memory_over);
    if memory_order != 0 {
        return memory_order == -1;
    }
    let left_tier = tier_priority(left.service_tier);
    let right_tier = tier_priority(right.service_tier);
    if left_tier != right_tier {
        return left_tier < right_tier;
    }
    if left.vcores != right.vcores {
        return left.vcores < right.vcores;
    }
    bytes_order(left.configuration_key.as_str().as_bytes(), right.configuration_key.as_str().as_bytes()) == -1
}

/// The first eligible candidate with the least key.
fn best_eligible_candidate(
    catalog: &CapabilityCatalog,
    request: TargetSelectionRequest,
    tier: ServiceTier,
    enforce_storage: bool,
) -> (r: Option<EligibleCandidate>)
    ensures
        match best_eligible(catalog.candidates@, request, tier, enforce_storage) {
            Some(i) => r is Some && r.unwrap().index == i && r.unwrap().selected_memory_gb
                == spec_evaluation(catalog.candidates@[i], request, tier, enforce_storage).0.unwrap(),
            None => r is None,
        },
{
    let ghost cands = catalog.candidates@;
    let mut best: Option<EligibleCandidate> = None;
    let mut i: usize = 0;
    assert(cands.subrange(0, 0) =~= Seq::<TargetCandidate>::empty());
    while i < catalog.candidates.len()
        invariant
            cands == catalog.candidates@,
            i <= cands.len(),
            match best_eligible(cands.subrange(0, i as int), request, tier, enforce_storage) {
                Some(k) => best is Some && best.unwrap().index == k && k < i
                    && best.unwrap().selected_memory_gb == spec_evaluation(cands[k], request, tier, enforce_storage).0.unwrap(),
                None => best is None,
            },
        decreases cands.len() - i,
    {
        let candidate = &catalog.candidates[i];
        let ghost prefix = cands.subrange(0, i + 1);
        assert(prefix.drop_last() =~= cands.subrange(0, i as int));
        assert(prefix.last() == cands[i as int]);
        let (memory, reasons) = evaluate_candidate(candidate, request, tier, enforce_storage);
        proof {
            let prev = best_eligible(cands.subrange(0, i as int), request, tier, enforce_storage);
            if prev is Some {
                assert(prefix[prev.unwrap()] == cands[prev.unwrap()]);
            }
        }
        if reasons.len() == 0 && memory.is_some() {
            let m = memory.unwrap();
            let replace = match best {
                Some(b) => candidate_before(candidate, m, &catalog.candidates[b.index], b.selected_memory_gb, request),
                None => true,
            };
            if replace {
                best = Some(EligibleCandidate { index: i, selected_memory_gb: m });
            }
        }
        i = i + 1;
    }
    assert(cands.subrange(0, cands.len() as int) =~= cands);
    best
}

fn pool_choice_exec(candidate: &TargetCandidate, request: TargetSelectionRequest, tier: ServiceTier) -> (r: Option<DecimalValue>)
    ensures
        r == pool_choice(*candidate, request, tier),
{
    if !text_equals(candidate.azure_region.as_str(), request.azure_region) || candidate.service_tier != tier {
        return None;
    }
    let (_, reasons) = evaluate_candidate(candidate, request, tier, false);
    let ghost views = reason_views(reasons@);
    let mut k: usize = 0;
    while k < reasons.len()
        invariant
            k <= reasons@.len(),
            views == reason_views(reasons@),
            views == spec_evaluation(*candidate, request, tier, false).1,
            in_scope(*candidate, request.azure_region@, tier),
            forall|j: int|
                0 <= j < k ==> (#[trigger] views[j]).0 == SelectionReasonCode::InsufficientVcores
                    || views[j].0 == SelectionReasonCode::InsufficientMemory,
        decreases reasons@.len() - k,
    {
        let code = reasons[k].code;
        assert(views[k as int] == reasons@[k as int]@);
        if code != SelectionReasonCode::InsufficientVcores && code != SelectionReasonCode::InsufficientMemory {
            assert(views[k as int].0 == code);
            assert(!only_capacity_reasons(views));
            return None;
        }
        k = k + 1;
    }
    match smallest_memory_at_least(&candidate.supported_memory_gb, request.source_memory_gb) {
        Some(m) => Some(m),
        None => largest_memory(&candidate.supported_memory_gb),
    }
}

/// The most vCores and the most memory among the stand-in candidates.
fn capacity_maxima(catalog: &CapabilityCatalog, request: TargetSelectionRequest, tier: ServiceTier) -> (r: (Option<u32>, Option<DecimalValue>))
    ensures
        match r.0 {
            Some(v) => pool_max_vcores(catalog.candidates@, request, tier) == Some(v as int),
            None => pool_max_vcores(catalog.candidates@, request, tier) is None,
        },
        opt_units(r.1) == pool_max_memory(catalog.candidates@, request, tier),
{
    let ghost cands = catalog.candidates@;
    let mut max_vcores: Option<u32> = None;
    let mut max_memory: Option<DecimalValue> = None;
    let mut i: usize = 0;
    assert(cands.subrange(0, 0) =~= Seq::<TargetCandidate>::empty());
    while i < catalog.candidates.len()
        invariant
            cands == catalog.candidates@,
            i <= cands.len(),
            match max_vcores {
                Some(v) => pool_max_vcores(cands.subrange(0, i as int), request, tier) == Some(v as int),
                None => pool_max_vcores(cands.subrange(0, i as int), request, tier) is None,
            },
            opt_units(max_memory) == pool_max_memory(cands.subrange(0, i as int), request, tier),
        decreases cands.len() - i,
    {
        let candidate = &catalog.candidates[i];
        let ghost prefix = cands.subrange(0, i + 1);
        assert(prefix.drop_last() =~= cands.subrange(0, i as int));
        assert(prefix.last() == cands[i as int]);
        match pool_choice_exec(candidate, request, tier) {
            Some(m) => {
                let more_vcores = match max_vcores {
                    Some(v) => candidate.vcores > v,
                    None => true,
                };
                if more_vcores {
                    max_vcores = Some(candidate.vcores);
                }
                let more_memory = match max_memory {
                    Some(b) => b.lt(&m),
                    None => true,
                };
                if more_memory {
                    max_memory = Some(m);
                }
            },
            None => {},
        }
        i = i + 1;
    }
    assert(cands.subrange(0, cands.len() as int) =~= cands);
    (max_vcores, max_memory)
}

fn decimal_distance(a: DecimalValue, b: DecimalValue) -> (r: Option<DecimalValue>)
    ensures
        r == distance(a, b),
{
    if b.le(&a) {
        a.checked_sub(b)
    } else {
        b.checked_sub(a)
    }
}

fn fallback_before_exec(
    left: &TargetCandidate,
    left_memory: DecimalValue,
    right: &TargetCandidate,
    right_memory: DecimalValue,
    request: TargetSelectionRequest,
    cpu_exceeded: bool,
    memory_exceeded: bool,
) -> (r: bool)
    ensures
        r == fallback_before(
            fallback_key(*left, left_memory, request, cpu_exceeded, memory_exceeded),
            fallback_key(*right, right_memory, request, cpu_exceeded, memory_exceeded),
        ),
{
    if cpu_exceeded && left.vcores != right.vcores {
        return left.vcores > right.vcores;
    }
    if memory_exceeded {
        let order = left_memory.compare(&right_memory);
        if order != 0 {
            return order == 1;
        }
    }
    let left_gap = if left.vcores >= request.source_vcpu { left.vcores - request.source_vcpu } else { request.source_vcpu - left.vcores };
    let right_gap = if right.vcores >= request.source_vcpu { right.vcores - request.source_vcpu } else { request.source_vcpu - right.vcores };
    if left_gap != right_gap {
        return left_gap < right_gap;
    }
    let order = option_order(
        decimal_distance(left_memory, request.source_memory_gb),
        decimal_distance(right_memory, request.source_memory_gb),
    );
    if order != 0 {
        return order == -1;
    }
    bytes_order(left.configuration_key.as_str().as_bytes(), right.configuration_key.as_str().as_bytes()) == -1
}

/// The capacity-limited stand-in, when the source outgrows every candidate of the tier.
fn closest_capacity_candidate(
    catalog: &CapabilityCatalog,
    request: TargetSelectionRequest,
    tier: ServiceTier,
    enforce_storage: bool,
) -> (r: Option<EligibleCandidate>)
    ensures
        match closest_capacity(catalog.candidates@, request, tier, enforce_storage) {
            Some((i, m)) => r is Some && r.unwrap().index == i && r.unwrap().selected_memory_gb == m,
            None => r is None,
        },
{
    let ghost cands = catalog.candidates@;
    let (max_vcores, max_memory) = capacity_maxima(catalog, request, tier);
    let (max_vcores, max_memory) = match (max_vcores, max_memory) {
        (Some(v), Some(m)) => (v, m),
        _ => {
            return None;
        },
    };
    let cpu_exceeded = request.source_vcpu > max_vcores;
    let memory_exceeded = max_memory.lt(&request.source_memory_gb);
    if !cpu_exceeded && !memory_exceeded {
        return None;
    }
    let mut best: Option<EligibleCandidate> = None;
    let mut i: usize = 0;
    assert(cands.subrange(0, 0) =~= Seq::<TargetCandidate>::empty());
    while i < catalog.candidates.len()
        invariant
            cands == catalog.candidates@,
            i <= cands.len(),
            match best_fallback(cands.subrange(0, i as int), request, tier, enforce_storage, cpu_exceeded, memory_exceeded) {
                Some(k) => best is Some && best.unwrap().index == k && k < i
                    && Some(best.unwrap().selected_memory_gb) == pool_choice(cands[k], request, tier),
                None => best is None,
            },
        decreases cands.len() - i,
    {
        let candidate = &catalog.candidates[i];
        let ghost prefix = cands.subrange(0, i + 1);
        assert(prefix.drop_last() =~= cands.subrange(0, i as int));
        assert(prefix.last() == cands[i as int]);
        proof {
            let prev = best_fallback(cands.subrange(0, i as int), request, tier, enforce_storage, cpu_exceeded, memory_exceeded);
            if prev is Some {
                assert(prefix[prev.unwrap()] == cands[prev.unwrap()]);
            }
        }
        match pool_choice_exec(candidate, request, tier) {
            Some(m) => {
                let room = !(enforce_storage && storage_below_exec(candidate.maximum_storage_gb, request.required_storage_gb));
                if room {
                    let replace = match best {
                        Some(b) => fallback_before_exec(
                            candidate,
                            m,
                            &catalog.candidates[b.index],
                            b.selected_memory_gb,
                            request,
                            cpu_exceeded,
                            memory_exceeded,
                        ),
                        None => true,
                    };
                    if replace {
                        best = Some(EligibleCandidate { index: i, selected_memory_gb: m });
                    }
                }
            },
            None => {},
        }
        i = i + 1;
    }
    assert(cands.subrange(0, cands.len() as int) =~= cands);
    best
}

/// The target reported for a candidate with its chosen memory.
pub fn selected_target(candidate: &TargetCandidate, selected_memory_gb: DecimalValue) -> (r: SelectedTarget)
    requires
        decimal_sub(selected_memory_gb, candidate.included_memory_gb) is Some,
    ensures
        selected_target_of(r, *candidate, selected_memory_gb),
{
    let extra = selected_memory_gb.checked_sub(candidate.included_memory_gb).unwrap();
    SelectedTarget {
        configuration_key: candidate.configuration_key.clone(),
        azure_region: candidate.azure_region.clone(),
        service_tier: candidate.service_tier,
        hardware_family: candidate.hardware_family.clone(),
        vcores: candidate.vcores,
        zone_redundant: candidate.zone_redundant,
        included_memory_gb: candidate.included_memory_gb,
        selected_memory_gb,
        additional_memory_gb: extra.max(DecimalValue::zero()),
        storage_architecture: candidate.storage_architecture.clone(),
        maximum_storage_gb: candidate.maximum_storage_gb,
    }
}

fn storage_escalation(
    catalog: &CapabilityCatalog,
    without_storage: Option<EligibleCandidate>,
    with_storage: Option<EligibleCandidate>,
    request: TargetSelectionRequest,
    tier: ServiceTier,
) -> (r: Option<StorageEscalation>)
    requires
        match best_eligible(catalog.candidates@, request, tier, false) {
            Some(i) => without_storage is Some && without_storage.unwrap().index == i,
            None => without_storage is None,
        },
        match best_eligible(catalog.candidates@, request, tier, true) {
            Some(i) => with_storage is Some && with_storage.unwrap().index == i,
            None => with_storage is None,
        },
        without_storage is Some ==> without_storage.unwrap().index < catalog.candidates@.len(),
        with_storage is Some ==> with_storage.unwrap().index < catalog.candidates@.len(),
    ensures
        match spec_storage_escalation(catalog.candidates@, request, tier) {
            Some((p, m, s)) => r is Some && r.unwrap().rejected_configuration_key@ == catalog.candidates@[p].configuration_key@
                && r.unwrap().rejected_maximum_storage_gb == m
                && r.unwrap().selected_configuration_key@ == catalog.candidates@[s].configuration_key@,
            None => r is None,
        },
{
    let preferred = match without_storage {
        Some(p) => &catalog.candidates[p.index],
        None => {
            return None;
        },
    };
    let selected = match with_storage {
        Some(s) => &catalog.candidates[s.index],
        None => {
            return None;
        },
    };
    if preferred.configuration_key == selected.configuration_key {
        return None;
    }
    let maximum = match preferred.maximum_storage_gb {
        Some(m) => m,
        None => {
            return None;
        },
    };
    if request.required_storage_gb.le(&maximum) {
        return None;
    }
    Some(StorageEscalation {
        rejected_configuration_key: preferred.configuration_key.clone(),
        rejected_maximum_storage_gb: maximum,
        selected_configuration_key: selected.configuration_key.clone(),
    })
}

fn evaluation_before_exec(a: &CandidateEvaluation, b: &CandidateEvaluation) -> (r: bool)
    ensures
        r == evaluation_before(a@, b@),
{
    if a.eligible != b.eligible {
        return a.eligible;
    }
    if a.vcores != b.vcores {
        return a.vcores < b.vcores;
    }
    bytes_order(a.configuration_key.as_str().as_bytes(), b.configuration_key.as_str().as_bytes()) == -1
}

proof fn lemma_insert_position_skip(s: Seq<EvaluationView>, x: EvaluationView, p: int)
    requires
        0 <= p <= s.len(),
        forall|j: int| 0 <= j < p ==> !evaluation_before(x, #[trigger] s[j]),
    ensures
        insert_position(s, x) == p + insert_position(s.subrange(p, s.len() as int), x),
    decreases p,
{
    if p > 0 {
        let rest = s.drop_first();
        assert forall|j: int| 0 <= j < p - 1 implies !evaluation_before(x, #[trigger] rest[j]) by {
            assert(rest[j] == s[j + 1]);
        }
        lemma_insert_position_skip(rest, x, p - 1);
        assert(rest.subrange(p - 1, rest.len() as int) =~= s.subrange(p, s.len() as int));
        assert(!evaluation_before(x, s[0]));
    } else {
        assert(s.subrange(0, s.len() as int) =~= s);
    }
}

/// Inserts `x` where a stable sort by `evaluation_before` puts it.
fn insert_evaluation(sorted: &mut Vec<CandidateEvaluation>, x: CandidateEvaluation)
    ensures
        evaluation_views(final(sorted)@) == evaluation_views(old(sorted)@).insert(
            insert_position(evaluation_views(old(sorted)@), x@),
            x@,
        ),
{
    let ghost views = evaluation_views(sorted@);
    let mut p: usize = 0;
    while p < sorted.len() && !evaluation_before_exec(&x, &sorted[p])
        invariant
            p <= sorted@.len(),
            views == evaluation_views(sorted@),
            forall|j: int| 0 <= j < p ==> !evaluation_before(x@, #[trigger] views[j]),
        decreases sorted@.len() - p,
    {
        assert(views[p as int] == sorted@[p as int]@);
        p = p + 1;
    }
    proof {
        lemma_insert_position_skip(views, x@, p as int);
        let tail = views.subrange(p as int, views.len() as int);
        if p < sorted@.len() {
            assert(views[p as int] == sorted@[p as int]@);
            assert(tail[0] == views[p as int]);
        }
        assert(insert_position(tail, x@) == 0);
    }
    let ghost x_view = x@;
    sorted.insert(p, x);
    assert(evaluation_views(sorted@) =~= views.insert(p as int, x_view));
}

/// The evaluations of the candidates of the requested region and tier, eligible
/// first, then by vCores and configuration key.
fn candidate_evaluations(
    catalog: &CapabilityCatalog,
    request: TargetSelectionRequest,
    tier: ServiceTier,
) -> (r: Vec<CandidateEvaluation>)
    ensures
        evaluation_views(r@) == sorted_evaluations(scoped_evaluations(catalog.candidates@, request, tier)),
{
    let ghost cands = catalog.candidates@;
    let mut sorted: Vec<CandidateEvaluation> = Vec::new();
    let mut i: usize = 0;
    assert(cands.subrange(0, 0) =~= Seq::<TargetCandidate>::empty());
    assert(evaluation_views(sorted@) =~= seq![]);
    while i < catalog.candidates.len()
        invariant
            cands == catalog.candidates@,
            i <= cands.len(),
            evaluation_views(sorted@) == sorted_evaluations(scoped_evaluations(cands.subrange(0, i as int), request, tier)),
        decreases cands.len() - i,
    {
        let candidate = &catalog.candidates[i];
        let ghost prefix = cands.subrange(0, i + 1);
        assert(prefix.drop_last() =~= cands.subrange(0, i as int));
        assert(prefix.last() == cands[i as int]);
        if text_equals(candidate.azure_region.as_str(), request.azure_region) && candidate.service_tier == tier {
            let (selected_memory_gb, rejection_reasons) = evaluate_candidate(candidate, request, tier, true);
            let evaluation = CandidateEvaluation {
                configuration_key: candidate.configuration_key.clone(),
                vcores: candidate.vcores,
                selected_memory_gb,
                eligible: rejection_reasons.len() == 0,
                rejection_reasons,
            };
            assert(evaluation@ == evaluation_entry(*candidate, request, tier));
            let ghost scoped = scoped_evaluations(prefix, request, tier);
            assert(scoped.drop_last() =~= scoped_evaluations(cands.subrange(0, i as int), request, tier));
            insert_evaluation(&mut sorted, evaluation);
        }
        i = i + 1;
    }
    assert(cands.subrange(0, cands.len() as int) =~= cands);
    sorted
}

fn service_tier_label(tier: ServiceTier) -> (r: &'static str)
    ensures
        r@ == tier_label(tier),
{
    match tier {
        ServiceTier::NextGenerationGeneralPurpose => "Next-generation General Purpose",
        ServiceTier::BusinessCritical => "Business Critical",
    }
}

fn capacity_fallback_reasons(
    request: TargetSelectionRequest,
    candidate: &TargetCandidate,
    selected_memory_gb: DecimalValue,
) -> (r: Vec<SelectionReason>)
    ensures
        reason_views(r@) == spec_fallback_reasons(request, *candidate, selected_memory_gb),
{
    let mut reasons: Vec<SelectionReason> = Vec::new();
    assert(reason_views(reasons@) =~= seq![]);
    let tier = service_tier_label(candidate.service_tier);
    if candidate.vcores < request.source_vcpu {
        let detail = join_text(
            "Azure SQL Managed Instance does not offer the source requirement of ",
            u32_text(request.source_vcpu).as_str(),
        );
        let detail = join_text(detail.as_str(), " vCores in the ");
        let detail = join_text(detail.as_str(), tier);
        let detail = join_text(detail.as_str(), " tier on ");
        let detail = join_text(detail.as_str(), candidate.hardware_family.as_str());
        let detail = join_text(detail.as_str(), " hardware. The closest available configuration provides ");
        let detail = join_text(detail.as_str(), u32_text(candidate.vcores).as_str());
        let detail = join_text(
            detail.as_str(),
            " vCores; this capacity-limited match has been applied and requires workload validation.",
        );
        push_reason_if(&mut reasons, true, SelectionReasonCode::InsufficientVcores, detail.as_str());
    }
    let ghost first = reason_views(reasons@);
    assert(first =~= reason_if(
        candidate.vcores < request.source_vcpu,
        SelectionReasonCode::InsufficientVcores,
        fallback_vcores_detail(request, *candidate),
    ));
    if selected_memory_gb.lt(&request.source_memory_gb) {
        let detail = join_text(
            "Azure SQL Managed Instance does not offer the source requirement of ",
            request.source_memory_gb.to_string().as_str(),
        );
        let detail = join_text(detail.as_str(), " GB memory in the ");
        let detail = join_text(detail.as_str(), tier);
        let detail = join_text(detail.as_str(), " tier on ");
        let detail = join_text(detail.as_str(), candidate.hardware_family.as_str());
        let detail = join_text(detail.as_str(), " hardware. The closest available configuration provides ");
        let detail = join_text(detail.as_str(), selected_memory_gb.to_string().as_str());
        let detail = join_text(
            detail.as_str(),
            " GB; this capacity-limited match has been applied and requires workload validation.",
        );
        push_reason_if(&mut reasons, true, SelectionReasonCode::InsufficientMemory, detail.as_str());
    }
    assert(reason_views(reasons@) =~= first + reason_if(
        selected_memory_gb.units() < request.source_memory_gb.units(),
        SelectionReasonCode::InsufficientMemory,
        fallback_memory_detail(request, *candidate, selected_memory_gb),
    ));
    reasons
}

fn outcome_reasons(
    catalog: &CapabilityCatalog,
    request: TargetSelectionRequest,
    tier: ServiceTier,
    any_eligible: bool,
) -> (r: Vec<SelectionReason>)
    ensures
        reason_views(r@) == spec_outcome_reasons(catalog.candidates@, request, tier, any_eligible),
{
    let ghost cands = catalog.candidates@;
    if any_eligible {
        let r: Vec<SelectionReason> = Vec::new();
        assert(reason_views(r@) =~= seq![]);
        return r;
    }
    let mut region_found = false;
    let mut tier_found = false;
    let mut i: usize = 0;
    while i < catalog.candidates.len()
        invariant
            cands == catalog.candidates@,
            i <= cands.len(),
            region_found <==> exists|j: int| 0 <= j < i && (#[trigger] cands[j]).azure_region@ == request.azure_region@,
            tier_found <==> exists|j: int| 0 <= j < i && in_scope(#[trigger] cands[j], request.azure_region@, tier),
        decreases cands.len() - i,
    {
        let candidate = &catalog.candidates[i];
        if text_equals(candidate.azure_region.as_str(), request.azure_region) {
            region_found = true;
            if candidate.service_tier == tier {
                tier_found = true;
            }
        }
        i = i + 1;
    }
    let mut reasons: Vec<SelectionReason> = Vec::new();
    if !region_found {
        let detail = join_text("The capability catalog has no candidates in ", request.azure_region);
        let detail = join_text(detail.as_str(), ".");
        reasons.push(reason(SelectionReasonCode::RegionUnavailable, detail.as_str()));
    } else if !tier_found {
        reasons.push(reason(SelectionReasonCode::TierUnavailable, TIER_UNAVAILABLE_DETAIL));
    }
    assert(reason_views(reasons@) =~= spec_outcome_reasons(cands, request, tier, any_eligible));
    reasons
}

fn validate_request(request: TargetSelectionRequest) -> (r: Result<(), TargetSelectionError>)
    ensures
        match spec_request_error(request) {
            Some(e) => r == Err::<(), TargetSelectionError>(e),
            None => r is Ok,
        },
{
    if request.source_vcpu == 0 {
        return Err(TargetSelectionError::InvalidSourceVcpu);
    }
    let zero = DecimalValue::zero();
    if request.source_memory_gb.le(&zero) {
        return Err(TargetSelectionError::InvalidSourceMemory);
    }
    if request.required_storage_gb.lt(&zero) {
        return Err(TargetSelectionError::InvalidRequiredStorage);
    }
    Ok(())
}

/// What a selection reports for a request: the IOPS limit and requested tier,
/// the chosen candidate and memory, the mapping status, the evaluations of the
/// candidates in scope, the outcome reasons and the storage escalation.
pub open spec fn selection_matches(selection: TargetSelection, cands: Seq<TargetCandidate>, request: TargetSelectionRequest) -> bool {
    let tier = spec_requested_tier(cands, request);
    &&& selection.nggp_iops_limit == spec_iops_limit(cands, request)
    &&& selection.requested_tier == tier
    &&& match spec_choice(cands, request, tier) {
        Some((i, m)) => selection.selected is Some && selected_target_of(selection.selected.unwrap(), cands[i], m),
        None => selection.selected is None,
    }
    &&& (selection.mapping_status == MappingStatus::Mapped <==> selection.selected is Some)
    &&& evaluation_views(selection.candidates@) == sorted_evaluations(scoped_evaluations(cands, request, tier))
    &&& reason_views(selection.outcome_reasons@) == spec_selection_reasons(cands, request, tier)
    &&& match spec_storage_escalation(cands, request, tier) {
        Some((p, m, s)) => selection.storage_escalation is Some
            && selection.storage_escalation.unwrap().rejected_configuration_key@ == cands[p].configuration_key@
            && selection.storage_escalation.unwrap().rejected_maximum_storage_gb == m
            && selection.storage_escalation.unwrap().selected_configuration_key@ == cands[s].configuration_key@,
        None => selection.storage_escalation is None,
    }
}

/// When some candidate of the requested tier is eligible with room for the
/// storage, the selection maps the source to one of them: in scope, covering
/// the vCores, the memory and the storage, and ranked first, so that no
/// eligible candidate ranks before it (by relative vCore overage, relative
/// memory overage, tier, vCores, then configuration key); its memory is the
/// smallest supported size that covers the source.
pub proof fn lemma_selection_picks_best_eligible(selection: TargetSelection, cands: Seq<TargetCandidate>, req: TargetSelectionRequest)
    requires
        selection_matches(selection, cands, req),
        best_eligible(cands, req, spec_requested_tier(cands, req), true) is Some,
    ensures
        ({
            let tier = spec_requested_tier(cands, req);
            let i = best_eligible(cands, req, tier, true).unwrap();
            &&& selection.mapping_status == MappingStatus::Mapped
            &&& selection.selected is Some
            &&& selected_target_of(selection.selected.unwrap(), cands[i], spec_evaluation(cands[i], req, tier, true).0.unwrap())
            &&& eligible(cands[i], req, tier, true)
            &&& spec_evaluation(cands[i], req, tier, true).0 == smallest_at_least(cands[i].supported_memory_gb@, req.source_memory_gb)
            &&& forall|j: int|
                0 <= j < cands.len() && eligible(#[trigger] cands[j], req, tier, true) ==> !key_before(
                    candidate_key(cands[j], req, tier, true),
                    candidate_key(cands[i], req, tier, true),
                )
        }),
{
    let tier = spec_requested_tier(cands, req);
    lemma_best_eligible(cands, req, tier, true);
}

/// The IOPS limit of a Next-generation General Purpose target is 1,600 IOPS per
/// vCore of the threshold (the vCores of the best such candidate, storage aside,
/// or the source's vCPUs when there is none), never more than 80,000; the source
/// asks for Next-generation General Purpose exactly when its IOPS are within that
/// limit, so a source above 80,000 IOPS always asks for Business Critical.
pub proof fn lemma_iops_limit(selection: TargetSelection, cands: Seq<TargetCandidate>, req: TargetSelectionRequest)
    requires
        selection_matches(selection, cands, req),
    ensures
        ({
            let threshold = match best_eligible(cands, req, ServiceTier::NextGenerationGeneralPurpose, false) {
                Some(i) => cands[i].vcores as int,
                None => req.source_vcpu as int,
            };
            &&& selection.nggp_iops_limit <= 80_000
            &&& selection.nggp_iops_limit <= threshold * 1600
            &&& (selection.nggp_iops_limit == threshold * 1600 || selection.nggp_iops_limit == 80_000)
        }),
        selection.requested_tier == ServiceTier::NextGenerationGeneralPurpose <==> req.source_max_iops
            <= selection.nggp_iops_limit,
        selection.requested_tier == ServiceTier::NextGenerationGeneralPurpose || selection.requested_tier
            == ServiceTier::BusinessCritical,
        req.source_max_iops > 80_000 ==> selection.requested_tier == ServiceTier::BusinessCritical,
{
}

/// What makes a candidate eligible for a source under a tier, field by field:
/// it is in the source's Azure region and of that tier, not zone-redundant, of a
/// Premium Series hardware family when workbook parity asks for one on Next-
/// generation General Purpose, with at least the source's vCPUs, with some
/// supported memory size that covers the source's memory, and, where storage
/// counts, without a storage maximum below the required storage.
pub proof fn lemma_eligible_fields(
    c: TargetCandidate,
    req: TargetSelectionRequest,
    tier: ServiceTier,
    enforce_storage: bool,
)
    ensures
        eligible(c, req, tier, enforce_storage) <==> {
            &&& c.azure_region@ == req.azure_region@
            &&& c.service_tier == tier
            &&& !c.zone_redundant
            &&& (req.workbook_parity_mode && tier == ServiceTier::NextGenerationGeneralPurpose) ==> (
            c.hardware_family@ == PREMIUM_SERIES@ || c.hardware_family@ == PREMIUM_SERIES_MEMORY_OPTIMIZED@)
            &&& c.vcores >= req.source_vcpu
            &&& exists|k: int|
                0 <= k < c.supported_memory_gb@.len() && (#[trigger] c.supported_memory_gb@[k]).units()
                    >= req.source_memory_gb.units()
            &&& enforce_storage ==> !(c.maximum_storage_gb matches Some(m) && m.units()
                < req.required_storage_gb.units())
        },
{
    lemma_smallest_at_least(c.supported_memory_gb@, req.source_memory_gb);
    if c.azure_region@ == req.azure_region@ && c.service_tier == tier {
        let memory = smallest_at_least(c.supported_memory_gb@, req.source_memory_gb);
        if memory is Some {
            let v = memory.unwrap();
            let k = choose|k: int| 0 <= k < c.supported_memory_gb@.len() && c.supported_memory_gb@[k] == v;
            assert(c.supported_memory_gb@[k].units() >= req.source_memory_gb.units());
        }
    }
}

/// The relative overage `(x - base) / base` in units, as the decimal type computes it.
pub open spec fn relative_overage(x: DecimalValue, base: DecimalValue) -> Option<int> {
    match decimal_sub(x, base) {
        Some(d) => match decimal_div(d, base) {
            Some(q) => Some(q.units()),
            None => None,
        },
        None => None,
    }
}

/// How the best eligible candidate ranks against every other eligible one: its
/// relative vCore overage over the source is the least (a known overage before
/// an unknown one); at an equal vCore overage its relative memory overage is the
/// least; at equal overages it has the fewest vCores; and at equal vCores too its
/// configuration key comes first. Each candidate is sized with the smallest
/// supported memory that covers the source.
pub proof fn lemma_best_ranks_first(
    cands: Seq<TargetCandidate>,
    req: TargetSelectionRequest,
    tier: ServiceTier,
    enforce_storage: bool,
    j: int,
)
    requires
        best_eligible(cands, req, tier, enforce_storage) is Some,
        0 <= j < cands.len(),
        eligible(cands[j], req, tier, enforce_storage),
    ensures
        ({
            let i = best_eligible(cands, req, tier, enforce_storage).unwrap();
            let source_vcpu = DecimalValue::integer_value(req.source_vcpu as int);
            let vi = relative_overage(DecimalValue::integer_value(cands[i].vcores as int), source_vcpu);
            let vj = relative_overage(DecimalValue::integer_value(cands[j].vcores as int), source_vcpu);
            let mi = relative_overage(
                smallest_at_least(cands[i].supported_memory_gb@, req.source_memory_gb).unwrap(),
                req.source_memory_gb,
            );
            let mj = relative_overage(
                smallest_at_least(cands[j].supported_memory_gb@, req.source_memory_gb).unwrap(),
                req.source_memory_gb,
            );
            &&& vj is Some ==> (vi is Some && vi.unwrap() <= vj.unwrap())
            &&& (vi == vj && mj is Some) ==> (mi is Some && mi.unwrap() <= mj.unwrap())
            &&& (vi == vj && mi == mj) ==> cands[i].vcores <= cands[j].vcores
            &&& (vi == vj && mi == mj && cands[i].vcores == cands[j].vcores) ==> !lex_less(
                encode_utf8(cands[j].configuration_key@),
                encode_utf8(cands[i].configuration_key@),
            )
        }),
{
    lemma_best_eligible(cands, req, tier, enforce_storage);
    let i = best_eligible(cands, req, tier, enforce_storage).unwrap();
    assert(!key_before(
        candidate_key(cands[j], req, tier, enforce_storage),
        candidate_key(cands[i], req, tier, enforce_storage),
    ));
    assert(cands[i].service_tier == tier && cands[j].service_tier == tier);
}

/// The fallback key of a stand-in candidate, sized with its stand-in memory.
pub open spec fn stand_in_key(
    c: TargetCandidate,
    req: TargetSelectionRequest,
    tier: ServiceTier,
    cpu_exceeded: bool,
    memory_exceeded: bool,
) -> FallbackKey {
    fallback_key(c, pool_choice(c, req, tier).unwrap(), req, cpu_exceeded, memory_exceeded)
}

proof fn lemma_fallback_before_transitive(a: FallbackKey, b: FallbackKey, c: FallbackKey)
    requires
        fallback_before(a, b),
        fallback_before(b, c),
    ensures
        fallback_before(a, c),
{
    if a.0 == b.0 && a.1 == b.1 && a.2 == b.2 && a.3 == b.3 && b.0 == c.0 && b.1 == c.1 && b.2 == c.2 && b.3 == c.3 {
        lemma_lex_less_transitive(a.4, b.4, c.4);
    }
}

proof fn lemma_fallback_before_irreflexive(a: FallbackKey)
    ensures
        !fallback_before(a, a),
{
    if lex_less(a.4, a.4) {
        lemma_lex_less_asymmetric(a.4, a.4);
    }
}

/// The stand-in chosen ranks first among all stand-ins with room for the storage.
proof fn lemma_best_fallback_least(
    cands: Seq<TargetCandidate>,
    req: TargetSelectionRequest,
    tier: ServiceTier,
    enforce_storage: bool,
    ce: bool,
    me: bool,
)
    ensures
        best_fallback(cands, req, tier, enforce_storage, ce, me) matches Some(i) ==> {
            &&& 0 <= i < cands.len()
            &&& fallback_ok(cands[i], req, tier, enforce_storage)
            &&& forall|j: int|
                0 <= j < cands.len() && fallback_ok(#[trigger] cands[j], req, tier, enforce_storage) ==> !fallback_before(
                    stand_in_key(cands[j], req, tier, ce, me),
                    stand_in_key(cands[i], req, tier, ce, me),
                )
        },
        best_fallback(cands, req, tier, enforce_storage, ce, me) is None ==> forall|j: int|
            0 <= j < cands.len() ==> !fallback_ok(#[trigger] cands[j], req, tier, enforce_storage),
    decreases cands.len(),
{
    if cands.len() > 0 {
        let rest = cands.drop_last();
        lemma_best_fallback_least(rest, req, tier, enforce_storage, ce, me);
        assert forall|j: int| 0 <= j < rest.len() implies rest[j] == cands[j] by {}
        let n = cands.len() - 1;
        assert(cands[n] == cands.last());
        let best = best_fallback(rest, req, tier, enforce_storage, ce, me);
        let result = best_fallback(cands, req, tier, enforce_storage, ce, me);
        if best is Some && result == best {
            let b = best.unwrap();
            assert forall|j: int|
                0 <= j < cands.len() && fallback_ok(#[trigger] cands[j], req, tier, enforce_storage) implies !fallback_before(
                stand_in_key(cands[j], req, tier, ce, me),
                stand_in_key(cands[b], req, tier, ce, me),
            ) by {
                if j < n {
                    assert(rest[j] == cands[j]);
                }
            }
        } else if result is Some {
            assert forall|j: int|
                0 <= j < cands.len() && fallback_ok(#[trigger] cands[j], req, tier, enforce_storage) implies !fallback_before(
                stand_in_key(cands[j], req, tier, ce, me),
                stand_in_key(cands[n], req, tier, ce, me),
            ) by {
                if j < n {
                    assert(rest[j] == cands[j]);
                    if best is Some {
                        let b = best.unwrap();
                        if fallback_before(stand_in_key(cands[j], req, tier, ce, me), stand_in_key(cands[n], req, tier, ce, me)) {
                            lemma_fallback_before_transitive(
                                stand_in_key(cands[j], req, tier, ce, me),
                                stand_in_key(cands[n], req, tier, ce, me),
                                stand_in_key(cands[b], req, tier, ce, me),
                            );
                        }
                    }
                } else {
                    lemma_fallback_before_irreflexive(stand_in_key(cands[n], req, tier, ce, me));
                }
            }
        }
    }
}

/// The most vCores and the most memory among the stand-ins bound every stand-in,
/// and there are none only when there is no stand-in.
proof fn lemma_pool_maxima(cands: Seq<TargetCandidate>, req: TargetSelectionRequest, tier: ServiceTier)
    ensures
        pool_max_vcores(cands, req, tier) is None ==> forall|k: int|
            0 <= k < cands.len() ==> pool_choice(#[trigger] cands[k], req, tier) is None,
        pool_max_vcores(cands, req, tier) matches Some(mx) ==> (forall|k: int|
            0 <= k < cands.len() && pool_choice(#[trigger] cands[k], req, tier) is Some ==> cands[k].vcores <= mx)
            && exists|k: int|
            0 <= k < cands.len() && pool_choice(#[trigger] cands[k], req, tier) is Some && cands[k].vcores == mx,
        pool_max_memory(cands, req, tier) is None <==> pool_max_vcores(cands, req, tier) is None,
        pool_max_memory(cands, req, tier) matches Some(mx) ==> (forall|k: int|
            0 <= k < cands.len() && pool_choice(#[trigger] cands[k], req, tier) is Some ==> pool_choice(
                cands[k],
                req,
                tier,
            ).unwrap().units() <= mx) && exists|k: int|
            0 <= k < cands.len() && pool_choice(#[trigger] cands[k], req, tier) is Some && pool_choice(
                cands[k],
                req,
                tier,
            ).unwrap().units() == mx,
    decreases cands.len(),
{
    if cands.len() > 0 {
        let rest = cands.drop_last();
        lemma_pool_maxima(rest, req, tier);
        assert forall|j: int| 0 <= j < rest.len() implies rest[j] == cands[j] by {}
        let n = cands.len() - 1;
        assert(cands[n] == cands.last());
        if pool_max_vcores(rest, req, tier) is Some {
            let k = choose|k: int|
                0 <= k < rest.len() && pool_choice(#[trigger] rest[k], req, tier) is Some && rest[k].vcores
                    == pool_max_vcores(rest, req, tier).unwrap();
            assert(pool_choice(cands[k], req, tier) is Some);
        }
        if pool_max_memory(rest, req, tier) is Some {
            let k = choose|k: int|
                0 <= k < rest.len() && pool_choice(#[trigger] rest[k], req, tier) is Some && pool_choice(
                    rest[k],
                    req,
                    tier,
                ).unwrap().units() == pool_max_memory(rest, req, tier).unwrap();
            assert(pool_choice(cands[k], req, tier) is Some);
        }
    }
}

/// The capacity-limited stand-in is chosen only when the source outgrows every
/// stand-in of the tier in vCores or in memory. When it outgrows them all in
/// vCores, the stand-in has the most vCores of any stand-in with room for the
/// storage; when it outgrows them all in memory, the stand-in's memory is the
/// most of any such stand-in (among those of as many vCores, when the vCores are
/// outgrown too); its memory is one of its supported sizes.
pub proof fn lemma_closest_capacity_ranks(
    cands: Seq<TargetCandidate>,
    req: TargetSelectionRequest,
    tier: ServiceTier,
    enforce_storage: bool,
    j: int,
)
    requires
        closest_capacity(cands, req, tier, enforce_storage) is Some,
        0 <= j < cands.len(),
        fallback_ok(cands[j], req, tier, enforce_storage),
    ensures
        ({
            let (i, m) = closest_capacity(cands, req, tier, enforce_storage).unwrap();
            let cpu_outgrown = forall|k: int|
                0 <= k < cands.len() && pool_choice(#[trigger] cands[k], req, tier) is Some ==> cands[k].vcores
                    < req.source_vcpu;
            let memory_outgrown = forall|k: int|
                0 <= k < cands.len() && pool_choice(#[trigger] cands[k], req, tier) is Some ==> pool_choice(
                    cands[k],
                    req,
                    tier,
                ).unwrap().units() < req.source_memory_gb.units();
            &&& cpu_outgrown || memory_outgrown
            &&& 0 <= i < cands.len()
            &&& cands[i].supported_memory_gb@.contains(m)
            &&& m == pool_choice(cands[i], req, tier).unwrap()
            &&& cpu_outgrown ==> cands[j].vcores <= cands[i].vcores
            &&& (memory_outgrown && (!cpu_outgrown || cands[j].vcores == cands[i].vcores)) ==> pool_choice(
                cands[j],
                req,
                tier,
            ).unwrap().units() <= m.units()
        }),
{
    lemma_pool_maxima(cands, req, tier);
    lemma_closest_capacity_member(cands, req, tier, enforce_storage);
    let mx_v = pool_max_vcores(cands, req, tier).unwrap();
    let mx_m = pool_max_memory(cands, req, tier).unwrap();
    let ce = req.source_vcpu > mx_v;
    let me = req.source_memory_gb.units() > mx_m;
    lemma_best_fallback_least(cands, req, tier, enforce_storage, ce, me);
    let i = best_fallback(cands, req, tier, enforce_storage, ce, me).unwrap();
    assert(!fallback_before(stand_in_key(cands[j], req, tier, ce, me), stand_in_key(cands[i], req, tier, ce, me)));
    let cpu_outgrown = forall|k: int|
        0 <= k < cands.len() && pool_choice(#[trigger] cands[k], req, tier) is Some ==> cands[k].vcores
            < req.source_vcpu;
    let memory_outgrown = forall|k: int|
        0 <= k < cands.len() && pool_choice(#[trigger] cands[k], req, tier) is Some ==> pool_choice(
            cands[k],
            req,
            tier,
        ).unwrap().units() < req.source_memory_gb.units();
    let kv = choose|k: int|
        0 <= k < cands.len() && pool_choice(#[trigger] cands[k], req, tier) is Some && cands[k].vcores == mx_v;
    let km = choose|k: int|
        0 <= k < cands.len() && pool_choice(#[trigger] cands[k], req, tier) is Some && pool_choice(
            cands[k],
            req,
            tier,
        ).unwrap().units() == mx_m;
    assert(cpu_outgrown <==> ce);
    assert(memory_outgrown <==> me);
}

/// A storage escalation is reported exactly when the best candidate of the tier,
/// storage aside, cannot hold the required storage (its maximum is below it)
/// and another configuration, the best with room for the storage, is chosen
/// instead; it names the rejected candidate's maximum.
pub proof fn lemma_storage_escalation(cands: Seq<TargetCandidate>, req: TargetSelectionRequest, tier: ServiceTier)
    ensures
        spec_storage_escalation(cands, req, tier) matches Some((p, m, s)) ==> {
            &&& best_eligible(cands, req, tier, false) == Some(p)
            &&& best_eligible(cands, req, tier, true) == Some(s)
            &&& cands[p].maximum_storage_gb == Some(m)
            &&& m.units() < req.required_storage_gb.units()
            &&& !eligible(cands[p], req, tier, true)
            &&& eligible(cands[s], req, tier, true)
            &&& cands[p].configuration_key@ != cands[s].configuration_key@
        },
        spec_storage_escalation(cands, req, tier) is None ==> (best_eligible(cands, req, tier, false) is None
            || best_eligible(cands, req, tier, true) is None || cands[best_eligible(
            cands,
            req,
            tier,
            false,
        ).unwrap()].configuration_key@ == cands[best_eligible(cands, req, tier, true).unwrap()].configuration_key@
            || !(cands[best_eligible(cands, req, tier, false).unwrap()].maximum_storage_gb matches Some(m)
            && m.units() < req.required_storage_gb.units())),
{
    lemma_best_eligible(cands, req, tier, false);
    lemma_best_eligible(cands, req, tier, true);
    if spec_storage_escalation(cands, req, tier) is Some {
        let p = best_eligible(cands, req, tier, false).unwrap();
        lemma_eligible_fields(cands[p], req, tier, true);
    }
}

/// Chooses the managed-instance target for a source workload: the tier by IOPS,
/// then the best eligible candidate of that tier with room for the storage, or,
/// when the source outgrows every candidate of the tier, the closest stand-in.
pub fn select_target(
    catalog: &CapabilityCatalog,
    request: TargetSelectionRequest,
) -> (r: Result<TargetSelection, TargetSelectionError>)
    requires
        spec_request_error(request) is None ==> chosen_memory_difference_fits(catalog.candidates@, request),
    ensures
        match spec_request_error(request) {
            Some(e) => r == Err::<TargetSelection, TargetSelectionError>(e),
            None => r is Ok,
        },
        r matches Ok(selection) ==> selection_matches(selection, catalog.candidates@, request),
{
    select_target_checked(catalog, request).unwrap()
}

/// The target selection of a request; `None` where the decimal type cannot
/// compute the additional memory of the chosen candidate.
pub fn select_target_checked(
    catalog: &CapabilityCatalog,
    request: TargetSelectionRequest,
) -> (r: Option<Result<TargetSelection, TargetSelectionError>>)
    ensures
        match spec_request_error(request) {
            Some(e) => r == Some(Err::<TargetSelection, TargetSelectionError>(e)),
            None => (r is None <==> !chosen_memory_difference_defined(catalog.candidates@, request)) && (
            chosen_memory_difference_fits(catalog.candidates@, request) ==> r is Some) && (r is Some ==> r.unwrap() is Ok),
        },
        r matches Some(Ok(selection)) ==> selection_matches(selection, catalog.candidates@, request),
{
    let ghost cands = catalog.candidates@;
    match validate_request(request) {
        Ok(()) => {},
        Err(e) => {
            return Some(Err(e));
        },
    }
    let nggp_without_storage = best_eligible_candidate(catalog, request, ServiceTier::NextGenerationGeneralPurpose, false);
    proof {
        lemma_best_eligible(cands, request, ServiceTier::NextGenerationGeneralPurpose, false);
    }
    let threshold_vcores: u32 = match nggp_without_storage {
        Some(c) => catalog.candidates[c.index].vcores,
        None => request.source_vcpu,
    };
    let scaled: u64 = (threshold_vcores as u64) * NGGP_IOPS_PER_VCORE;
    let nggp_iops_limit: u64 = if scaled <= NGGP_MAX_IOPS { scaled } else { NGGP_MAX_IOPS };
    let requested_tier = if request.source_max_iops <= nggp_iops_limit {
        ServiceTier::NextGenerationGeneralPurpose
    } else {
        ServiceTier::BusinessCritical
    };
    let without_storage = best_eligible_candidate(catalog, request, requested_tier, false);
    let with_storage = best_eligible_candidate(catalog, request, requested_tier, true);
    proof {
        lemma_best_eligible(cands, request, requested_tier, false);
        lemma_best_eligible(cands, request, requested_tier, true);
    }
    let capacity_fallback = if with_storage.is_none() {
        closest_capacity_candidate(catalog, request, requested_tier, true)
    } else {
        None
    };
    proof {
        lemma_closest_capacity_member(cands, request, requested_tier, true);
    }
    let choice = match with_storage {
        Some(c) => Some(c),
        None => capacity_fallback,
    };
    let selected = match choice {
        Some(c) => {
            let candidate = &catalog.candidates[c.index];
            if c.selected_memory_gb.checked_sub(candidate.included_memory_gb).is_none() {
                return None;
            }
            Some(selected_target(candidate, c.selected_memory_gb))
        },
        None => None,
    };
    let storage_escalation = storage_escalation(catalog, without_storage, with_storage, request, requested_tier);
    let candidates = candidate_evaluations(catalog, request, requested_tier);
    let outcome_reasons = match capacity_fallback {
        Some(fallback) => capacity_fallback_reasons(request, &catalog.candidates[fallback.index], fallback.selected_memory_gb),
        None => outcome_reasons(catalog, request, requested_tier, with_storage.is_some()),
    };
    let mapping_status = if selected.is_some() {
        MappingStatus::Mapped
    } else {
        MappingStatus::NoMapping
    };
    Some(Ok(TargetSelection {
        mapping_status,
        requested_tier,
        nggp_iops_limit,
        selected,
        candidates,
        outcome_reasons,
        storage_escalation,
    }))
}

} // verus!
