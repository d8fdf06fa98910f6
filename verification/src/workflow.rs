use vstd::prelude::*;

use crate::cost::{
    dec, spec_billable_storage, AzureCostBreakdown, AzureRate, OnPremExplanation, SavingsBreakdown,
    SourceCostBreakdown,
};
use crate::cost::{
    azure_mi_configured_storage_gb_checked, calculate_on_prem_source_checked, spec_configured_storage, spec_on_prem_source,
    Outcome,
};
use crate::decimal::{
    add_of, add_opt, decimal_add, decimal_display, decimal_div, decimal_mul, decimal_sub, div_of, mul_of, mul_opt, spec_max,
    spec_min, sub_of, sub_opt, DecimalValue,
};
use crate::pricing::Provider;
use crate::project::{ProjectSettings, ValidationIssue};
use crate::resource::{
    EbsVolume, EbsVolumeType, Ec2VmResource, OnPremResource, Resource, SqlEdition, VmBurstPolicy,
    VmHighFrequencyRequirement, VmInstanceStoreUse, VmVolume,
};
use crate::sql_payg::SqlPaygError;
use crate::target_selector::{MappingStatus, SelectedTarget, TargetSelectionError};
use crate::cost::CostError;
use crate::text::{bytes_order, decimal_digits, lemma_lex_less_asymmetric, lemma_lex_less_transitive, lemma_lex_total, lex_less, u64_text, usize_text};
use vstd::utf8::encode_utf8;

verus! {

/// How fresh the prices behind a result are.
#[derive(Clone, Copy, Debug, PartialEq, Eq, Structural)]
pub enum PricingStatus {
    Fresh,
    Cached,
    Stale,
    Unavailable,
    NotRequired,
}

/// A price component that could not be resolved.
#[derive(Clone, Debug, PartialEq, Eq)]
pub struct UnresolvedComponent {
    pub provider: Option<Provider>,
    pub code: String,
    pub message: String,
}

#[derive(Clone, Debug)]
pub enum CalculationError {
    EmptyCapabilityCatalog,
    FormulaVersionMismatch,
    Validation(Vec<ValidationIssue>),
    SnapshotScopeMismatch(Provider),
    InvalidTargetSelection,
    TargetSelection(TargetSelectionError),
    Cost(CostError),
    SqlPayg(SqlPaygError),
    /// A VM workload needs the VM and managed-disk selection, whose catalogs
    /// this library does not hold.
    VmTargetSelectionUnavailable,
}

/// One step of a result's explanation: a code, a message, and named values,
/// listed as a sorted map lists them: in increasing key order, each key once
/// (see `lemma_sorted_entries_strict`).
#[derive(Clone, Debug)]
pub struct ExplanationStep {
    pub code: String,
    pub message: String,
    pub values: Vec<(String, String)>,
}

pub type EntryView = (Seq<char>, Seq<char>);

/// A step as plain values: (code, message, entries).
pub type StepView = (Seq<char>, Seq<char>, Seq<EntryView>);

pub open spec fn entries_view(values: Seq<(String, String)>) -> Seq<EntryView> {
    values.map_values(|entry: (String, String)| (entry.0@, entry.1@))
}

impl View for ExplanationStep {
    type V = StepView;

    open spec fn view(&self) -> StepView {
        (self.code@, self.message@, entries_view(self.values@))
    }
}

/// The bytes an entry key is ordered by (its UTF-8 encoding).
#[verifier::opaque]
pub open spec fn key_bytes(key: Seq<char>) -> Seq<u8> {
    encode_utf8(key)
}

/// Sets an entry in a list kept in key order, as a sorted map does: a new key
/// goes to its place, an existing key takes the new value.
pub open spec fn insert_entry(s: Seq<EntryView>, e: EntryView) -> Seq<EntryView>
    decreases s.len(),
{
    if s.len() == 0 {
        seq![e]
    } else if key_bytes(e.0) == key_bytes(s[0].0) {
        seq![e] + s.drop_first()
    } else if lex_less(key_bytes(e.0), key_bytes(s[0].0)) {
        seq![e] + s
    } else {
        seq![s[0]] + insert_entry(s.drop_first(), e)
    }
}

/// The entries set one after another into a sorted map, as it lists them.
pub open spec fn sorted_entries(s: Seq<EntryView>) -> Seq<EntryView>
    decreases s.len(),
{
    if s.len() == 0 {
        seq![]
    } else {
        insert_entry(sorted_entries(s.drop_last()), s.last())
    }
}

/// A step whose values are the given entries, kept in key order.
pub open spec fn step_view(code: Seq<char>, message: Seq<char>, entries: Seq<EntryView>) -> StepView {
    (code, message, sorted_entries(entries))
}

/// Keys in strictly increasing order, hence each key once.
pub open spec fn keys_strictly_sorted(s: Seq<EntryView>) -> bool {
    forall|i: int, j: int| 0 <= i < j < s.len() ==> lex_less(key_bytes((#[trigger] s[i]).0), key_bytes((#[trigger] s[j]).0))
}

/// Setting an entry keeps the keys strictly sorted.
pub proof fn lemma_insert_entry_sorted(s: Seq<EntryView>, e: EntryView)
    requires
        keys_strictly_sorted(s),
    ensures
        keys_strictly_sorted(insert_entry(s, e)),
        forall|i: int| 0 <= i < insert_entry(s, e).len() ==> key_bytes((#[trigger] insert_entry(s, e)[i]).0) == key_bytes(e.0)
            || exists|j: int| 0 <= j < s.len() && key_bytes(s[j].0) == key_bytes(insert_entry(s, e)[i].0),
    decreases s.len(),
{
    if s.len() > 0 {
        let t = s.drop_first();
        assert(keys_strictly_sorted(t)) by {
            assert forall|i: int, j: int| 0 <= i < j < t.len() implies lex_less(key_bytes((#[trigger] t[i]).0), key_bytes((#[trigger] t[j]).0)) by {
                assert(t[i] == s[i + 1] && t[j] == s[j + 1]);
            }
        }
        if key_bytes(e.0) == key_bytes(s[0].0) {
            let r = seq![e] + t;
            assert forall|i: int, j: int| 0 <= i < j < r.len() implies lex_less(key_bytes((#[trigger] r[i]).0), key_bytes((#[trigger] r[j]).0)) by {
                if i == 0 {
                    assert(r[j] == s[j]);
                    assert(lex_less(key_bytes(s[0].0), key_bytes(s[j].0)));
                } else {
                    assert(r[i] == s[i] && r[j] == s[j]);
                }
            }
            assert forall|i: int| 0 <= i < r.len() implies key_bytes((#[trigger] r[i]).0) == key_bytes(e.0)
                || exists|j: int| 0 <= j < s.len() && key_bytes(s[j].0) == key_bytes(r[i].0) by {
                if i > 0 {
                    assert(r[i] == s[i]);
                }
            }
        } else if lex_less(key_bytes(e.0), key_bytes(s[0].0)) {
            let r = seq![e] + s;
            assert forall|i: int, j: int| 0 <= i < j < r.len() implies lex_less(key_bytes((#[trigger] r[i]).0), key_bytes((#[trigger] r[j]).0)) by {
                if i == 0 {
                    assert(r[j] == s[j - 1]);
                    if j > 1 {
                        assert(lex_less(key_bytes(s[0].0), key_bytes(s[j - 1].0)));
                        lemma_lex_less_transitive(key_bytes(e.0), key_bytes(s[0].0), key_bytes(s[j - 1].0));
                    }
                } else {
                    assert(r[i] == s[i - 1] && r[j] == s[j - 1]);
                }
            }
            assert forall|i: int| 0 <= i < r.len() implies key_bytes((#[trigger] r[i]).0) == key_bytes(e.0)
                || exists|j: int| 0 <= j < s.len() && key_bytes(s[j].0) == key_bytes(r[i].0) by {
                if i > 0 {
                    assert(r[i] == s[i - 1]);
                }
            }
        } else {
            lemma_lex_total(key_bytes(e.0), key_bytes(s[0].0));
            lemma_insert_entry_sorted(t, e);
            let u = insert_entry(t, e);
            let r = seq![s[0]] + u;
            assert forall|i: int, j: int| 0 <= i < j < r.len() implies lex_less(key_bytes((#[trigger] r[i]).0), key_bytes((#[trigger] r[j]).0)) by {
                if i == 0 {
                    assert(r[j] == u[j - 1]);
                    if key_bytes(u[j - 1].0) == key_bytes(e.0) {
                    } else {
                        let k = choose|k: int| 0 <= k < t.len() && key_bytes(t[k].0) == key_bytes(u[j - 1].0);
                        assert(t[k] == s[k + 1]);
                        assert(lex_less(key_bytes(s[0].0), key_bytes(s[k + 1].0)));
                    }
                } else {
                    assert(r[i] == u[i - 1] && r[j] == u[j - 1]);
                }
            }
            assert forall|i: int| 0 <= i < r.len() implies key_bytes((#[trigger] r[i]).0) == key_bytes(e.0)
                || exists|j: int| 0 <= j < s.len() && key_bytes(s[j].0) == key_bytes(r[i].0) by {
                if i == 0 {
                    assert(key_bytes(s[0].0) == key_bytes(r[0].0));
                } else {
                    assert(r[i] == u[i - 1]);
                    if key_bytes(u[i - 1].0) != key_bytes(e.0) {
                        let k = choose|k: int| 0 <= k < t.len() && key_bytes(t[k].0) == key_bytes(u[i - 1].0);
                        assert(t[k] == s[k + 1]);
                    }
                }
            }
        }
    }
}

/// The values of a step are listed in strictly increasing key order, each key
/// once, as a sorted map lists them.
pub proof fn lemma_sorted_entries_strict(s: Seq<EntryView>)
    ensures
        keys_strictly_sorted(sorted_entries(s)),
    decreases s.len(),
{
    if s.len() > 0 {
        lemma_sorted_entries_strict(s.drop_last());
        lemma_insert_entry_sorted(sorted_entries(s.drop_last()), s.last());
    }
}

pub open spec fn opt_display(value: Option<DecimalValue>) -> Seq<char> {
    match value {
        Some(d) => decimal_display(d),
        None => seq![],
    }
}

pub open spec fn opt_digits(value: Option<u8>) -> Seq<char> {
    match value {
        Some(n) => decimal_digits(n as nat),
        None => seq![],
    }
}

pub open spec fn bool_text(value: bool) -> Seq<char> {
    if value {
        "true"@
    } else {
        "false"@
    }
}

/// `numerator / denominator`, or 0 when the denominator is 0; `None` where the
/// denominator, or the quotient, is beyond what the decimal type holds.
pub open spec fn quotient_or_zero(numerator: DecimalValue, denominator: Option<DecimalValue>) -> Option<DecimalValue> {
    match denominator {
        Some(d) => if d.units() == 0 {
            Some(dec(0))
        } else {
            decimal_div(numerator, d)
        },
        None => None,
    }
}

/// `quantity * annual_hours_per_instance` of a resource.
pub open spec fn hours_total(resource: Resource) -> Option<DecimalValue> {
    mul_of(
        Some(dec(resource.spec_shared().quantity as int)),
        Some(resource.spec_shared().annual_hours_per_instance),
    )
}

/// The License + SA price per two-core pack for the resource's edition.
pub open spec fn pack_price(resource: OnPremResource, settings: ProjectSettings) -> Option<DecimalValue> {
    match resource.sql.sql_edition {
        SqlEdition::Standard => settings.standard_license_sa_usd_per_two_core_pack,
        SqlEdition::Enterprise => settings.enterprise_license_sa_usd_per_two_core_pack,
    }
}

/// The entries every source cost explanation has.
pub open spec fn source_base_entries(resource: Resource, settings: ProjectSettings, costs: SourceCostBreakdown) -> Seq<EntryView> {
    seq![
            ("compute_formula"@, "compute_gross = quantity * annual_hours_per_instance * compute_hourly"@),
            ("quantity"@, decimal_digits(resource.spec_shared().quantity as nat)),
            ("annual_hours_per_instance"@, decimal_display(resource.spec_shared().annual_hours_per_instance)),
            ("compute_hourly"@, decimal_display(quotient_or_zero(costs.compute_gross, hours_total(resource)).unwrap())),
            ("compute_gross"@, decimal_display(costs.compute_gross)),
            ("compute_net_formula"@, "compute_net = compute_gross * (1 - source_compute_discount)"@),
            ("source_compute_discount"@, decimal_display(settings.source_compute_discount)),
            ("compute_net"@, decimal_display(costs.compute_net)),
            ("license_net_formula"@, "license_net = license_gross * (1 - source_license_discount)"@),
            ("source_license_discount"@, decimal_display(settings.source_license_discount)),
            ("license_gross"@, decimal_display(costs.license_gross)),
            ("license_net"@, decimal_display(costs.license_net)),
            ("storage_net_formula"@, "storage_net = storage_gross * (1 - source_storage_discount)"@),
            ("source_storage_discount"@, decimal_display(settings.source_storage_discount)),
            ("storage_gross"@, decimal_display(costs.storage_gross)),
            ("storage_net"@, decimal_display(costs.storage_net)),
            ("source_total_formula"@, "source_total = compute_net + license_net + storage_net"@),
            ("source_total"@, decimal_display(costs.total)),
        ]
}

/// The entries an EC2 source adds.
pub open spec fn ec2_source_entries(resource: Resource, costs: SourceCostBreakdown) -> Seq<EntryView> {
    seq![
            ("license_formula"@, "license_gross = quantity * annual_hours_per_instance * license_hourly"@),
            ("license_hourly"@, decimal_display(quotient_or_zero(costs.license_gross, hours_total(resource)).unwrap())),
            ("storage_formula"@, "storage_gross = quantity * 12 * monthly_storage_per_instance"@),
            ("monthly_storage_per_instance"@, decimal_display(quotient_or_zero(costs.storage_gross, mul_of(Some(dec(resource.spec_shared().quantity as int)), Some(dec(12)))).unwrap())),
        ]
}

/// The entries an RDS source adds.
pub open spec fn rds_source_entries(
    resource: Resource,
    rds: crate::resource::RdsResource,
    source_vcpu: u32,
    costs: SourceCostBreakdown,
) -> Seq<EntryView> {
    seq![
            ("license_formula"@, "license_gross = quantity * annual_hours_per_instance * source_vcpu * regional_edition_core_hourly"@),
            ("source_vcpu"@, decimal_digits(source_vcpu as nat)),
            ("regional_edition_core_hourly"@, decimal_display(quotient_or_zero(costs.license_gross, mul_of(hours_total(resource), Some(dec(source_vcpu as int)))).unwrap())),
            ("storage_formula"@, "storage_gross = quantity * sql_data_gb_per_instance * 12 * storage_monthly_per_gb"@),
            ("sql_data_gb_per_instance"@, decimal_display(rds.sql.sql_data_gb_per_instance)),
            ("storage_monthly_per_gb"@, decimal_display(quotient_or_zero(costs.storage_gross, mul_of(mul_of(Some(dec(resource.spec_shared().quantity as int)), Some(rds.sql.sql_data_gb_per_instance)), Some(dec(12)))).unwrap())),
        ]
}

pub const SOURCE_COST_MESSAGE: &'static str = "Source component costs were calculated from the resolved AWS rates and project discounts.";

/// The formula explanation of an EC2 or RDS source's costs, with the rates
/// recovered from the costs (`None` for other sources); the outer `None` where
/// a recovered rate is beyond what the decimal type holds.
pub open spec fn spec_source_cost_step(
    resource: Resource,
    source_vcpu: u32,
    settings: ProjectSettings,
    costs: SourceCostBreakdown,
) -> Option<Option<StepView>> {
    let shared = resource.spec_shared();
    let hours = hours_total(resource);
    if quotient_or_zero(costs.compute_gross, hours) is None {
        None
    } else {
        match resource {
            Resource::Ec2(_) => if quotient_or_zero(costs.license_gross, hours) is Some && quotient_or_zero(
                costs.storage_gross,
                mul_of(Some(dec(shared.quantity as int)), Some(dec(12))),
            ) is Some {
                Some(
                    Some(
                        step_view(
                            "source_cost_formula"@,
                            SOURCE_COST_MESSAGE@,
                            source_base_entries(resource, settings, costs) + ec2_source_entries(resource, costs),
                        ),
                    ),
                )
            } else {
                None
            },
            Resource::Rds(rds) => if quotient_or_zero(
                costs.license_gross,
                mul_of(hours, Some(dec(source_vcpu as int))),
            ) is Some && quotient_or_zero(
                costs.storage_gross,
                mul_of(mul_of(Some(dec(shared.quantity as int)), Some(rds.sql.sql_data_gb_per_instance)), Some(dec(12))),
            ) is Some {
                Some(
                    Some(
                        step_view(
                            "source_cost_formula"@,
                            SOURCE_COST_MESSAGE@,
                            source_base_entries(resource, settings, costs) + rds_source_entries(
                                resource,
                                rds,
                                source_vcpu,
                                costs,
                            ),
                        ),
                    ),
                )
            } else {
                None
            },
            _ => Some(None),
        }
    }
}

pub const AZURE_COST_MESSAGE: &'static str = "Azure component costs were calculated from the selected MI shape and resolved purchase-option rates.";

/// The formula explanation of a managed-instance target's costs; `None` where
/// the billable storage is beyond what the decimal type holds.
pub open spec fn spec_azure_cost_step(
    selected: SelectedTarget,
    resource: Resource,
    azure_storage_gb_per_instance: DecimalValue,
    rate: AzureRate,
    settings: ProjectSettings,
    costs: AzureCostBreakdown,
) -> Option<StepView> {
    if spec_billable_storage(azure_storage_gb_per_instance) is None {
        None
    } else {
        Some(step_view("azure_cost_formula"@, AZURE_COST_MESSAGE@, seq![
                ("compute_formula"@, "compute_gross = quantity * annual_hours_per_instance * mi_compute_hourly"@),
                ("quantity"@, decimal_digits(resource.spec_shared().quantity as nat)),
                ("annual_hours_per_instance"@, decimal_display(resource.spec_shared().annual_hours_per_instance)),
                ("mi_compute_hourly"@, decimal_display(rate.compute_hourly)),
                ("compute_gross"@, decimal_display(costs.compute_gross)),
                ("additional_ram_gb_formula"@, "additional_ram_gb = max(0, selected_mi_ram_gb - included_mi_ram_gb)"@),
                ("included_mi_ram_gb"@, decimal_display(selected.included_memory_gb)),
                ("selected_mi_ram_gb"@, decimal_display(selected.selected_memory_gb)),
                ("additional_ram_gb"@, decimal_display(costs.additional_ram_gb)),
                ("additional_ram_formula"@, "additional_ram_gross = quantity * annual_hours_per_instance * additional_ram_gb * additional_memory_per_gb_hourly"@),
                ("additional_memory_per_gb_hourly"@, decimal_display(rate.additional_memory_per_gb_hourly)),
                ("additional_ram_gross"@, decimal_display(costs.additional_ram_gross)),
                ("compute_plus_ram_net_formula"@, "compute_plus_ram_net = (compute_gross + additional_ram_gross) * (1 - azure_compute_discount)"@),
                ("azure_compute_discount"@, decimal_display(settings.azure_compute_discount)),
                ("compute_plus_ram_net"@, decimal_display(costs.compute_plus_ram_net)),
                ("license_formula"@, "license_gross = quantity * annual_hours_per_instance * mi_license_hourly"@),
                ("mi_license_hourly"@, decimal_display(rate.license_hourly)),
                ("license_gross"@, decimal_display(costs.license_gross)),
                ("license_net_formula"@, "license_net = license_gross * (1 - azure_license_discount)"@),
                ("azure_license_discount"@, decimal_display(settings.azure_license_discount)),
                ("license_net"@, decimal_display(costs.license_net)),
                ("storage_formula"@, "azure_billable_storage_gb_per_instance = max(azure_configured_storage_gb_per_instance - 32, 0); storage_gross = quantity * azure_billable_storage_gb_per_instance * 12 * mi_storage_monthly_per_gb"@),
                ("azure_configured_storage_gb_per_instance"@, decimal_display(azure_storage_gb_per_instance)),
                ("azure_included_storage_gb_per_instance"@, "32"@),
                ("azure_billable_storage_gb_per_instance"@, decimal_display(spec_billable_storage(azure_storage_gb_per_instance).unwrap())),
                ("mi_storage_monthly_per_gb"@, decimal_display(rate.storage_monthly_per_gb)),
                ("storage_gross"@, decimal_display(costs.storage_gross)),
                ("storage_net_formula"@, "storage_net = storage_gross * (1 - azure_storage_discount)"@),
                ("azure_storage_discount"@, decimal_display(settings.azure_storage_discount)),
                ("storage_net"@, decimal_display(costs.storage_net)),
                ("azure_total_before_parity_formula"@, "azure_total_before_parity = compute_plus_ram_net + license_net + storage_net"@),
                ("azure_total_before_parity"@, decimal_display(costs.total_before_parity)),
            ]))
    }
}

pub const ON_PREM_COST_MESSAGE: &'static str = "On-premises component costs were calculated from hardware depreciation, License + SA, and electricity inputs.";

/// The formula explanation of an on-premises source's costs.
pub open spec fn spec_on_prem_cost_step(
    resource: OnPremResource,
    settings: ProjectSettings,
    costs: SourceCostBreakdown,
    explanation: OnPremExplanation,
) -> StepView {
    step_view("source_cost_formula"@, ON_PREM_COST_MESSAGE@, seq![
            ("quantity"@, decimal_digits(resource.shared.quantity as nat)),
            ("annual_hours_per_instance"@, decimal_display(resource.shared.annual_hours_per_instance)),
            ("hardware_formula"@, "hardware_annual = quantity * hardware_capex_usd / depreciation_years"@),
            ("hardware_capex_usd"@, decimal_display(resource.hardware_capex_usd)),
            ("depreciation_years"@, decimal_display(resource.depreciation_years)),
            ("hardware_annual"@, decimal_display(costs.hardware_annual)),
            ("compute_gross"@, decimal_display(costs.compute_gross)),
            ("compute_net"@, decimal_display(costs.compute_net)),
            ("license_formula"@, "license_gross = quantity * license_pack_count * license_sa_usd_per_two_core_pack * 12 / remaining_coverage_months"@),
            ("licensable_cores"@, decimal_digits(resource.licensable_cores as nat)),
            ("license_pack_count"@, decimal_digits(explanation.license_pack_count as nat)),
            ("license_sa_usd_per_two_core_pack"@, opt_display(pack_price(resource, settings))),
            ("remaining_coverage_months"@, opt_digits(settings.remaining_coverage_months)),
            ("license_gross"@, decimal_display(costs.license_gross)),
            ("license_net_formula"@, "license_net = license_gross * (1 - source_license_discount)"@),
            ("source_license_discount"@, decimal_display(settings.source_license_discount)),
            ("license_net"@, decimal_display(costs.license_net)),
            ("electricity_formula"@, "electricity_annual = annual_kwh * electricity_rate_usd_per_kwh"@),
            ("annual_kwh"@, decimal_display(explanation.annual_kwh)),
            ("electricity_rate_usd_per_kwh"@, opt_display(settings.electricity_rate_usd_per_kwh)),
            ("electricity_annual"@, decimal_display(costs.electricity_annual)),
            ("source_total_formula"@, "source_total = hardware_annual + license_net + electricity_annual"@),
            ("source_total"@, decimal_display(costs.total)),
        ])
}

pub const SAVINGS_MESSAGE: &'static str = "Savings before parity are source component costs minus Azure component costs.";

/// The formula explanation of the savings.
pub open spec fn spec_savings_step(
    source: SourceCostBreakdown,
    azure: AzureCostBreakdown,
    savings: SavingsBreakdown,
) -> StepView {
    step_view("savings_formula"@, SAVINGS_MESSAGE@, seq![
            ("compute_savings_formula"@, "compute_savings = source_compute_net - azure_compute_plus_ram_net"@),
            ("source_compute_net"@, decimal_display(source.compute_net)),
            ("azure_compute_plus_ram_net"@, decimal_display(azure.compute_plus_ram_net)),
            ("compute_savings"@, decimal_display(savings.compute_savings)),
            ("license_savings_formula"@, "license_savings = source_license_net - azure_license_net"@),
            ("source_license_net"@, decimal_display(source.license_net)),
            ("azure_license_net"@, decimal_display(azure.license_net)),
            ("license_savings"@, decimal_display(savings.license_savings)),
            ("storage_savings_formula"@, "storage_savings = source_storage_net - azure_storage_net"@),
            ("source_storage_net"@, decimal_display(source.storage_net)),
            ("azure_storage_net"@, decimal_display(azure.storage_net)),
            ("storage_savings"@, decimal_display(savings.storage_savings)),
            ("total_savings_formula"@, "total_savings = source_total - azure_total_before_parity"@),
            ("source_total"@, decimal_display(source.total)),
            ("azure_total_before_parity"@, decimal_display(azure.total_before_parity)),
            ("total_savings"@, decimal_display(savings.total_savings)),
        ])
}

pub const PARITY_MESSAGE: &'static str = "Parity applies the selected adjustment to the Azure total and compares it with the source total.";

/// The formula explanation of the parity adjustment.
pub open spec fn spec_parity_step(
    source: SourceCostBreakdown,
    azure: AzureCostBreakdown,
    savings: SavingsBreakdown,
) -> StepView {
    step_view("parity_formula"@, PARITY_MESSAGE@, seq![
            ("required_adjustment_formula"@, "required_adjustment = if azure_total_before_parity == 0 then 0 else 1 - source_total / azure_total_before_parity"@),
            ("source_total"@, decimal_display(source.total)),
            ("azure_total_before_parity"@, decimal_display(azure.total_before_parity)),
            ("required_adjustment"@, decimal_display(savings.required_adjustment)),
            ("azure_after_selected_parity_formula"@, "azure_after_selected_parity = azure_total_before_parity * (1 - selected_adjustment)"@),
            ("selected_adjustment"@, decimal_display(savings.selected_adjustment)),
            ("azure_after_selected_parity"@, decimal_display(savings.azure_after_selected_parity)),
            ("difference_formula"@, "difference = azure_after_selected_parity - source_total"@),
            ("difference"@, decimal_display(savings.difference)),
        ])
}

pub const POWER_MESSAGE: &'static str = "Indicative server power was estimated from fixed coefficients; an explicit override takes precedence.";

/// The explanation of the power estimate.
pub open spec fn spec_on_prem_power_step(explanation: OnPremExplanation, resource: OnPremResource) -> StepView {
    step_view("on_prem_power_estimate"@, POWER_MESSAGE@, seq![
            ("fixed_kw"@, "0.100"@),
            ("kw_per_vcpu"@, "0.0125"@),
            ("kw_per_ram_gb"@, "0.000375"@),
            ("kw_per_data_tb"@, "0.010"@),
            ("source_vcpu"@, decimal_digits(resource.source_vcpu as nat)),
            ("source_ram_gb"@, decimal_display(resource.shared.source_ram_gb_per_instance)),
            ("sql_data_gb"@, decimal_display(resource.sql.sql_data_gb_per_instance)),
            ("estimated_power_kw"@, decimal_display(explanation.estimated_power_kw)),
            ("effective_power_kw"@, decimal_display(explanation.effective_power_kw)),
            ("override_applied"@, bool_text(explanation.power_override_applied)),
            ("annual_kwh"@, decimal_display(explanation.annual_kwh)),
        ])
}

/// The provenance of a price snapshot: its source and retrieval time.
pub open spec fn provenance_entries(source_url: Seq<char>, retrieved_at: Seq<char>) -> Seq<EntryView> {
    seq![("source_url"@, source_url), ("retrieved_at"@, retrieved_at)]
}

// ---------------------------------------------------------------------------
// Building the steps.
// ---------------------------------------------------------------------------

fn push_entry(values: &mut Vec<(String, String)>, key: &str, value: String)
    ensures
        entries_view(final(values)@) == entries_view(old(values)@).push((key@, value@)),
{
    let ghost before = values@;
    let ghost value_view = value@;
    values.push((key.to_owned(), value));
    assert(entries_view(values@) =~= entries_view(before).push((key@, value_view)));
}

fn u32_text(n: u32) -> (r: String)
    ensures
        r@ == decimal_digits(n as nat),
{
    usize_text(n as usize)
}

fn opt_decimal_text(value: Option<DecimalValue>) -> (r: String)
    ensures
        r@ == opt_display(value),
{
    match value {
        Some(d) => d.to_string(),
        None => String::new(),
    }
}

fn opt_u8_text(value: Option<u8>) -> (r: String)
    ensures
        r@ == opt_digits(value),
{
    match value {
        Some(n) => usize_text(n as usize),
        None => String::new(),
    }
}

fn bool_string(value: bool) -> (r: String)
    ensures
        r@ == bool_text(value),
{
    if value {
        "true".to_owned()
    } else {
        "false".to_owned()
    }
}

/// `numerator / denominator`, or 0 when the denominator is 0.
pub fn divide_or_zero(numerator: DecimalValue, denominator: Option<DecimalValue>) -> (r: Option<DecimalValue>)
    ensures
        r == quotient_or_zero(numerator, denominator),
{
    match denominator {
        Some(d) => if d.is_zero() {
            Some(DecimalValue::zero())
        } else {
            numerator.checked_div(d)
        },
        None => None,
    }
}

/// Sets an entry into values kept in key order.
fn insert_sorted_entry(out: &mut Vec<(String, String)>, e: (String, String))
    ensures
        entries_view(final(out)@) == insert_entry(entries_view(old(out)@), (e.0@, e.1@)),
{
    let ghost v = entries_view(out@);
    let ghost ev = (e.0@, e.1@);
    let mut p: usize = 0;
    assert(v.skip(0) =~= v);
    assert(v.take(0) =~= Seq::<EntryView>::empty());
    while p < out.len()
        invariant
            p <= out@.len(),
            v == entries_view(out@),
            v == entries_view(old(out)@),
            ev == (e.0@, e.1@),
            v.len() == out@.len(),
            insert_entry(v, ev) == v.take(p as int) + insert_entry(v.skip(p as int), ev),
        decreases out@.len() - p,
    {
        proof {
            reveal(key_bytes);
        }
        let current = out[p].0.as_str();
        let key = e.0.as_str();
        assert(current@ == v[p as int].0);
        let c = bytes_order(current.as_bytes(), key.as_bytes());
        let ghost rest = v.skip(p as int);
        assert(rest[0] == v[p as int]);
        assert(rest.drop_first() =~= v.skip(p + 1));
        if c == 0 {
            assert(key_bytes(ev.0) == key_bytes(rest[0].0));
            assert(insert_entry(rest, ev) == seq![ev] + rest.drop_first());
            out.set(p, e);
            assert(entries_view(out@) =~= v.take(p as int) + (seq![ev] + rest.drop_first()));
            assert(entries_view(out@) == insert_entry(v, ev));
            return;
        }
        if c == 1 {
            proof {
                lemma_lex_less_asymmetric(key_bytes(ev.0), key_bytes(rest[0].0));
            }
            assert(insert_entry(rest, ev) == seq![ev] + rest);
            out.insert(p, e);
            assert(entries_view(out@) =~= v.take(p as int) + (seq![ev] + rest));
            assert(entries_view(out@) == insert_entry(v, ev));
            return;
        }
        proof {
            lemma_lex_less_asymmetric(key_bytes(rest[0].0), key_bytes(ev.0));
            assert(insert_entry(rest, ev) == seq![rest[0]] + insert_entry(v.skip(p + 1), ev));
            assert(v.take(p + 1) =~= v.take(p as int) + seq![rest[0]]);
        }
        p = p + 1;
    }
    assert(v.skip(p as int) =~= Seq::<EntryView>::empty());
    assert(v.take(p as int) =~= v);
    out.push(e);
    assert(entries_view(out@) =~= v + seq![ev]);
}

fn step(code: &str, message: &str, values: Vec<(String, String)>) -> (r: ExplanationStep)
    ensures
        r@ == step_view(code@, message@, entries_view(values@)),
        forall|entries: Seq<EntryView>|
            entries =~= entries_view(values@) ==> #[trigger] step_view(code@, message@, entries) == r@,
{
    let mut sorted: Vec<(String, String)> = Vec::new();
    let mut i: usize = 0;
    let ghost all = entries_view(values@);
    assert(all.take(0) =~= Seq::<EntryView>::empty());
    assert(entries_view(sorted@) =~= Seq::<EntryView>::empty());
    while i < values.len()
        invariant
            i <= values@.len(),
            all == entries_view(values@),
            entries_view(sorted@) == sorted_entries(all.take(i as int)),
        decreases values@.len() - i,
    {
        let entry = (values[i].0.clone(), values[i].1.clone());
        insert_sorted_entry(&mut sorted, entry);
        assert(all.take(i + 1).drop_last() =~= all.take(i as int));
        assert(all.take(i + 1).last() == all[i as int]);
        i = i + 1;
    }
    assert(all.take(i as int) =~= all);
    ExplanationStep { code: code.to_owned(), message: message.to_owned(), values: sorted }
}

/// The formula explanation of an EC2 or RDS source's costs (`None` for other
/// sources); the outer `None` where a recovered rate is beyond what the decimal
/// type holds.
pub fn source_cost_formula_step_checked(
    resource: &Resource,
    source_vcpu: u32,
    settings: &ProjectSettings,
    costs: &SourceCostBreakdown,
) -> (r: Option<Option<ExplanationStep>>)
    ensures
        match spec_source_cost_step(*resource, source_vcpu, *settings, *costs) {
            None => r is None,
            Some(None) => r matches Some(None),
            Some(Some(v)) => r matches Some(Some(s)) && s@ == v,
        },
{
    let shared = resource.shared();
    let quantity = Some(DecimalValue::from_u32(shared.quantity));
    let hours = mul_opt(quantity, Some(shared.annual_hours_per_instance));
    let compute_hourly = match divide_or_zero(costs.compute_gross, hours) {
        Some(v) => v,
        None => {
            return None;
        },
    };
    let mut values: Vec<(String, String)> = Vec::new();
    assert(entries_view(values@) =~= seq![]);
    push_entry(&mut values, "compute_formula", "compute_gross = quantity * annual_hours_per_instance * compute_hourly".to_owned());
    push_entry(&mut values, "quantity", u32_text(shared.quantity));
    push_entry(&mut values, "annual_hours_per_instance", shared.annual_hours_per_instance.to_string());
    push_entry(&mut values, "compute_hourly", compute_hourly.to_string());
    push_entry(&mut values, "compute_gross", costs.compute_gross.to_string());
    push_entry(&mut values, "compute_net_formula", "compute_net = compute_gross * (1 - source_compute_discount)".to_owned());
    push_entry(&mut values, "source_compute_discount", settings.source_compute_discount.to_string());
    push_entry(&mut values, "compute_net", costs.compute_net.to_string());
    push_entry(&mut values, "license_net_formula", "license_net = license_gross * (1 - source_license_discount)".to_owned());
    push_entry(&mut values, "source_license_discount", settings.source_license_discount.to_string());
    push_entry(&mut values, "license_gross", costs.license_gross.to_string());
    push_entry(&mut values, "license_net", costs.license_net.to_string());
    push_entry(&mut values, "storage_net_formula", "storage_net = storage_gross * (1 - source_storage_discount)".to_owned());
    push_entry(&mut values, "source_storage_discount", settings.source_storage_discount.to_string());
    push_entry(&mut values, "storage_gross", costs.storage_gross.to_string());
    push_entry(&mut values, "storage_net", costs.storage_net.to_string());
    push_entry(&mut values, "source_total_formula", "source_total = compute_net + license_net + storage_net".to_owned());
    push_entry(&mut values, "source_total", costs.total.to_string());
    assert(entries_view(values@) =~= source_base_entries(*resource, *settings, *costs));
    let ghost base = entries_view(values@);
    match resource {
        Resource::Ec2(_) => {
            let license_hourly = match divide_or_zero(costs.license_gross, hours) {
                Some(v) => v,
                None => {
                    return None;
                },
            };
            let monthly_storage = match divide_or_zero(
                costs.storage_gross,
                mul_opt(quantity, Some(DecimalValue::from_u32(12))),
            ) {
                Some(v) => v,
                None => {
                    return None;
                },
            };
            push_entry(&mut values, "license_formula", "license_gross = quantity * annual_hours_per_instance * license_hourly".to_owned());
            push_entry(&mut values, "license_hourly", license_hourly.to_string());
            push_entry(&mut values, "storage_formula", "storage_gross = quantity * 12 * monthly_storage_per_instance".to_owned());
            push_entry(&mut values, "monthly_storage_per_instance", monthly_storage.to_string());
            assert(entries_view(values@) =~= base + ec2_source_entries(*resource, *costs));
        },
        Resource::Rds(rds) => {
            let core_hourly = match divide_or_zero(
                costs.license_gross,
                mul_opt(hours, Some(DecimalValue::from_u32(source_vcpu))),
            ) {
                Some(v) => v,
                None => {
                    return None;
                },
            };
            let storage_rate = match divide_or_zero(
                costs.storage_gross,
                mul_opt(
                    mul_opt(quantity, Some(rds.sql.sql_data_gb_per_instance)),
                    Some(DecimalValue::from_u32(12)),
                ),
            ) {
                Some(v) => v,
                None => {
                    return None;
                },
            };
            push_entry(&mut values, "license_formula", "license_gross = quantity * annual_hours_per_instance * source_vcpu * regional_edition_core_hourly".to_owned());
            push_entry(&mut values, "source_vcpu", u32_text(source_vcpu));
            push_entry(&mut values, "regional_edition_core_hourly", core_hourly.to_string());
            push_entry(&mut values, "storage_formula", "storage_gross = quantity * sql_data_gb_per_instance * 12 * storage_monthly_per_gb".to_owned());
            push_entry(&mut values, "sql_data_gb_per_instance", rds.sql.sql_data_gb_per_instance.to_string());
            push_entry(&mut values, "storage_monthly_per_gb", storage_rate.to_string());
            assert(entries_view(values@) =~= base + rds_source_entries(*resource, *rds, source_vcpu, *costs));
        },
        _ => {
            return Some(None);
        },
    }
    Some(Some(step("source_cost_formula", SOURCE_COST_MESSAGE, values)))
}

/// The formula explanation of an EC2 or RDS source's costs (`None` for other sources).
pub fn source_cost_formula_step(
    resource: &Resource,
    source_vcpu: u32,
    settings: &ProjectSettings,
    costs: &SourceCostBreakdown,
) -> (r: Option<ExplanationStep>)
    requires
        spec_source_cost_step(*resource, source_vcpu, *settings, *costs) is Some,
    ensures
        match spec_source_cost_step(*resource, source_vcpu, *settings, *costs) {
            Some(Some(v)) => r matches Some(s) && s@ == v,
            _ => r is None,
        },
{
    source_cost_formula_step_checked(resource, source_vcpu, settings, costs).unwrap()
}

/// The formula explanation of a managed-instance target's costs; `None` where
/// the billable storage is beyond what the decimal type holds.
#[verifier::rlimit(60)]
pub fn azure_cost_formula_step_checked(
    selected: &SelectedTarget,
    resource: &Resource,
    azure_storage_gb_per_instance: DecimalValue,
    rate: AzureRate,
    settings: &ProjectSettings,
    costs: &AzureCostBreakdown,
) -> (r: Option<ExplanationStep>)
    ensures
        match spec_azure_cost_step(*selected, *resource, azure_storage_gb_per_instance, rate, *settings, *costs) {
            None => r is None,
            Some(v) => r matches Some(s) && s@ == v,
        },
{
    let shared = resource.shared();
    let billable = crate::cost::azure_mi_billable_storage_gb_checked(azure_storage_gb_per_instance);
    if billable.is_none() {
        return None;
    }
    let mut values: Vec<(String, String)> = Vec::new();
    assert(entries_view(values@) =~= seq![]);
    push_entry(&mut values, "compute_formula", "compute_gross = quantity * annual_hours_per_instance * mi_compute_hourly".to_owned());
    push_entry(&mut values, "quantity", u32_text(shared.quantity));
    push_entry(&mut values, "annual_hours_per_instance", shared.annual_hours_per_instance.to_string());
    push_entry(&mut values, "mi_compute_hourly", rate.compute_hourly.to_string());
    push_entry(&mut values, "compute_gross", costs.compute_gross.to_string());
    push_entry(&mut values, "additional_ram_gb_formula", "additional_ram_gb = max(0, selected_mi_ram_gb - included_mi_ram_gb)".to_owned());
    push_entry(&mut values, "included_mi_ram_gb", selected.included_memory_gb.to_string());
    push_entry(&mut values, "selected_mi_ram_gb", selected.selected_memory_gb.to_string());
    push_entry(&mut values, "additional_ram_gb", costs.additional_ram_gb.to_string());
    push_entry(&mut values, "additional_ram_formula", "additional_ram_gross = quantity * annual_hours_per_instance * additional_ram_gb * additional_memory_per_gb_hourly".to_owned());
    push_entry(&mut values, "additional_memory_per_gb_hourly", rate.additional_memory_per_gb_hourly.to_string());
    push_entry(&mut values, "additional_ram_gross", costs.additional_ram_gross.to_string());
    push_entry(&mut values, "compute_plus_ram_net_formula", "compute_plus_ram_net = (compute_gross + additional_ram_gross) * (1 - azure_compute_discount)".to_owned());
    push_entry(&mut values, "azure_compute_discount", settings.azure_compute_discount.to_string());
    push_entry(&mut values, "compute_plus_ram_net", costs.compute_plus_ram_net.to_string());
    push_entry(&mut values, "license_formula", "license_gross = quantity * annual_hours_per_instance * mi_license_hourly".to_owned());
    push_entry(&mut values, "mi_license_hourly", rate.license_hourly.to_string());
    push_entry(&mut values, "license_gross", costs.license_gross.to_string());
    push_entry(&mut values, "license_net_formula", "license_net = license_gross * (1 - azure_license_discount)".to_owned());
    push_entry(&mut values, "azure_license_discount", settings.azure_license_discount.to_string());
    push_entry(&mut values, "license_net", costs.license_net.to_string());
    push_entry(&mut values, "storage_formula", "azure_billable_storage_gb_per_instance = max(azure_configured_storage_gb_per_instance - 32, 0); storage_gross = quantity * azure_billable_storage_gb_per_instance * 12 * mi_storage_monthly_per_gb".to_owned());
    push_entry(&mut values, "azure_configured_storage_gb_per_instance", azure_storage_gb_per_instance.to_string());
    push_entry(&mut values, "azure_included_storage_gb_per_instance", "32".to_owned());
    push_entry(&mut values, "azure_billable_storage_gb_per_instance", billable.unwrap().to_string());
    push_entry(&mut values, "mi_storage_monthly_per_gb", rate.storage_monthly_per_gb.to_string());
    push_entry(&mut values, "storage_gross", costs.storage_gross.to_string());
    push_entry(&mut values, "storage_net_formula", "storage_net = storage_gross * (1 - azure_storage_discount)".to_owned());
    push_entry(&mut values, "azure_storage_discount", settings.azure_storage_discount.to_string());
    push_entry(&mut values, "storage_net", costs.storage_net.to_string());
    push_entry(&mut values, "azure_total_before_parity_formula", "azure_total_before_parity = compute_plus_ram_net + license_net + storage_net".to_owned());
    push_entry(&mut values, "azure_total_before_parity", costs.total_before_parity.to_string());
    Some(step("azure_cost_formula", AZURE_COST_MESSAGE, values))
}

/// The formula explanation of a managed-instance target's costs.
pub fn azure_cost_formula_step(
    selected: &SelectedTarget,
    resource: &Resource,
    azure_storage_gb_per_instance: DecimalValue,
    rate: AzureRate,
    settings: &ProjectSettings,
    costs: &AzureCostBreakdown,
) -> (r: ExplanationStep)
    requires
        spec_billable_storage(azure_storage_gb_per_instance) is Some,
    ensures
        Some(r@) == spec_azure_cost_step(*selected, *resource, azure_storage_gb_per_instance, rate, *settings, *costs),
{
    azure_cost_formula_step_checked(selected, resource, azure_storage_gb_per_instance, rate, settings, costs).unwrap()
}

/// The formula explanation of an on-premises source's costs.
pub fn on_prem_cost_formula_step(
    resource: &OnPremResource,
    settings: &ProjectSettings,
    costs: &SourceCostBreakdown,
    explanation: &OnPremExplanation,
) -> (r: ExplanationStep)
    ensures
        r@ == spec_on_prem_cost_step(*resource, *settings, *costs, *explanation),
{
    let license_price = match resource.sql.sql_edition {
        SqlEdition::Standard => settings.standard_license_sa_usd_per_two_core_pack,
        SqlEdition::Enterprise => settings.enterprise_license_sa_usd_per_two_core_pack,
    };
    let mut values: Vec<(String, String)> = Vec::new();
    assert(entries_view(values@) =~= seq![]);
    push_entry(&mut values, "quantity", u32_text(resource.shared.quantity));
    push_entry(&mut values, "annual_hours_per_instance", resource.shared.annual_hours_per_instance.to_string());
    push_entry(&mut values, "hardware_formula", "hardware_annual = quantity * hardware_capex_usd / depreciation_years".to_owned());
    push_entry(&mut values, "hardware_capex_usd", resource.hardware_capex_usd.to_string());
    push_entry(&mut values, "depreciation_years", resource.depreciation_years.to_string());
    push_entry(&mut values, "hardware_annual", costs.hardware_annual.to_string());
    push_entry(&mut values, "compute_gross", costs.compute_gross.to_string());
    push_entry(&mut values, "compute_net", costs.compute_net.to_string());
    push_entry(&mut values, "license_formula", "license_gross = quantity * license_pack_count * license_sa_usd_per_two_core_pack * 12 / remaining_coverage_months".to_owned());
    push_entry(&mut values, "licensable_cores", u32_text(resource.licensable_cores));
    push_entry(&mut values, "license_pack_count", u32_text(explanation.license_pack_count));
    push_entry(&mut values, "license_sa_usd_per_two_core_pack", opt_decimal_text(license_price));
    push_entry(&mut values, "remaining_coverage_months", opt_u8_text(settings.remaining_coverage_months));
    push_entry(&mut values, "license_gross", costs.license_gross.to_string());
    push_entry(&mut values, "license_net_formula", "license_net = license_gross * (1 - source_license_discount)".to_owned());
    push_entry(&mut values, "source_license_discount", settings.source_license_discount.to_string());
    push_entry(&mut values, "license_net", costs.license_net.to_string());
    push_entry(&mut values, "electricity_formula", "electricity_annual = annual_kwh * electricity_rate_usd_per_kwh".to_owned());
    push_entry(&mut values, "annual_kwh", explanation.annual_kwh.to_string());
    push_entry(&mut values, "electricity_rate_usd_per_kwh", opt_decimal_text(settings.electricity_rate_usd_per_kwh));
    push_entry(&mut values, "electricity_annual", costs.electricity_annual.to_string());
    push_entry(&mut values, "source_total_formula", "source_total = hardware_annual + license_net + electricity_annual".to_owned());
    push_entry(&mut values, "source_total", costs.total.to_string());
    step("source_cost_formula", ON_PREM_COST_MESSAGE, values)
}

/// The formula explanation of the savings.
pub fn savings_formula_step(
    source: &SourceCostBreakdown,
    azure: &AzureCostBreakdown,
    savings: &SavingsBreakdown,
) -> (r: ExplanationStep)
    ensures
        r@ == spec_savings_step(*source, *azure, *savings),
{
    let mut values: Vec<(String, String)> = Vec::new();
    assert(entries_view(values@) =~= seq![]);
    push_entry(&mut values, "compute_savings_formula", "compute_savings = source_compute_net - azure_compute_plus_ram_net".to_owned());
    push_entry(&mut values, "source_compute_net", source.compute_net.to_string());
    push_entry(&mut values, "azure_compute_plus_ram_net", azure.compute_plus_ram_net.to_string());
    push_entry(&mut values, "compute_savings", savings.compute_savings.to_string());
    push_entry(&mut values, "license_savings_formula", "license_savings = source_license_net - azure_license_net".to_owned());
    push_entry(&mut values, "source_license_net", source.license_net.to_string());
    push_entry(&mut values, "azure_license_net", azure.license_net.to_string());
    push_entry(&mut values, "license_savings", savings.license_savings.to_string());
    push_entry(&mut values, "storage_savings_formula", "storage_savings = source_storage_net - azure_storage_net".to_owned());
    push_entry(&mut values, "source_storage_net", source.storage_net.to_string());
    push_entry(&mut values, "azure_storage_net", azure.storage_net.to_string());
    push_entry(&mut values, "storage_savings", savings.storage_savings.to_string());
    push_entry(&mut values, "total_savings_formula", "total_savings = source_total - azure_total_before_parity".to_owned());
    push_entry(&mut values, "source_total", source.total.to_string());
    push_entry(&mut values, "azure_total_before_parity", azure.total_before_parity.to_string());
    push_entry(&mut values, "total_savings", savings.total_savings.to_string());
    step("savings_formula", SAVINGS_MESSAGE, values)
}

/// The formula explanation of the parity adjustment.
pub fn parity_formula_step(
    source: &SourceCostBreakdown,
    azure: &AzureCostBreakdown,
    savings: &SavingsBreakdown,
) -> (r: ExplanationStep)
    ensures
        r@ == spec_parity_step(*source, *azure, *savings),
{
    let mut values: Vec<(String, String)> = Vec::new();
    assert(entries_view(values@) =~= seq![]);
    push_entry(&mut values, "required_adjustment_formula", "required_adjustment = if azure_total_before_parity == 0 then 0 else 1 - source_total / azure_total_before_parity".to_owned());
    push_entry(&mut values, "source_total", source.total.to_string());
    push_entry(&mut values, "azure_total_before_parity", azure.total_before_parity.to_string());
    push_entry(&mut values, "required_adjustment", savings.required_adjustment.to_string());
    push_entry(&mut values, "azure_after_selected_parity_formula", "azure_after_selected_parity = azure_total_before_parity * (1 - selected_adjustment)".to_owned());
    push_entry(&mut values, "selected_adjustment", savings.selected_adjustment.to_string());
    push_entry(&mut values, "azure_after_selected_parity", savings.azure_after_selected_parity.to_string());
    push_entry(&mut values, "difference_formula", "difference = azure_after_selected_parity - source_total".to_owned());
    push_entry(&mut values, "difference", savings.difference.to_string());
    step("parity_formula", PARITY_MESSAGE, values)
}

/// The explanation of the power estimate.
pub fn on_prem_power_step(explanation: &OnPremExplanation, resource: &OnPremResource) -> (r: ExplanationStep)
    ensures
        r@ == spec_on_prem_power_step(*explanation, *resource),
{
    let mut values: Vec<(String, String)> = Vec::new();
    assert(entries_view(values@) =~= seq![]);
    push_entry(&mut values, "fixed_kw", "0.100".to_owned());
    push_entry(&mut values, "kw_per_vcpu", "0.0125".to_owned());
    push_entry(&mut values, "kw_per_ram_gb", "0.000375".to_owned());
    push_entry(&mut values, "kw_per_data_tb", "0.010".to_owned());
    push_entry(&mut values, "source_vcpu", u32_text(resource.source_vcpu));
    push_entry(&mut values, "source_ram_gb", resource.shared.source_ram_gb_per_instance.to_string());
    push_entry(&mut values, "sql_data_gb", resource.sql.sql_data_gb_per_instance.to_string());
    push_entry(&mut values, "estimated_power_kw", explanation.estimated_power_kw.to_string());
    push_entry(&mut values, "effective_power_kw", explanation.effective_power_kw.to_string());
    push_entry(&mut values, "override_applied", bool_string(explanation.power_override_applied));
    push_entry(&mut values, "annual_kwh", explanation.annual_kwh.to_string());
    step("on_prem_power_estimate", POWER_MESSAGE, values)
}

/// Where the source rates came from.
pub fn source_provenance_step(source_url: &str, retrieved_at: &str) -> (r: ExplanationStep)
    ensures
        r@ == step_view(
            "source_price_provenance"@,
            "Source rates were resolved from the immutable AWS snapshot."@,
            provenance_entries(source_url@, retrieved_at@),
        ),
{
    let mut values: Vec<(String, String)> = Vec::new();
    assert(entries_view(values@) =~= seq![]);
    push_entry(&mut values, "source_url", source_url.to_owned());
    push_entry(&mut values, "retrieved_at", retrieved_at.to_owned());
    step("source_price_provenance", "Source rates were resolved from the immutable AWS snapshot.", values)
}

/// Where the target rates came from.
pub fn target_provenance_step(source_url: &str, retrieved_at: &str) -> (r: ExplanationStep)
    ensures
        r@ == step_view(
            "target_price_provenance"@,
            "Target rates were resolved from the immutable Azure snapshot."@,
            provenance_entries(source_url@, retrieved_at@),
        ),
{
    let mut values: Vec<(String, String)> = Vec::new();
    assert(entries_view(values@) =~= seq![]);
    push_entry(&mut values, "source_url", source_url.to_owned());
    push_entry(&mut values, "retrieved_at", retrieved_at.to_owned());
    step("target_price_provenance", "Target rates were resolved from the immutable Azure snapshot.", values)
}

// ---------------------------------------------------------------------------
// Storage inputs, rate discounts and the VM assumptions.
// ---------------------------------------------------------------------------

/// The storage a resource brings, per instance: its SQL data, its persistent
/// EBS volumes, and the storage configured for it in Azure.
#[derive(Clone, Copy, Debug)]
pub struct StorageInputs {
    pub sql_data_gb_per_instance: DecimalValue,
    pub persistent_ebs_gb_per_instance: DecimalValue,
    pub azure_storage_gb_per_instance: DecimalValue,
}

/// The capacity of the persistent (non-ephemeral) EBS volumes, summed in order
/// from zero; `None` where a partial sum is beyond the decimal type.
pub open spec fn persistent_ebs_total(volumes: Seq<EbsVolume>) -> Option<DecimalValue>
    decreases volumes.len(),
{
    if volumes.len() == 0 {
        Some(dec(0))
    } else {
        let rest = persistent_ebs_total(volumes.drop_last());
        if volumes.last().volume_type == EbsVolumeType::Ephemeral {
            rest
        } else {
            add_of(rest, Some(volumes.last().capacity_gb))
        }
    }
}

/// The capacity of the persistent VM volumes, summed in order from zero.
pub open spec fn persistent_vm_total(volumes: Seq<VmVolume>) -> Option<DecimalValue>
    decreases volumes.len(),
{
    if volumes.len() == 0 {
        Some(dec(0))
    } else {
        let rest = persistent_vm_total(volumes.drop_last());
        if volumes.last().volume_type == EbsVolumeType::Ephemeral {
            rest
        } else {
            add_of(rest, Some(volumes.last().capacity_gb))
        }
    }
}

/// The storage inputs of a resource: a VM's Azure storage is its persistent
/// volumes; a SQL resource's is the managed-instance storage configured for its
/// SQL data and persistent volumes together. `None` where a sum is beyond the
/// decimal type.
pub open spec fn spec_storage_inputs(resource: Resource) -> Option<StorageInputs> {
    let sql_data = match resource.spec_sql() {
        Some(sql) => sql.sql_data_gb_per_instance,
        None => dec(0),
    };
    let persistent = match resource {
        Resource::Ec2(r) => persistent_ebs_total(r.volumes@),
        Resource::Ec2Vm(r) => persistent_vm_total(r.volumes@),
        _ => Some(dec(0)),
    };
    match persistent {
        None => None,
        Some(p) => {
            let azure = if resource is Ec2Vm {
                Some(p)
            } else {
                match add_of(Some(sql_data), Some(p)) {
                    Some(required) => spec_configured_storage(required),
                    None => None,
                }
            };
            match azure {
                Some(a) => Some(
                    StorageInputs {
                        sql_data_gb_per_instance: sql_data,
                        persistent_ebs_gb_per_instance: p,
                        azure_storage_gb_per_instance: a,
                    },
                ),
                None => None,
            }
        },
    }
}

fn ebs_total(volumes: &Vec<EbsVolume>) -> (r: Option<DecimalValue>)
    ensures
        r == persistent_ebs_total(volumes@),
{
    let mut total = Some(DecimalValue::zero());
    let mut i: usize = 0;
    while i < volumes.len()
        invariant
            i <= volumes@.len(),
            total == persistent_ebs_total(volumes@.take(i as int)),
        decreases volumes@.len() - i,
    {
        assert(volumes@.take(i as int + 1).drop_last() =~= volumes@.take(i as int));
        if volumes[i].volume_type != EbsVolumeType::Ephemeral {
            total = crate::decimal::add_opt(total, Some(volumes[i].capacity_gb));
        }
        i = i + 1;
    }
    assert(volumes@.take(i as int) =~= volumes@);
    total
}

fn vm_total(volumes: &Vec<VmVolume>) -> (r: Option<DecimalValue>)
    ensures
        r == persistent_vm_total(volumes@),
{
    let mut total = Some(DecimalValue::zero());
    let mut i: usize = 0;
    while i < volumes.len()
        invariant
            i <= volumes@.len(),
            total == persistent_vm_total(volumes@.take(i as int)),
        decreases volumes@.len() - i,
    {
        assert(volumes@.take(i as int + 1).drop_last() =~= volumes@.take(i as int));
        if volumes[i].volume_type != EbsVolumeType::Ephemeral {
            total = crate::decimal::add_opt(total, Some(volumes[i].capacity_gb));
        }
        i = i + 1;
    }
    assert(volumes@.take(i as int) =~= volumes@);
    total
}

/// The storage inputs of a resource; `None` where a sum is beyond the decimal type.
pub fn storage_inputs_checked(resource: &Resource) -> (r: Option<StorageInputs>)
    ensures
        r == spec_storage_inputs(*resource),
{
    let sql_data = match resource.sql() {
        Some(sql) => sql.sql_data_gb_per_instance,
        None => DecimalValue::zero(),
    };
    let persistent = match resource {
        Resource::Ec2(r) => ebs_total(&r.volumes),
        Resource::Ec2Vm(r) => vm_total(&r.volumes),
        _ => Some(DecimalValue::zero()),
    };
    let p = match persistent {
        Some(p) => p,
        None => {
            return None;
        },
    };
    let azure = match resource {
        Resource::Ec2Vm(_) => Some(p),
        _ => match sql_data.checked_add(p) {
            Some(required) => azure_mi_configured_storage_gb_checked(required),
            None => None,
        },
    };
    match azure {
        Some(a) => Some(
            StorageInputs {
                sql_data_gb_per_instance: sql_data,
                persistent_ebs_gb_per_instance: p,
                azure_storage_gb_per_instance: a,
            },
        ),
        None => None,
    }
}

/// The storage inputs of a resource.
pub fn storage_inputs(resource: &Resource) -> (r: StorageInputs)
    requires
        spec_storage_inputs(*resource) is Some,
    ensures
        Some(r) == spec_storage_inputs(*resource),
{
    storage_inputs_checked(resource).unwrap()
}

/// The discount an applied rate gives against a baseline: `1 - applied /
/// baseline`, at least 0 and at most 1; 0 against a zero baseline. `None` where
/// the quotient or the difference is beyond the decimal type.
pub open spec fn spec_rate_discount(baseline: DecimalValue, applied: DecimalValue) -> Option<DecimalValue> {
    if baseline.units() == 0 {
        Some(dec(0))
    } else {
        match decimal_div(applied, baseline) {
            Some(q) => match decimal_sub(dec(1), q) {
                Some(d) => Some(spec_min(spec_max(d, dec(0)), dec(1))),
                None => None,
            },
            None => None,
        }
    }
}

/// The discount of an applied rate against a baseline; `None` where it is
/// beyond the decimal type.
pub fn rate_discount_checked(baseline: DecimalValue, applied: DecimalValue) -> (r: Option<DecimalValue>)
    ensures
        r == spec_rate_discount(baseline, applied),
{
    if baseline.is_zero() {
        return Some(DecimalValue::zero());
    }
    match applied.checked_div(baseline) {
        Some(q) => match DecimalValue::one().checked_sub(q) {
            Some(d) => Some(d.max(DecimalValue::zero()).min(DecimalValue::one())),
            None => None,
        },
        None => None,
    }
}

/// The discount of an applied rate against a baseline.
pub fn rate_discount(baseline: DecimalValue, applied: DecimalValue) -> (r: DecimalValue)
    requires
        spec_rate_discount(baseline, applied) is Some,
    ensures
        Some(r) == spec_rate_discount(baseline, applied),
{
    rate_discount_checked(baseline, applied).unwrap()
}

pub open spec fn spec_burst_policy_name(policy: VmBurstPolicy) -> Seq<char> {
    match policy {
        VmBurstPolicy::ConfirmedBurstCompatible => "confirmed_burst_compatible"@,
        VmBurstPolicy::RequiresSustainedCpu => "requires_sustained_cpu"@,
        VmBurstPolicy::Unknown => "unknown"@,
        VmBurstPolicy::NotApplicable => "not_applicable"@,
    }
}

pub open spec fn spec_instance_store_name(use_state: VmInstanceStoreUse) -> Seq<char> {
    match use_state {
        VmInstanceStoreUse::Unknown => "unknown"@,
        VmInstanceStoreUse::NotUsed => "not_used"@,
        VmInstanceStoreUse::Used => "used"@,
    }
}

pub open spec fn spec_high_frequency_requirement_name(requirement: VmHighFrequencyRequirement) -> Seq<char> {
    match requirement {
        VmHighFrequencyRequirement::Required => "required"@,
        VmHighFrequencyRequirement::Unknown => "unknown"@,
        VmHighFrequencyRequirement::CapacityFitAccepted => "capacity_fit_accepted"@,
        VmHighFrequencyRequirement::NotApplicable => "not_applicable"@,
    }
}

/// The name of a burst policy in explanations.
pub fn vm_burst_policy_name(policy: VmBurstPolicy) -> (r: &'static str)
    ensures
        r@ == spec_burst_policy_name(policy),
{
    match policy {
        VmBurstPolicy::ConfirmedBurstCompatible => "confirmed_burst_compatible",
        VmBurstPolicy::RequiresSustainedCpu => "requires_sustained_cpu",
        VmBurstPolicy::Unknown => "unknown",
        VmBurstPolicy::NotApplicable => "not_applicable",
    }
}

/// The name of an instance-store use in explanations.
pub fn vm_instance_store_name(use_state: VmInstanceStoreUse) -> (r: &'static str)
    ensures
        r@ == spec_instance_store_name(use_state),
{
    match use_state {
        VmInstanceStoreUse::Unknown => "unknown",
        VmInstanceStoreUse::NotUsed => "not_used",
        VmInstanceStoreUse::Used => "used",
    }
}

/// The name of a high-frequency requirement in explanations.
pub fn vm_high_frequency_requirement_name(requirement: VmHighFrequencyRequirement) -> (r: &'static str)
    ensures
        r@ == spec_high_frequency_requirement_name(requirement),
{
    match requirement {
        VmHighFrequencyRequirement::Required => "required",
        VmHighFrequencyRequirement::Unknown => "unknown",
        VmHighFrequencyRequirement::CapacityFitAccepted => "capacity_fit_accepted",
        VmHighFrequencyRequirement::NotApplicable => "not_applicable",
    }
}

pub open spec fn opt_bool_text(value: Option<bool>) -> Seq<char> {
    match value {
        Some(b) => bool_text(b),
        None => seq![],
    }
}

pub open spec fn opt_text_or_empty(value: Option<String>) -> Seq<char> {
    match value {
        Some(s) => s@,
        None => seq![],
    }
}

/// The explanation of the assumptions applied to an EC2 VM workload.
pub open spec fn spec_vm_assumptions_step(resource: Ec2VmResource) -> StepView {
    let q = resource.requirements;
    step_view("vm_assumptions"@, "The approved first-release EC2 VM assumptions were applied and remain explicit."@, seq![
            ("instance_type"@, resource.instance_type@),
            ("source_operating_system"@, "windows"@),
            ("source_tenancy"@, "shared"@),
            ("source_purchase_option"@, "on_demand"@),
            ("target_license"@, "windows_license_included"@),
            ("azure_hybrid_benefit"@, "false"@),
            ("burst_policy"@, spec_burst_policy_name(q.burst_policy)),
            ("source_instance_store"@, spec_instance_store_name(q.instance_store_use)),
            ("required_local_temp_disk_gb"@, opt_display(q.required_local_temp_disk_gb)),
            ("ephemeral_data_loss_acceptable"@, opt_bool_text(q.ephemeral_data_loss_acceptable)),
            ("high_frequency_requirement"@, spec_high_frequency_requirement_name(q.high_frequency_requirement)),
            ("requested_target_arm_sku"@, opt_text_or_empty(q.requested_target_arm_sku)),
            ("target_topology"@, "one_vm_per_source_vm"@),
            ("disk_topology"@, "one_managed_disk_per_persistent_ebs_volume"@),
        ])
}

/// The explanation of the assumptions applied to an EC2 VM workload.
pub fn vm_assumptions_step(resource: &Ec2VmResource) -> (r: ExplanationStep)
    ensures
        r@ == spec_vm_assumptions_step(*resource),
{
    let q = &resource.requirements;
    let mut values: Vec<(String, String)> = Vec::new();
    assert(entries_view(values@) =~= seq![]);
    push_entry(&mut values, "instance_type", resource.instance_type.clone());
    push_entry(&mut values, "source_operating_system", "windows".to_owned());
    push_entry(&mut values, "source_tenancy", "shared".to_owned());
    push_entry(&mut values, "source_purchase_option", "on_demand".to_owned());
    push_entry(&mut values, "target_license", "windows_license_included".to_owned());
    push_entry(&mut values, "azure_hybrid_benefit", "false".to_owned());
    push_entry(&mut values, "burst_policy", vm_burst_policy_name(q.burst_policy).to_owned());
    push_entry(&mut values, "source_instance_store", vm_instance_store_name(q.instance_store_use).to_owned());
    push_entry(&mut values, "required_local_temp_disk_gb", opt_decimal_text(q.required_local_temp_disk_gb));
    let data_loss = match q.ephemeral_data_loss_acceptable {
        Some(b) => bool_string(b),
        None => String::new(),
    };
    push_entry(&mut values, "ephemeral_data_loss_acceptable", data_loss);
    push_entry(
        &mut values,
        "high_frequency_requirement",
        vm_high_frequency_requirement_name(q.high_frequency_requirement).to_owned(),
    );
    let arm_sku = match &q.requested_target_arm_sku {
        Some(sku) => sku.clone(),
        None => String::new(),
    };
    push_entry(&mut values, "requested_target_arm_sku", arm_sku);
    push_entry(&mut values, "target_topology", "one_vm_per_source_vm".to_owned());
    push_entry(&mut values, "disk_topology", "one_managed_disk_per_persistent_ebs_volume".to_owned());
    step("vm_assumptions", "The approved first-release EC2 VM assumptions were applied and remain explicit.", values)
}

/// The explanation of the effective source sizing inputs; `None` where the
/// required storage is beyond the decimal type.
pub open spec fn spec_source_input_step(
    source_vcpu: u32,
    source_max_iops: u64,
    resource: Resource,
    storage: StorageInputs,
) -> Option<StepView> {
    match add_of(Some(storage.sql_data_gb_per_instance), Some(storage.persistent_ebs_gb_per_instance)) {
        Some(required) => Some(
            step_view("source_inputs"@, "Effective source sizing inputs were applied without consolidation."@, seq![
                    ("source_vcpu"@, decimal_digits(source_vcpu as nat)),
                    ("source_ram_gb"@, decimal_display(resource.spec_shared().source_ram_gb_per_instance)),
                    ("sql_data_gb"@, decimal_display(storage.sql_data_gb_per_instance)),
                    ("persistent_ebs_gb"@, decimal_display(storage.persistent_ebs_gb_per_instance)),
                    ("azure_required_storage_gb"@, decimal_display(required)),
                    ("azure_configured_storage_gb"@, decimal_display(storage.azure_storage_gb_per_instance)),
                    ("source_max_iops"@, decimal_digits(source_max_iops as nat)),
                    ("quantity"@, decimal_digits(resource.spec_shared().quantity as nat)),
                    ("annual_hours_per_instance"@, decimal_display(resource.spec_shared().annual_hours_per_instance)),
                ]),
        ),
        None => None,
    }
}

/// The explanation of the effective source sizing inputs; `None` where the
/// required storage is beyond the decimal type.
pub fn source_input_step_checked(
    source_vcpu: u32,
    source_max_iops: u64,
    resource: &Resource,
    storage: StorageInputs,
) -> (r: Option<ExplanationStep>)
    ensures
        match spec_source_input_step(source_vcpu, source_max_iops, *resource, storage) {
            Some(v) => r matches Some(s) && s@ == v,
            None => r is None,
        },
{
    let required = match storage.sql_data_gb_per_instance.checked_add(storage.persistent_ebs_gb_per_instance) {
        Some(v) => v,
        None => {
            return None;
        },
    };
    let shared = resource.shared();
    let mut values: Vec<(String, String)> = Vec::new();
    assert(entries_view(values@) =~= seq![]);
    push_entry(&mut values, "source_vcpu", u32_text(source_vcpu));
    push_entry(&mut values, "source_ram_gb", shared.source_ram_gb_per_instance.to_string());
    push_entry(&mut values, "sql_data_gb", storage.sql_data_gb_per_instance.to_string());
    push_entry(&mut values, "persistent_ebs_gb", storage.persistent_ebs_gb_per_instance.to_string());
    push_entry(&mut values, "azure_required_storage_gb", required.to_string());
    push_entry(&mut values, "azure_configured_storage_gb", storage.azure_storage_gb_per_instance.to_string());
    push_entry(&mut values, "source_max_iops", u64_text(source_max_iops));
    push_entry(&mut values, "quantity", u32_text(shared.quantity));
    push_entry(&mut values, "annual_hours_per_instance", shared.annual_hours_per_instance.to_string());
    Some(step("source_inputs", "Effective source sizing inputs were applied without consolidation.", values))
}

/// The explanation of the effective source sizing inputs.
pub fn source_input_step(
    source_vcpu: u32,
    source_max_iops: u64,
    resource: &Resource,
    storage: StorageInputs,
) -> (r: ExplanationStep)
    requires
        spec_source_input_step(source_vcpu, source_max_iops, *resource, storage) is Some,
    ensures
        Some(r@) == spec_source_input_step(source_vcpu, source_max_iops, *resource, storage),
{
    source_input_step_checked(source_vcpu, source_max_iops, resource, storage).unwrap()
}

/// A price component left unresolved because a rate set is incomplete.
pub fn cost_unresolved(provider: Provider, error: CostError) -> (r: UnresolvedComponent)
    ensures
        r.provider == Some(provider),
        r.code@ == "incomplete_rate_set"@,
        r.message@ == error.spec_message(),
{
    UnresolvedComponent {
        provider: Some(provider),
        code: "incomplete_rate_set".to_owned(),
        message: error.message().to_owned(),
    }
}

// ---------------------------------------------------------------------------
// Resolved sources.
// ---------------------------------------------------------------------------

/// What is known of a source once its prices are resolved: its sizing, its
/// costs, how fresh its prices are, how they were reached, and what could not
/// be resolved.
#[derive(Clone, Debug)]
pub struct ResolvedSource {
    pub source_vcpu: Option<u32>,
    pub source_max_iops: Option<u64>,
    pub costs: Option<SourceCostBreakdown>,
    pub pricing_status: PricingStatus,
    pub explanation_steps: Vec<ExplanationStep>,
    pub unresolved_components: Vec<UnresolvedComponent>,
}

/// A source whose price record is not available: no sizing, no costs, and one
/// unresolved component of the provider under `code`.
pub fn unavailable_source(provider: Provider, code: &str) -> (r: ResolvedSource)
    ensures
        r.source_vcpu is None,
        r.source_max_iops is None,
        r.costs is None,
        r.pricing_status == PricingStatus::Unavailable,
        r.explanation_steps@.len() == 0,
        r.unresolved_components@.len() == 1,
        r.unresolved_components@[0].provider == Some(provider),
        r.unresolved_components@[0].code@ == code@,
        r.unresolved_components@[0].message@ == "A usable source price record is not available."@,
{
    let mut unresolved: Vec<UnresolvedComponent> = Vec::new();
    unresolved.push(
        UnresolvedComponent {
            provider: Some(provider),
            code: code.to_owned(),
            message: "A usable source price record is not available.".to_owned(),
        },
    );
    ResolvedSource {
        source_vcpu: None,
        source_max_iops: None,
        costs: None,
        pricing_status: PricingStatus::Unavailable,
        explanation_steps: Vec::new(),
        unresolved_components: unresolved,
    }
}

/// An on-premises source needs no price record: its costs come from its own
/// inputs and the project settings, explained by its power estimate and its
/// cost formulas. `None` where a cost is beyond the decimal type.
pub fn resolve_on_prem_source_checked(resource: &OnPremResource, settings: &ProjectSettings) -> (r: Outcome<
    ResolvedSource,
>)
    ensures
        match spec_on_prem_source(*resource, *settings) {
            None => r is None,
            Some(Err(e)) => r == Some(Err::<ResolvedSource, CostError>(e)),
            Some(Ok(result)) => r matches Some(Ok(s)) && {
                &&& s.source_vcpu == Some(resource.source_vcpu)
                &&& s.source_max_iops == Some(resource.source_max_iops)
                &&& s.costs == Some(result.costs)
                &&& s.pricing_status == PricingStatus::NotRequired
                &&& s.explanation_steps@.len() == 2
                &&& s.explanation_steps@[0]@ == spec_on_prem_power_step(result.explanation, *resource)
                &&& s.explanation_steps@[1]@ == spec_on_prem_cost_step(
                    *resource,
                    *settings,
                    result.costs,
                    result.explanation,
                )
                &&& s.unresolved_components@.len() == 0
            },
        },
{
    let result = match calculate_on_prem_source_checked(resource, settings) {
        None => {
            return None;
        },
        Some(Err(e)) => {
            return Some(Err(e));
        },
        Some(Ok(result)) => result,
    };
    let mut steps: Vec<ExplanationStep> = Vec::new();
    steps.push(on_prem_power_step(&result.explanation, resource));
    steps.push(on_prem_cost_formula_step(resource, settings, &result.costs, &result.explanation));
    Some(
        Ok(
            ResolvedSource {
                source_vcpu: Some(resource.source_vcpu),
                source_max_iops: Some(resource.source_max_iops),
                costs: Some(result.costs),
                pricing_status: PricingStatus::NotRequired,
                explanation_steps: steps,
                unresolved_components: Vec::new(),
            },
        ),
    )
}

/// The resolved on-premises source.
pub fn resolve_on_prem_source(resource: &OnPremResource, settings: &ProjectSettings) -> (r: Result<
    ResolvedSource,
    CostError,
>)
    requires
        spec_on_prem_source(*resource, *settings) is Some,
    ensures
        match spec_on_prem_source(*resource, *settings) {
            Some(Err(e)) => r == Err::<ResolvedSource, CostError>(e),
            Some(Ok(result)) => r matches Ok(s) && s.source_vcpu == Some(resource.source_vcpu) && s.source_max_iops
                == Some(resource.source_max_iops) && s.costs == Some(result.costs) && s.pricing_status
                == PricingStatus::NotRequired && s.explanation_steps@.len() == 2 && s.explanation_steps@[0]@
                == spec_on_prem_power_step(result.explanation, *resource) && s.explanation_steps@[1]@
                == spec_on_prem_cost_step(*resource, *settings, result.costs, result.explanation)
                && s.unresolved_components@.len() == 0,
            None => true,
        },
{
    resolve_on_prem_source_checked(resource, settings).unwrap()
}

// ---------------------------------------------------------------------------
// Portfolio totals.
// ---------------------------------------------------------------------------

/// What the portfolio totals read of one resource's calculation.
#[derive(Clone, Copy, Debug)]
pub struct PortfolioRow {
    pub source_costs: Option<SourceCostBreakdown>,
    pub azure_costs: Option<AzureCostBreakdown>,
    pub mapping_status: Option<MappingStatus>,
    pub aws_pricing_status: PricingStatus,
    pub azure_pricing_status: PricingStatus,
}

/// The totals over a portfolio of resources.
#[derive(Clone, Copy, Debug)]
pub struct PortfolioTotals {
    pub aws_all_rows_total: Option<DecimalValue>,
    pub aws_mapped_rows_total: DecimalValue,
    pub azure_mapped_rows_total: DecimalValue,
    pub required_portfolio_adjustment: DecimalValue,
    pub selected_parity_adjustment: DecimalValue,
    pub portfolio_after_selected_parity: DecimalValue,
    pub portfolio_difference: DecimalValue,
    pub comparable_resource_count: usize,
    pub no_mapping_resource_count: usize,
    pub price_unavailable_resource_count: usize,
}

/// A row is comparable when both its source and its Azure costs are known.
pub open spec fn comparable_row(row: PortfolioRow) -> bool {
    row.source_costs is Some && row.azure_costs is Some
}

/// A row whose prices are unavailable on either side.
pub open spec fn unavailable_row(row: PortfolioRow) -> bool {
    row.aws_pricing_status == PricingStatus::Unavailable || row.azure_pricing_status == PricingStatus::Unavailable
}

/// The source totals of the rows that have one, summed in order from zero.
pub open spec fn source_rows_total(rows: Seq<PortfolioRow>) -> Option<DecimalValue>
    decreases rows.len(),
{
    if rows.len() == 0 {
        Some(dec(0))
    } else {
        match rows.last().source_costs {
            Some(c) => add_of(source_rows_total(rows.drop_last()), Some(c.total)),
            None => source_rows_total(rows.drop_last()),
        }
    }
}

/// The source totals of the comparable rows, summed in order from zero.
pub open spec fn mapped_source_total(rows: Seq<PortfolioRow>) -> Option<DecimalValue>
    decreases rows.len(),
{
    if rows.len() == 0 {
        Some(dec(0))
    } else if comparable_row(rows.last()) {
        add_of(mapped_source_total(rows.drop_last()), Some(rows.last().source_costs.unwrap().total))
    } else {
        mapped_source_total(rows.drop_last())
    }
}

/// The Azure totals before parity of the comparable rows, summed in order from zero.
pub open spec fn mapped_azure_total(rows: Seq<PortfolioRow>) -> Option<DecimalValue>
    decreases rows.len(),
{
    if rows.len() == 0 {
        Some(dec(0))
    } else if comparable_row(rows.last()) {
        add_of(mapped_azure_total(rows.drop_last()), Some(rows.last().azure_costs.unwrap().total_before_parity))
    } else {
        mapped_azure_total(rows.drop_last())
    }
}

pub open spec fn comparable_count(rows: Seq<PortfolioRow>) -> nat
    decreases rows.len(),
{
    if rows.len() == 0 {
        0
    } else {
        comparable_count(rows.drop_last()) + if comparable_row(rows.last()) { 1nat } else { 0nat }
    }
}

pub open spec fn no_mapping_count(rows: Seq<PortfolioRow>) -> nat
    decreases rows.len(),
{
    if rows.len() == 0 {
        0
    } else {
        no_mapping_count(rows.drop_last()) + if rows.last().mapping_status == Some(MappingStatus::NoMapping) {
            1nat
        } else {
            0nat
        }
    }
}

pub open spec fn unavailable_count(rows: Seq<PortfolioRow>) -> nat
    decreases rows.len(),
{
    if rows.len() == 0 {
        0
    } else {
        unavailable_count(rows.drop_last()) + if unavailable_row(rows.last()) { 1nat } else { 0nat }
    }
}

/// The portfolio totals: the source total of all rows (only where every row has
/// one), the source and Azure totals of the comparable rows, the adjustment
/// that makes them equal (`1 - aws / azure`, 0 for a zero Azure total), the
/// Azure total after the selected adjustment and its difference to the source,
/// and the counts of comparable, unmapped and unpriced rows. `None` where a sum,
/// quotient, product or difference is beyond the decimal type.
pub open spec fn spec_portfolio(rows: Seq<PortfolioRow>, selected: DecimalValue) -> Option<PortfolioTotals> {
    let all_available = forall|i: int| 0 <= i < rows.len() ==> (#[trigger] rows[i]).source_costs is Some;
    let all_total: Option<Option<DecimalValue>> = if all_available {
        match source_rows_total(rows) {
            Some(t) => Some(Some(t)),
            None => None,
        }
    } else {
        Some(None)
    };
    match (all_total, mapped_source_total(rows), mapped_azure_total(rows)) {
        (Some(aws_all), Some(aws), Some(azure)) => {
            let required = if azure.units() == 0 {
                Some(dec(0))
            } else {
                sub_of(Some(dec(1)), div_of(Some(aws), Some(azure)))
            };
            let after = mul_of(Some(azure), sub_of(Some(dec(1)), Some(selected)));
            match (required, after, sub_of(after, Some(aws))) {
                (Some(req), Some(aft), Some(diff)) => Some(
                    PortfolioTotals {
                        aws_all_rows_total: aws_all,
                        aws_mapped_rows_total: aws,
                        azure_mapped_rows_total: azure,
                        required_portfolio_adjustment: req,
                        selected_parity_adjustment: selected,
                        portfolio_after_selected_parity: aft,
                        portfolio_difference: diff,
                        comparable_resource_count: comparable_count(rows) as usize,
                        no_mapping_resource_count: no_mapping_count(rows) as usize,
                        price_unavailable_resource_count: unavailable_count(rows) as usize,
                    },
                ),
                _ => None,
            }
        },
        _ => None,
    }
}

proof fn lemma_counts_bounded(rows: Seq<PortfolioRow>)
    ensures
        comparable_count(rows) <= rows.len(),
        no_mapping_count(rows) <= rows.len(),
        unavailable_count(rows) <= rows.len(),
    decreases rows.len(),
{
    if rows.len() > 0 {
        lemma_counts_bounded(rows.drop_last());
    }
}

/// The portfolio totals over the rows; `None` where a figure is beyond the
/// decimal type.
pub fn calculate_portfolio_checked(rows: &Vec<PortfolioRow>, selected: DecimalValue) -> (r: Option<PortfolioTotals>)
    ensures
        r == spec_portfolio(rows@, selected),
{
    let mut all_available = true;
    let mut source_total = Some(DecimalValue::zero());
    let mut aws = Some(DecimalValue::zero());
    let mut azure = Some(DecimalValue::zero());
    let mut comparable: usize = 0;
    let mut no_mapping: usize = 0;
    let mut unavailable: usize = 0;
    let mut i: usize = 0;
    while i < rows.len()
        invariant
            i <= rows@.len(),
            all_available == (forall|j: int| 0 <= j < i ==> (#[trigger] rows@[j]).source_costs is Some),
            source_total == source_rows_total(rows@.take(i as int)),
            aws == mapped_source_total(rows@.take(i as int)),
            azure == mapped_azure_total(rows@.take(i as int)),
            comparable == comparable_count(rows@.take(i as int)),
            no_mapping == no_mapping_count(rows@.take(i as int)),
            unavailable == unavailable_count(rows@.take(i as int)),
        decreases rows@.len() - i,
    {
        let ghost prefix = rows@.take(i as int + 1);
        assert(prefix.drop_last() =~= rows@.take(i as int));
        assert(prefix.last() == rows@[i as int]);
        proof {
            lemma_counts_bounded(rows@.take(i as int));
        }
        let row = &rows[i];
        match &row.source_costs {
            Some(c) => {
                source_total = add_opt(source_total, Some(c.total));
            },
            None => {
                all_available = false;
            },
        }
        match (&row.source_costs, &row.azure_costs) {
            (Some(c), Some(a)) => {
                aws = add_opt(aws, Some(c.total));
                azure = add_opt(azure, Some(a.total_before_parity));
                comparable = comparable + 1;
            },
            _ => {},
        }
        match row.mapping_status {
            Some(MappingStatus::NoMapping) => {
                no_mapping = no_mapping + 1;
            },
            _ => {},
        }
        if row.aws_pricing_status == PricingStatus::Unavailable || row.azure_pricing_status
            == PricingStatus::Unavailable {
            unavailable = unavailable + 1;
        }
        i = i + 1;
    }
    assert(rows@.take(i as int) =~= rows@);
    let aws_all = if all_available {
        match source_total {
            Some(t) => Some(t),
            None => {
                return None;
            },
        }
    } else {
        None
    };
    let (aws, azure) = match (aws, azure) {
        (Some(a), Some(z)) => (a, z),
        _ => {
            return None;
        },
    };
    let required = if azure.is_zero() {
        Some(DecimalValue::zero())
    } else {
        sub_opt(Some(DecimalValue::one()), aws.checked_div(azure))
    };
    let after = mul_opt(Some(azure), DecimalValue::one().checked_sub(selected));
    let difference = sub_opt(after, Some(aws));
    match (required, after, difference) {
        (Some(req), Some(aft), Some(diff)) => Some(
            PortfolioTotals {
                aws_all_rows_total: aws_all,
                aws_mapped_rows_total: aws,
                azure_mapped_rows_total: azure,
                required_portfolio_adjustment: req,
                selected_parity_adjustment: selected,
                portfolio_after_selected_parity: aft,
                portfolio_difference: diff,
                comparable_resource_count: comparable,
                no_mapping_resource_count: no_mapping,
                price_unavailable_resource_count: unavailable,
            },
        ),
        _ => None,
    }
}

/// The portfolio totals over the rows.
pub fn calculate_portfolio(rows: &Vec<PortfolioRow>, selected: DecimalValue) -> (r: PortfolioTotals)
    requires
        spec_portfolio(rows@, selected) is Some,
    ensures
        Some(r) == spec_portfolio(rows@, selected),
{
    calculate_portfolio_checked(rows, selected).unwrap()
}

/// A row without both costs (no mapping, or a price unavailable) is left out of
/// the parity totals: adding it changes neither mapped total nor the count of
/// comparable rows.
pub proof fn lemma_incomparable_rows_leave_parity_totals(rows: Seq<PortfolioRow>, row: PortfolioRow)
    requires
        !comparable_row(row),
    ensures
        mapped_source_total(rows.push(row)) == mapped_source_total(rows),
        mapped_azure_total(rows.push(row)) == mapped_azure_total(rows),
        comparable_count(rows.push(row)) == comparable_count(rows),
{
    assert(rows.push(row).drop_last() =~= rows);
}

/// What the portfolio counts count: adding a row to a portfolio adds one to the
/// comparable rows exactly when the row has both its source and its Azure costs,
/// one to the unmapped rows exactly when the row has no mapping, and one to the
/// rows without a price exactly when its AWS or its Azure price is unavailable;
/// an empty portfolio counts nothing. The totals carry the selected adjustment
/// given, and a total of all rows exactly when every row has its source costs.
pub proof fn lemma_portfolio_counts(rows: Seq<PortfolioRow>, row: PortfolioRow, selected: DecimalValue)
    requires
        rows.len() + 1 <= usize::MAX,
    ensures
        spec_portfolio(Seq::<PortfolioRow>::empty(), selected) matches Some(t) ==> t.comparable_resource_count == 0
            && t.no_mapping_resource_count == 0 && t.price_unavailable_resource_count == 0,
        spec_portfolio(rows, selected) matches Some(t1) ==> (spec_portfolio(rows.push(row), selected) matches Some(t2)
            ==> {
            &&& t2.comparable_resource_count == t1.comparable_resource_count + if row.source_costs is Some
                && row.azure_costs is Some {
                1int
            } else {
                0int
            }
            &&& t2.no_mapping_resource_count == t1.no_mapping_resource_count + if row.mapping_status == Some(
                MappingStatus::NoMapping,
            ) {
                1int
            } else {
                0int
            }
            &&& t2.price_unavailable_resource_count == t1.price_unavailable_resource_count + if row.aws_pricing_status
                == PricingStatus::Unavailable || row.azure_pricing_status == PricingStatus::Unavailable {
                1int
            } else {
                0int
            }
        }),
        spec_portfolio(rows, selected) matches Some(t) ==> t.selected_parity_adjustment == selected && (
        t.aws_all_rows_total is Some <==> forall|i: int| 0 <= i < rows.len() ==> (#[trigger] rows[i]).source_costs is Some),
{
    lemma_counts_bounded(rows);
    lemma_counts_bounded(rows.push(row));
    assert(rows.push(row).drop_last() =~= rows);
}

/// What the portfolio totals add up: a row with both its source and its Azure
/// costs adds its source total to the mapped AWS total and its Azure total before
/// parity to the mapped Azure total, and any other row adds to neither; a row
/// adds its source total to the total of all rows; an empty portfolio totals
/// zero. The required adjustment is 0 for a zero mapped Azure total and
/// otherwise one less the mapped AWS total over the mapped Azure total; Azure
/// after the selected adjustment is the mapped Azure total times one less it,
/// and the difference is that less the mapped AWS total.
pub proof fn lemma_portfolio_totals(rows: Seq<PortfolioRow>, row: PortfolioRow, selected: DecimalValue)
    ensures
        spec_portfolio(Seq::<PortfolioRow>::empty(), selected) matches Some(t) ==> t.aws_mapped_rows_total
            == DecimalValue::integer_value(0) && t.azure_mapped_rows_total == DecimalValue::integer_value(0)
            && t.aws_all_rows_total == Some(DecimalValue::integer_value(0)),
        spec_portfolio(rows, selected) matches Some(t1) ==> (spec_portfolio(rows.push(row), selected) matches Some(t2)
            ==> {
            &&& (row.source_costs is Some && row.azure_costs is Some) ==> {
                &&& Some(t2.aws_mapped_rows_total) == decimal_add(
                    t1.aws_mapped_rows_total,
                    row.source_costs.unwrap().total,
                )
                &&& Some(t2.azure_mapped_rows_total) == decimal_add(
                    t1.azure_mapped_rows_total,
                    row.azure_costs.unwrap().total_before_parity,
                )
            }
            &&& !(row.source_costs is Some && row.azure_costs is Some) ==> {
                &&& t2.aws_mapped_rows_total == t1.aws_mapped_rows_total
                &&& t2.azure_mapped_rows_total == t1.azure_mapped_rows_total
            }
            &&& (t2.aws_all_rows_total is Some ==> t1.aws_all_rows_total is Some && row.source_costs is Some
                && Some(t2.aws_all_rows_total.unwrap()) == decimal_add(
                t1.aws_all_rows_total.unwrap(),
                row.source_costs.unwrap().total,
            ))
        }),
        spec_portfolio(rows, selected) matches Some(t) ==> {
            &&& t.azure_mapped_rows_total.units() == 0 ==> t.required_portfolio_adjustment
                == DecimalValue::integer_value(0)
            &&& t.azure_mapped_rows_total.units() != 0 ==> Some(t.required_portfolio_adjustment) == sub_of(
                Some(DecimalValue::integer_value(1)),
                decimal_div(t.aws_mapped_rows_total, t.azure_mapped_rows_total),
            )
            &&& Some(t.portfolio_after_selected_parity) == mul_of(
                Some(t.azure_mapped_rows_total),
                decimal_sub(DecimalValue::integer_value(1), selected),
            )
            &&& Some(t.portfolio_difference) == decimal_sub(t.portfolio_after_selected_parity, t.aws_mapped_rows_total)
        },
{
    let next = rows.push(row);
    assert(next.drop_last() =~= rows);
    assert(next.last() == row);
    if forall|i: int| 0 <= i < next.len() ==> (#[trigger] next[i]).source_costs is Some {
        assert forall|i: int| 0 <= i < rows.len() implies (#[trigger] rows[i]).source_costs is Some by {
            assert(next[i] == rows[i]);
        }
        assert(next[rows.len() as int] == row);
    }
}

/// A purchase option's discount against a baseline rate is one less the option's
/// rate over the baseline, kept within 0 and 1, and nothing for a zero baseline.
pub proof fn lemma_rate_discount(baseline: DecimalValue, applied: DecimalValue)
    ensures
        spec_rate_discount(baseline, applied) matches Some(d) ==> {
            &&& 0 <= d.units() <= crate::decimal::int_units(1)
            &&& baseline.units() == 0 ==> d.units() == 0
            &&& baseline.units() != 0 ==> (decimal_div(applied, baseline) matches Some(q) && decimal_sub(
                DecimalValue::integer_value(1),
                q,
            ) matches Some(r) && d.units() == (if r.units() < 0 {
                0
            } else if r.units() > crate::decimal::int_units(1) {
                crate::decimal::int_units(1)
            } else {
                r.units()
            }))
        },
{
    DecimalValue::lemma_integer_units(0);
    DecimalValue::lemma_integer_units(1);
}

/// The persistent EBS capacity: no volumes hold nothing, an ephemeral volume adds
/// nothing, and any other volume adds its capacity.
pub proof fn lemma_persistent_ebs_total(volumes: Seq<EbsVolume>, v: EbsVolume)
    ensures
        persistent_ebs_total(Seq::<EbsVolume>::empty()) == Some(DecimalValue::integer_value(0)),
        v.volume_type == EbsVolumeType::Ephemeral ==> persistent_ebs_total(volumes.push(v)) == persistent_ebs_total(
            volumes,
        ),
        v.volume_type != EbsVolumeType::Ephemeral ==> persistent_ebs_total(volumes.push(v)) == (match persistent_ebs_total(
            volumes,
        ) {
            Some(t) => decimal_add(t, v.capacity_gb),
            None => None,
        }),
{
    assert(volumes.push(v).drop_last() =~= volumes);
}

/// The storage inputs of a SQL workload: its SQL data per instance, its
/// persistent volume capacity (its persistent EBS volumes on EC2, none on RDS or
/// on premises), and as Azure storage the managed-instance storage configured
/// for the two together.
pub proof fn lemma_storage_inputs(resource: Resource)
    ensures
        spec_storage_inputs(resource) matches Some(s) ==> {
            &&& resource.spec_sql() matches Some(sql) ==> s.sql_data_gb_per_instance == sql.sql_data_gb_per_instance
            &&& resource matches Resource::Ec2(r) ==> Some(s.persistent_ebs_gb_per_instance) == persistent_ebs_total(
                r.volumes@,
            )
            &&& (resource is Rds || resource is OnPrem) ==> s.persistent_ebs_gb_per_instance
                == DecimalValue::integer_value(0)
            &&& !(resource is Ec2Vm) ==> Some(s.azure_storage_gb_per_instance) == (match decimal_add(
                s.sql_data_gb_per_instance,
                s.persistent_ebs_gb_per_instance,
            ) {
                Some(required) => spec_configured_storage(required),
                None => None,
            })
        },
{
}

} // verus!
