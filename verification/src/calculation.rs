use vstd::prelude::*;

use crate::cost::{
    spec_azure, spec_ec2_source, spec_on_prem_source, spec_rds_source, spec_source_max_iops, AzureCostBreakdown,
    AzureRate, CostError, EbsRate, Ec2Rate, RdsRate, SourceCostBreakdown,
};
use crate::cost::{calculate_azure_checked, calculate_ec2_source_checked, calculate_rds_source_checked, source_max_iops};
use crate::decimal::DecimalValue;
use crate::pricing::Provider;
use crate::project::{issue_views, spec_validation_issues, EditableProject, ProjectSettings, ValidationIssue};
use crate::resource::ProjectType;
use crate::repository::copy_settings;
use crate::resource::{duplicate_resources, same_resources};
use crate::sql_payg::{analysis_matches, calculate_checked, spec_payg_error, spec_payg_figures, SqlPaygAnalysis, SqlPaygInput};
use crate::workflow::{
    calculate_portfolio_checked, comparable_count, mapped_azure_total, mapped_source_total, no_mapping_count, spec_portfolio,
    PortfolioRow, PortfolioTotals,
};
use crate::resource::{Ec2Resource, OnPremResource, PurchaseOption, RdsDeployment, RdsResource, Resource};
use std::sync::Arc;

use crate::cost::{calculate_savings_checked, spec_savings, SavingsBreakdown};
use crate::decimal::{decimal_sub, spec_max};
use crate::target_selector::{
    select_target_checked, selection_matches, spec_choice, spec_request_error, spec_requested_tier,
    CapabilityCatalog, MappingStatus, SelectedTarget, TargetCandidate, TargetSelection, TargetSelectionRequest,
};
use crate::workflow::{
    parity_formula_step, savings_formula_step, source_cost_formula_step_checked, source_input_step_checked,
    spec_parity_step, spec_savings_step, spec_source_cost_step, spec_source_input_step, spec_storage_inputs,
    storage_inputs_checked, CalculationError, StorageInputs,
};
use crate::warnings::{relevant_for_resources, relevant_warnings};
use crate::text::{bytes_order, lemma_lex_less_asymmetric, lemma_lex_less_transitive, lemma_lex_total, lex_less, text_equals};
use vstd::utf8::encode_utf8;
use crate::workflow::{
    step_view, resolve_on_prem_source_checked, source_provenance_step, spec_on_prem_cost_step, spec_on_prem_power_step,
    unavailable_source, ResolvedSource,
};
use crate::workflow::{
    azure_cost_formula_step_checked, cost_unresolved, provenance_entries, rate_discount_checked, spec_azure_cost_step,
    spec_rate_discount, target_provenance_step, ExplanationStep, PricingStatus, StepView, UnresolvedComponent,
};

verus! {

// ---------------------------------------------------------------------------
// What a calculation reads of the price snapshots.
// ---------------------------------------------------------------------------

/// How a price snapshot was resolved.
#[derive(Clone, Copy, Debug, PartialEq, Eq, Structural)]
pub enum ResolutionStatus {
    Fresh,
    Cached,
    Stale,
    Unavailable,
}

pub open spec fn spec_pricing_status(status: ResolutionStatus) -> PricingStatus {
    match status {
        ResolutionStatus::Fresh => PricingStatus::Fresh,
        ResolutionStatus::Cached => PricingStatus::Cached,
        ResolutionStatus::Stale => PricingStatus::Stale,
        ResolutionStatus::Unavailable => PricingStatus::Unavailable,
    }
}

/// The pricing status a result reports for a snapshot's resolution.
pub fn pricing_status(status: ResolutionStatus) -> (r: PricingStatus)
    ensures
        r == spec_pricing_status(status),
{
    match status {
        ResolutionStatus::Fresh => PricingStatus::Fresh,
        ResolutionStatus::Cached => PricingStatus::Cached,
        ResolutionStatus::Stale => PricingStatus::Stale,
        ResolutionStatus::Unavailable => PricingStatus::Unavailable,
    }
}

/// One managed-instance rate of an Azure snapshot: a configuration under one
/// purchase option, and where the rate was published.
#[derive(Clone, Debug)]
pub struct MiRateRecord {
    pub configuration_key: String,
    pub purchase_option: PurchaseOption,
    pub rate: AzureRate,
    pub source_url: String,
}

/// What a calculation reads of an Azure price snapshot: its identity and scope,
/// how it was resolved, its warnings (a calculation keeps those that concern
/// the submitted resources), and its managed-instance rates, looked up by
/// configuration and purchase option (the first record that matches).
#[derive(Clone, Debug)]
pub struct AzureSnapshotPrices {
    pub snapshot_id: String,
    pub currency: String,
    pub target_region: String,
    pub retrieved_at: String,
    pub status: ResolutionStatus,
    pub warnings: Vec<String>,
    pub mi_rates: Vec<MiRateRecord>,
}

/// The index of the first element that satisfies `p`.
pub open spec fn first_match<T>(s: Seq<T>, p: spec_fn(T) -> bool) -> Option<int>
    decreases s.len(),
{
    if s.len() == 0 {
        None
    } else {
        match first_match(s.drop_last(), p) {
            Some(i) => Some(i),
            None => if p(s.last()) {
                Some(s.len() - 1)
            } else {
                None
            },
        }
    }
}

/// A first match is a match, and nothing before it matches.
pub proof fn lemma_first_match<T>(s: Seq<T>, p: spec_fn(T) -> bool)
    ensures
        match first_match(s, p) {
            Some(i) => 0 <= i < s.len() && p(s[i]) && forall|j: int| 0 <= j < i ==> !p(#[trigger] s[j]),
            None => forall|j: int| 0 <= j < s.len() ==> !p(#[trigger] s[j]),
        },
    decreases s.len(),
{
    if s.len() > 0 {
        lemma_first_match(s.drop_last(), p);
        assert forall|j: int| 0 <= j < s.len() - 1 implies #[trigger] s[j] == s.drop_last()[j] by {}
    }
}

/// Scanning a prefix: a match found in a prefix is the first match of the whole.
pub proof fn lemma_first_match_prefix<T>(s: Seq<T>, p: spec_fn(T) -> bool, k: int)
    requires
        0 <= k <= s.len(),
        first_match(s.take(k), p) is Some,
    ensures
        first_match(s, p) == first_match(s.take(k), p),
    decreases s.len(),
{
    if k == s.len() {
        assert(s.take(k) =~= s);
    } else {
        assert(s.drop_last().take(k) =~= s.take(k));
        lemma_first_match_prefix(s.drop_last(), p, k);
    }
}

/// Extending a prefix without a match by one element.
pub proof fn lemma_first_match_step<T>(s: Seq<T>, p: spec_fn(T) -> bool, k: int)
    requires
        0 <= k < s.len(),
        first_match(s.take(k), p) is None,
    ensures
        first_match(s.take(k + 1), p) == (if p(s[k]) {
            Some(k)
        } else {
            None::<int>
        }),
{
    assert(s.take(k + 1).drop_last() =~= s.take(k));
}

pub open spec fn mi_rate_matches(key: Seq<char>, option: PurchaseOption) -> spec_fn(MiRateRecord) -> bool {
    |r: MiRateRecord| r.configuration_key@ == key && r.purchase_option == option
}

/// The managed-instance rate record of a configuration under a purchase option.
pub open spec fn spec_mi_rate(prices: AzureSnapshotPrices, key: Seq<char>, option: PurchaseOption) -> Option<MiRateRecord> {
    match first_match(prices.mi_rates@, mi_rate_matches(key, option)) {
        Some(i) => Some(prices.mi_rates@[i]),
        None => None,
    }
}

/// The managed-instance rate record of a configuration under a purchase option.
pub fn find_mi_rate<'a>(prices: &'a AzureSnapshotPrices, key: &str, option: PurchaseOption) -> (r: Option<&'a MiRateRecord>)
    ensures
        match spec_mi_rate(*prices, key@, option) {
            Some(x) => r matches Some(y) && *y == x,
            None => r is None,
        },
{
    let ghost p = mi_rate_matches(key@, option);
    let ghost s = prices.mi_rates@;
    let mut i: usize = 0;
    assert(s.take(0) =~= Seq::<MiRateRecord>::empty());
    while i < prices.mi_rates.len()
        invariant
            i <= s.len(),
            s == prices.mi_rates@,
            p == mi_rate_matches(key@, option),
            first_match(s.take(i as int), p) is None,
        decreases s.len() - i,
    {
        proof {
            lemma_first_match_step(s, p, i as int);
        }
        let record = &prices.mi_rates[i];
        if text_equals(record.configuration_key.as_str(), key) && record.purchase_option == option {
            proof {
                lemma_first_match_prefix(s, p, i + 1);
            }
            return Some(record);
        }
        i = i + 1;
    }
    assert(s.take(i as int) =~= s);
    None
}

/// Every purchase option has a rate for the configuration.
pub open spec fn spec_complete_mi_rate_set(prices: AzureSnapshotPrices, key: Seq<char>) -> bool {
    &&& spec_mi_rate(prices, key, PurchaseOption::Payg) is Some
    &&& spec_mi_rate(prices, key, PurchaseOption::Ahb) is Some
    &&& spec_mi_rate(prices, key, PurchaseOption::OneYear) is Some
    &&& spec_mi_rate(prices, key, PurchaseOption::AhbOneYear) is Some
    &&& spec_mi_rate(prices, key, PurchaseOption::ThreeYear) is Some
    &&& spec_mi_rate(prices, key, PurchaseOption::AhbThreeYear) is Some
    &&& spec_mi_rate(prices, key, PurchaseOption::SavingsOneYear) is Some
    &&& spec_mi_rate(prices, key, PurchaseOption::AhbSavingsOneYear) is Some
}

/// Whether the snapshot prices the configuration under all eight purchase options.
pub fn has_complete_mi_rate_set(prices: &AzureSnapshotPrices, key: &str) -> (r: bool)
    ensures
        r == spec_complete_mi_rate_set(*prices, key@),
{
    find_mi_rate(prices, key, PurchaseOption::Payg).is_some() && find_mi_rate(prices, key, PurchaseOption::Ahb).is_some()
        && find_mi_rate(prices, key, PurchaseOption::OneYear).is_some() && find_mi_rate(
        prices,
        key,
        PurchaseOption::AhbOneYear,
    ).is_some() && find_mi_rate(prices, key, PurchaseOption::ThreeYear).is_some() && find_mi_rate(
        prices,
        key,
        PurchaseOption::AhbThreeYear,
    ).is_some() && find_mi_rate(prices, key, PurchaseOption::SavingsOneYear).is_some() && find_mi_rate(
        prices,
        key,
        PurchaseOption::AhbSavingsOneYear,
    ).is_some()
}

// ---------------------------------------------------------------------------
// Views of unresolved components and explanation steps.
// ---------------------------------------------------------------------------

/// An unresolved component as plain values: (provider, code, message).
pub type UnresolvedView = (Option<Provider>, Seq<char>, Seq<char>);

pub open spec fn unresolved_view(u: UnresolvedComponent) -> UnresolvedView {
    (u.provider, u.code@, u.message@)
}

pub open spec fn unresolved_views(s: Seq<UnresolvedComponent>) -> Seq<UnresolvedView> {
    s.map_values(|u: UnresolvedComponent| unresolved_view(u))
}

pub open spec fn step_views(s: Seq<ExplanationStep>) -> Seq<StepView> {
    s.map_values(|x: ExplanationStep| x@)
}

/// The component left unresolved by a cost error.
pub open spec fn cost_unresolved_view(provider: Provider, error: CostError) -> UnresolvedView {
    (Some(provider), "incomplete_rate_set"@, error.spec_message())
}

fn unresolved(provider: Provider, code: &str, message: &str) -> (r: Vec<UnresolvedComponent>)
    ensures
        unresolved_views(r@) == seq![(Some(provider), code@, message@)],
{
    let mut v: Vec<UnresolvedComponent> = Vec::new();
    v.push(UnresolvedComponent { provider: Some(provider), code: code.to_owned(), message: message.to_owned() });
    assert(unresolved_views(v@) =~= seq![(Some(provider), code@, message@)]);
    v
}

fn one_cost_unresolved(provider: Provider, error: CostError) -> (r: Vec<UnresolvedComponent>)
    ensures
        unresolved_views(r@) == seq![cost_unresolved_view(provider, error)],
{
    let mut v: Vec<UnresolvedComponent> = Vec::new();
    v.push(cost_unresolved(provider, error));
    assert(unresolved_views(v@) =~= seq![cost_unresolved_view(provider, error)]);
    v
}

// ---------------------------------------------------------------------------
// Azure target costs.
// ---------------------------------------------------------------------------

/// The discounts each purchase option gives against pay-as-you-go: compute for
/// reservations and the savings plan, license for the hybrid benefit.
#[derive(Clone, Copy, Debug)]
pub struct PurchaseOptionDiscounts {
    pub payg: DecimalValue,
    pub one_year_reserved: DecimalValue,
    pub three_year_reserved: DecimalValue,
    pub one_year_savings_plan: DecimalValue,
    pub azure_hybrid_benefit: DecimalValue,
}

/// The purchase-option discounts of a configuration: `None` inside when a needed
/// rate is missing; the outer `None` where a discount is beyond the decimal type.
pub open spec fn spec_purchase_option_discounts(prices: AzureSnapshotPrices, key: Seq<char>) -> Option<
    Option<PurchaseOptionDiscounts>,
> {
    match (
        spec_mi_rate(prices, key, PurchaseOption::Payg),
        spec_mi_rate(prices, key, PurchaseOption::Ahb),
        spec_mi_rate(prices, key, PurchaseOption::OneYear),
        spec_mi_rate(prices, key, PurchaseOption::ThreeYear),
        spec_mi_rate(prices, key, PurchaseOption::SavingsOneYear),
    ) {
        (Some(payg), Some(ahb), Some(one), Some(three), Some(savings)) => match (
            spec_rate_discount(payg.rate.compute_hourly, one.rate.compute_hourly),
            spec_rate_discount(payg.rate.compute_hourly, three.rate.compute_hourly),
            spec_rate_discount(payg.rate.compute_hourly, savings.rate.compute_hourly),
            spec_rate_discount(payg.rate.license_hourly, ahb.rate.license_hourly),
        ) {
            (Some(a), Some(b), Some(c), Some(d)) => Some(
                Some(
                    PurchaseOptionDiscounts {
                        payg: DecimalValue::integer_value(0),
                        one_year_reserved: a,
                        three_year_reserved: b,
                        one_year_savings_plan: c,
                        azure_hybrid_benefit: d,
                    },
                ),
            ),
            _ => None,
        },
        _ => Some(None),
    }
}

/// The purchase-option discounts of a configuration; `None` inside when a needed
/// rate is missing, the outer `None` where a discount is beyond the decimal type.
pub fn purchase_option_discounts_checked(prices: &AzureSnapshotPrices, key: &str) -> (r: Option<
    Option<PurchaseOptionDiscounts>,
>)
    ensures
        r == spec_purchase_option_discounts(*prices, key@),
{
    let payg = find_mi_rate(prices, key, PurchaseOption::Payg);
    let ahb = find_mi_rate(prices, key, PurchaseOption::Ahb);
    let one = find_mi_rate(prices, key, PurchaseOption::OneYear);
    let three = find_mi_rate(prices, key, PurchaseOption::ThreeYear);
    let savings = find_mi_rate(prices, key, PurchaseOption::SavingsOneYear);
    match (payg, ahb, one, three, savings) {
        (Some(payg), Some(ahb), Some(one), Some(three), Some(savings)) => {
            let a = rate_discount_checked(payg.rate.compute_hourly, one.rate.compute_hourly);
            let b = rate_discount_checked(payg.rate.compute_hourly, three.rate.compute_hourly);
            let c = rate_discount_checked(payg.rate.compute_hourly, savings.rate.compute_hourly);
            let d = rate_discount_checked(payg.rate.license_hourly, ahb.rate.license_hourly);
            match (a, b, c, d) {
                (Some(a), Some(b), Some(c), Some(d)) => Some(
                    Some(
                        PurchaseOptionDiscounts {
                            payg: DecimalValue::zero(),
                            one_year_reserved: a,
                            three_year_reserved: b,
                            one_year_savings_plan: c,
                            azure_hybrid_benefit: d,
                        },
                    ),
                ),
                _ => None,
            }
        },
        _ => Some(None),
    }
}

/// How a selected target's Azure costs were resolved, as plain values: the
/// costs, the purchase-option discounts, the pricing status, what stayed
/// unresolved, and the explanation steps.
pub type AzureResolutionView = (
    Option<AzureCostBreakdown>,
    Option<PurchaseOptionDiscounts>,
    PricingStatus,
    Seq<UnresolvedView>,
    Seq<StepView>,
);

/// How a selected target's Azure costs were resolved.
pub type AzureResolution = (
    Option<AzureCostBreakdown>,
    Option<PurchaseOptionDiscounts>,
    PricingStatus,
    Vec<UnresolvedComponent>,
    Vec<ExplanationStep>,
);

pub open spec fn azure_resolution_view(r: AzureResolution) -> AzureResolutionView {
    (r.0, r.1, r.2, unresolved_views(r.3@), step_views(r.4@))
}

pub open spec fn azure_unresolved(code: Seq<char>, message: Seq<char>) -> AzureResolutionView {
    (None, None, PricingStatus::Unavailable, seq![(Some(Provider::Azure), code, message)], seq![])
}

pub open spec fn opt_deref<T>(value: Option<&T>) -> Option<T> {
    match value {
        Some(x) => Some(*x),
        None => None,
    }
}

/// The Azure costs of a selected managed-instance target, the discounts of its
/// purchase options, and how they were reached. Without a snapshot, without all
/// eight purchase-option rates of the configuration, for a workload without SQL,
/// or without the rate of the workload's purchase option, the costs stay
/// unresolved; a cost error leaves them unresolved too. `None` where an amount
/// is beyond the decimal type.
pub open spec fn spec_resolve_azure_costs(
    selected: SelectedTarget,
    resource: Resource,
    storage_gb: DecimalValue,
    azure: Option<AzureSnapshotPrices>,
    settings: ProjectSettings,
) -> Option<AzureResolutionView> {
    match azure {
        None => Some(
            azure_unresolved(
                "azure_snapshot_unavailable"@,
                "A usable Azure price snapshot is required for target cost."@,
            ),
        ),
        Some(prices) => if !spec_complete_mi_rate_set(prices, selected.configuration_key@) {
            Some(
                azure_unresolved(
                    "azure_price_set_incomplete"@,
                    "The selected target does not have all eight purchase options and required component prices."@,
                ),
            )
        } else {
            match resource.spec_sql() {
                None => Some(
                    azure_unresolved(
                        "azure_rate_unavailable"@,
                        "SQL Managed Instance rates do not apply to this workload."@,
                    ),
                ),
                Some(sql) => match spec_mi_rate(prices, selected.configuration_key@, sql.mi_purchase_option) {
                    None => Some(
                        azure_unresolved(
                            "azure_rate_unavailable"@,
                            "The selected target does not have a complete purchase-option rate."@,
                        ),
                    ),
                    Some(record) => match spec_azure(
                        resource.spec_shared().quantity,
                        resource.spec_shared().annual_hours_per_instance,
                        storage_gb,
                        selected.included_memory_gb,
                        selected.selected_memory_gb,
                        record.rate,
                        settings,
                    ) {
                        None => None,
                        Some(Err(e)) => Some(
                            (
                                None,
                                None,
                                PricingStatus::Unavailable,
                                seq![cost_unresolved_view(Provider::Azure, e)],
                                seq![],
                            ),
                        ),
                        Some(Ok(costs)) => match (
                            spec_purchase_option_discounts(prices, selected.configuration_key@),
                            spec_azure_cost_step(selected, resource, storage_gb, record.rate, settings, costs),
                        ) {
                            (Some(discounts), Some(formula)) => Some(
                                (
                                    Some(costs),
                                    discounts,
                                    spec_pricing_status(prices.status),
                                    seq![],
                                    seq![
                                        step_view(
                                            "target_price_provenance"@,
                                            "Target rates were resolved from the immutable Azure snapshot."@,
                                            provenance_entries(record.source_url@, prices.retrieved_at@),
                                        ),
                                        formula,
                                    ],
                                ),
                            ),
                            _ => None,
                        },
                    },
                },
            }
        },
    }
}

fn azure_unresolved_exec(code: &str, message: &str) -> (r: AzureResolution)
    ensures
        azure_resolution_view(r) == azure_unresolved(code@, message@),
{
    let steps: Vec<ExplanationStep> = Vec::new();
    assert(step_views(steps@) =~= seq![]);
    (None, None, PricingStatus::Unavailable, unresolved(Provider::Azure, code, message), steps)
}

/// The Azure costs of a selected managed-instance target, the discounts of its
/// purchase options, and how they were reached; `None` where an amount is beyond
/// the decimal type.
pub fn resolve_azure_costs_checked(
    selected: &SelectedTarget,
    resource: &Resource,
    storage_gb: DecimalValue,
    azure: Option<&AzureSnapshotPrices>,
    settings: &ProjectSettings,
) -> (r: Option<AzureResolution>)
    ensures
        match spec_resolve_azure_costs(*selected, *resource, storage_gb, opt_deref(azure), *settings) {
            Some(v) => r matches Some(x) && azure_resolution_view(x) == v,
            None => r is None,
        },
{
    let prices = match azure {
        None => {
            return Some(
                azure_unresolved_exec(
                    "azure_snapshot_unavailable",
                    "A usable Azure price snapshot is required for target cost.",
                ),
            );
        },
        Some(p) => p,
    };
    let key = selected.configuration_key.as_str();
    if !has_complete_mi_rate_set(prices, key) {
        return Some(
            azure_unresolved_exec(
                "azure_price_set_incomplete",
                "The selected target does not have all eight purchase options and required component prices.",
            ),
        );
    }
    let sql = match resource.sql() {
        None => {
            return Some(
                azure_unresolved_exec("azure_rate_unavailable", "SQL Managed Instance rates do not apply to this workload."),
            );
        },
        Some(s) => s,
    };
    let record = match find_mi_rate(prices, key, sql.mi_purchase_option) {
        None => {
            return Some(
                azure_unresolved_exec(
                    "azure_rate_unavailable",
                    "The selected target does not have a complete purchase-option rate.",
                ),
            );
        },
        Some(r) => r,
    };
    let shared = resource.shared();
    match calculate_azure_checked(
        shared.quantity,
        shared.annual_hours_per_instance,
        storage_gb,
        selected.included_memory_gb,
        selected.selected_memory_gb,
        record.rate,
        settings,
    ) {
        None => None,
        Some(Err(e)) => {
            let steps: Vec<ExplanationStep> = Vec::new();
            assert(step_views(steps@) =~= seq![]);
            Some((None, None, PricingStatus::Unavailable, one_cost_unresolved(Provider::Azure, e), steps))
        },
        Some(Ok(costs)) => {
            let discounts = match purchase_option_discounts_checked(prices, key) {
                None => {
                    return None;
                },
                Some(d) => d,
            };
            let formula = match azure_cost_formula_step_checked(selected, resource, storage_gb, record.rate, settings, &costs) {
                None => {
                    return None;
                },
                Some(f) => f,
            };
            let mut steps: Vec<ExplanationStep> = Vec::new();
            steps.push(target_provenance_step(record.source_url.as_str(), prices.retrieved_at.as_str()));
            steps.push(formula);
            let none: Vec<UnresolvedComponent> = Vec::new();
            assert(unresolved_views(none@) =~= seq![]);
            assert(step_views(steps@) =~= seq![steps@[0]@, steps@[1]@]);
            Some((Some(costs), discounts, pricing_status(prices.status), none, steps))
        },
    }
}

/// The Azure costs of a selected managed-instance target.
pub fn resolve_azure_costs(
    selected: &SelectedTarget,
    resource: &Resource,
    storage_gb: DecimalValue,
    azure: Option<&AzureSnapshotPrices>,
    settings: &ProjectSettings,
) -> (r: AzureResolution)
    requires
        spec_resolve_azure_costs(*selected, *resource, storage_gb, opt_deref(azure), *settings) is Some,
    ensures
        Some(azure_resolution_view(r)) == spec_resolve_azure_costs(*selected, *resource, storage_gb, opt_deref(azure), *settings),
{
    resolve_azure_costs_checked(selected, resource, storage_gb, azure, settings).unwrap()
}

// ---------------------------------------------------------------------------
// AWS and on-premises sources.
// ---------------------------------------------------------------------------

/// One EC2 instance rate of an AWS snapshot.
#[derive(Clone, Debug)]
pub struct Ec2RateRecord {
    pub instance_type: String,
    pub rate: Ec2Rate,
    pub source_url: String,
}

/// One RDS rate of an AWS snapshot: an instance type under a deployment, a
/// commercial term and a storage class.
#[derive(Clone, Debug)]
pub struct RdsRateRecord {
    pub instance_type: String,
    pub deployment: RdsDeployment,
    pub commercial_term: String,
    pub storage_class: String,
    pub rate: RdsRate,
    pub source_url: String,
}

/// What a calculation reads of an AWS price snapshot: its identity and scope,
/// how it was resolved, its warnings (a calculation keeps those that concern
/// the submitted resources), its EC2 and RDS rates (the first record that
/// matches is the one used), and its EBS rates.
#[derive(Clone, Debug)]
pub struct AwsSnapshotPrices {
    pub snapshot_id: String,
    pub currency: String,
    pub source_region: String,
    pub retrieved_at: String,
    pub status: ResolutionStatus,
    pub warnings: Vec<String>,
    pub ec2_rates: Vec<Ec2RateRecord>,
    pub rds_rates: Vec<RdsRateRecord>,
    pub ebs_rates: Vec<EbsRate>,
}

pub open spec fn ec2_rate_matches(instance_type: Seq<char>) -> spec_fn(Ec2RateRecord) -> bool {
    |r: Ec2RateRecord| r.instance_type@ == instance_type
}

pub open spec fn spec_ec2_rate(prices: AwsSnapshotPrices, instance_type: Seq<char>) -> Option<Ec2RateRecord> {
    match first_match(prices.ec2_rates@, ec2_rate_matches(instance_type)) {
        Some(i) => Some(prices.ec2_rates@[i]),
        None => None,
    }
}

/// The EC2 rate record of an instance type.
pub fn find_ec2_rate<'a>(prices: &'a AwsSnapshotPrices, instance_type: &str) -> (r: Option<&'a Ec2RateRecord>)
    ensures
        match spec_ec2_rate(*prices, instance_type@) {
            Some(x) => r matches Some(y) && *y == x,
            None => r is None,
        },
{
    let ghost p = ec2_rate_matches(instance_type@);
    let ghost s = prices.ec2_rates@;
    let mut i: usize = 0;
    assert(s.take(0) =~= Seq::<Ec2RateRecord>::empty());
    while i < prices.ec2_rates.len()
        invariant
            i <= s.len(),
            s == prices.ec2_rates@,
            p == ec2_rate_matches(instance_type@),
            first_match(s.take(i as int), p) is None,
        decreases s.len() - i,
    {
        proof {
            lemma_first_match_step(s, p, i as int);
        }
        let record = &prices.ec2_rates[i];
        if text_equals(record.instance_type.as_str(), instance_type) {
            proof {
                lemma_first_match_prefix(s, p, i + 1);
            }
            return Some(record);
        }
        i = i + 1;
    }
    assert(s.take(i as int) =~= s);
    None
}

pub open spec fn rds_rate_matches(
    instance_type: Seq<char>,
    deployment: RdsDeployment,
    commercial_term: Seq<char>,
    storage_class: Seq<char>,
) -> spec_fn(RdsRateRecord) -> bool {
    |r: RdsRateRecord|
        r.instance_type@ == instance_type && r.deployment == deployment && r.commercial_term@ == commercial_term
            && r.storage_class@ == storage_class
}

pub open spec fn spec_rds_rate(prices: AwsSnapshotPrices, resource: RdsResource) -> Option<RdsRateRecord> {
    match first_match(
        prices.rds_rates@,
        rds_rate_matches(
            resource.instance_type@,
            resource.deployment,
            resource.commercial_term@,
            resource.storage_class@,
        ),
    ) {
        Some(i) => Some(prices.rds_rates@[i]),
        None => None,
    }
}

/// The RDS rate record of a resource's instance type, deployment, commercial term
/// and storage class.
pub fn find_rds_rate<'a>(prices: &'a AwsSnapshotPrices, resource: &RdsResource) -> (r: Option<&'a RdsRateRecord>)
    ensures
        match spec_rds_rate(*prices, *resource) {
            Some(x) => r matches Some(y) && *y == x,
            None => r is None,
        },
{
    let ghost p = rds_rate_matches(
        resource.instance_type@,
        resource.deployment,
        resource.commercial_term@,
        resource.storage_class@,
    );
    let ghost s = prices.rds_rates@;
    let mut i: usize = 0;
    assert(s.take(0) =~= Seq::<RdsRateRecord>::empty());
    while i < prices.rds_rates.len()
        invariant
            i <= s.len(),
            s == prices.rds_rates@,
            p == rds_rate_matches(
                resource.instance_type@,
                resource.deployment,
                resource.commercial_term@,
                resource.storage_class@,
            ),
            first_match(s.take(i as int), p) is None,
        decreases s.len() - i,
    {
        proof {
            lemma_first_match_step(s, p, i as int);
        }
        let record = &prices.rds_rates[i];
        if text_equals(record.instance_type.as_str(), resource.instance_type.as_str())
            && record.deployment == resource.deployment && text_equals(
            record.commercial_term.as_str(),
            resource.commercial_term.as_str(),
        ) && text_equals(record.storage_class.as_str(), resource.storage_class.as_str()) {
            proof {
                lemma_first_match_prefix(s, p, i + 1);
            }
            return Some(record);
        }
        i = i + 1;
    }
    assert(s.take(i as int) =~= s);
    None
}

/// A resolved source as plain values: (source vCPU, source maximum IOPS, costs,
/// pricing status, explanation steps, unresolved components).
pub type SourceView = (
    Option<u32>,
    Option<u64>,
    Option<SourceCostBreakdown>,
    PricingStatus,
    Seq<StepView>,
    Seq<UnresolvedView>,
);

pub open spec fn source_view(s: ResolvedSource) -> SourceView {
    (
        s.source_vcpu,
        s.source_max_iops,
        s.costs,
        s.pricing_status,
        step_views(s.explanation_steps@),
        unresolved_views(s.unresolved_components@),
    )
}

pub open spec fn unavailable_source_view(provider: Provider, code: Seq<char>) -> SourceView {
    (
        None,
        None,
        None,
        PricingStatus::Unavailable,
        seq![],
        seq![(Some(provider), code, "A usable source price record is not available."@)],
    )
}

pub open spec fn source_provenance_view(source_url: Seq<char>, retrieved_at: Seq<char>) -> StepView {
    step_view(
        "source_price_provenance"@,
        "Source rates were resolved from the immutable AWS snapshot."@,
        provenance_entries(source_url, retrieved_at),
    )
}

fn unavailable(provider: Provider, code: &str) -> (r: ResolvedSource)
    ensures
        source_view(r) == unavailable_source_view(provider, code@),
{
    let r = unavailable_source(provider, code);
    assert(step_views(r.explanation_steps@) =~= seq![]);
    assert(unresolved_views(r.unresolved_components@) =~= seq![
        (Some(provider), code@, "A usable source price record is not available."@),
    ]);
    r
}

fn resolved(
    vcpu: u32,
    iops: Option<u64>,
    costs: Option<SourceCostBreakdown>,
    status: PricingStatus,
    source_url: &str,
    retrieved_at: &str,
    error: Option<CostError>,
) -> (r: ResolvedSource)
    ensures
        source_view(r) == (
            Some(vcpu),
            iops,
            costs,
            status,
            seq![source_provenance_view(source_url@, retrieved_at@)],
            match error {
                Some(e) => seq![cost_unresolved_view(Provider::Aws, e)],
                None => Seq::<UnresolvedView>::empty(),
            },
        ),
{
    let mut steps: Vec<ExplanationStep> = Vec::new();
    steps.push(source_provenance_step(source_url, retrieved_at));
    assert(step_views(steps@) =~= seq![source_provenance_view(source_url@, retrieved_at@)]);
    let unresolved_list = match error {
        Some(e) => one_cost_unresolved(Provider::Aws, e),
        None => {
            let v: Vec<UnresolvedComponent> = Vec::new();
            assert(unresolved_views(v@) =~= Seq::<UnresolvedView>::empty());
            v
        },
    };
    ResolvedSource {
        source_vcpu: Some(vcpu),
        source_max_iops: iops,
        costs,
        pricing_status: status,
        explanation_steps: steps,
        unresolved_components: unresolved_list,
    }
}

/// An EC2 SQL Server source resolved against the AWS snapshot: unavailable
/// without a snapshot or without its instance rate; with the rate, its vCPU and
/// the provenance of the rate, and then its IOPS and costs, or the cost error
/// that stopped them. `None` where a cost is beyond the decimal type.
pub open spec fn spec_ec2_resolved(
    resource: Ec2Resource,
    aws: Option<AwsSnapshotPrices>,
    settings: ProjectSettings,
) -> Option<SourceView> {
    match aws {
        None => Some(unavailable_source_view(Provider::Aws, "aws_snapshot_unavailable"@)),
        Some(prices) => match spec_ec2_rate(prices, resource.instance_type@) {
            None => Some(unavailable_source_view(Provider::Aws, "ec2_rate_unavailable"@)),
            Some(record) => {
                let provenance = seq![source_provenance_view(record.source_url@, prices.retrieved_at@)];
                let vcpu = Some(record.rate.source_vcpu);
                match spec_source_max_iops(resource.volumes@) {
                    Err(e) => Some(
                        (
                            vcpu,
                            None,
                            None,
                            PricingStatus::Unavailable,
                            provenance,
                            seq![cost_unresolved_view(Provider::Aws, e)],
                        ),
                    ),
                    Ok(iops) => match spec_ec2_source(resource, record.rate, prices.ebs_rates@, settings) {
                        None => None,
                        Some(Ok(costs)) => Some(
                            (vcpu, Some(iops), Some(costs), spec_pricing_status(prices.status), provenance, seq![]),
                        ),
                        Some(Err(e)) => Some(
                            (
                                vcpu,
                                Some(iops),
                                None,
                                PricingStatus::Unavailable,
                                provenance,
                                seq![cost_unresolved_view(Provider::Aws, e)],
                            ),
                        ),
                    },
                }
            },
        },
    }
}

/// An EC2 SQL Server source resolved against the AWS snapshot; `None` where a
/// cost is beyond the decimal type.
pub fn resolve_ec2_source_checked(
    resource: &Ec2Resource,
    aws: Option<&AwsSnapshotPrices>,
    settings: &ProjectSettings,
) -> (r: Option<ResolvedSource>)
    ensures
        match spec_ec2_resolved(*resource, opt_deref(aws), *settings) {
            Some(v) => r matches Some(x) && source_view(x) == v,
            None => r is None,
        },
{
    let prices = match aws {
        None => {
            return Some(unavailable(Provider::Aws, "aws_snapshot_unavailable"));
        },
        Some(p) => p,
    };
    let record = match find_ec2_rate(prices, resource.instance_type.as_str()) {
        None => {
            return Some(unavailable(Provider::Aws, "ec2_rate_unavailable"));
        },
        Some(r) => r,
    };
    let url = record.source_url.as_str();
    let at = prices.retrieved_at.as_str();
    let vcpu = record.rate.source_vcpu;
    let iops = match source_max_iops(resource) {
        Err(e) => {
            return Some(resolved(vcpu, None, None, PricingStatus::Unavailable, url, at, Some(e)));
        },
        Ok(v) => v,
    };
    match calculate_ec2_source_checked(resource, record.rate, prices.ebs_rates.as_slice(), settings) {
        None => None,
        Some(Ok(costs)) => Some(resolved(vcpu, Some(iops), Some(costs), pricing_status(prices.status), url, at, None)),
        Some(Err(e)) => Some(resolved(vcpu, Some(iops), None, PricingStatus::Unavailable, url, at, Some(e))),
    }
}

/// An RDS source resolved against the AWS snapshot: unavailable without a
/// snapshot or without its rate; with the rate, its vCPU, its stated IOPS, the
/// provenance of the rate, and its costs or the cost error that stopped them.
/// `None` where a cost is beyond the decimal type.
pub open spec fn spec_rds_resolved(
    resource: RdsResource,
    aws: Option<AwsSnapshotPrices>,
    settings: ProjectSettings,
) -> Option<SourceView> {
    match aws {
        None => Some(unavailable_source_view(Provider::Aws, "aws_snapshot_unavailable"@)),
        Some(prices) => match spec_rds_rate(prices, resource) {
            None => Some(unavailable_source_view(Provider::Aws, "rds_rate_unavailable"@)),
            Some(record) => {
                let provenance = seq![source_provenance_view(record.source_url@, prices.retrieved_at@)];
                let vcpu = Some(record.rate.source_vcpu);
                let iops = Some(resource.source_max_iops);
                match spec_rds_source(resource, record.rate, settings) {
                    None => None,
                    Some(Ok(costs)) => Some(
                        (vcpu, iops, Some(costs), spec_pricing_status(prices.status), provenance, seq![]),
                    ),
                    Some(Err(e)) => Some(
                        (
                            vcpu,
                            iops,
                            None,
                            PricingStatus::Unavailable,
                            provenance,
                            seq![cost_unresolved_view(Provider::Aws, e)],
                        ),
                    ),
                }
            },
        },
    }
}

/// An RDS source resolved against the AWS snapshot; `None` where a cost is
/// beyond the decimal type.
pub fn resolve_rds_source_checked(
    resource: &RdsResource,
    aws: Option<&AwsSnapshotPrices>,
    settings: &ProjectSettings,
) -> (r: Option<ResolvedSource>)
    ensures
        match spec_rds_resolved(*resource, opt_deref(aws), *settings) {
            Some(v) => r matches Some(x) && source_view(x) == v,
            None => r is None,
        },
{
    let prices = match aws {
        None => {
            return Some(unavailable(Provider::Aws, "aws_snapshot_unavailable"));
        },
        Some(p) => p,
    };
    let record = match find_rds_rate(prices, resource) {
        None => {
            return Some(unavailable(Provider::Aws, "rds_rate_unavailable"));
        },
        Some(r) => r,
    };
    let url = record.source_url.as_str();
    let at = prices.retrieved_at.as_str();
    let vcpu = record.rate.source_vcpu;
    let iops = Some(resource.source_max_iops);
    match calculate_rds_source_checked(resource, record.rate, settings) {
        None => None,
        Some(Ok(costs)) => Some(resolved(vcpu, iops, Some(costs), pricing_status(prices.status), url, at, None)),
        Some(Err(e)) => Some(resolved(vcpu, iops, None, PricingStatus::Unavailable, url, at, Some(e))),
    }
}

/// An on-premises source: its own sizing and costs, priced without a snapshot
/// and explained by its power estimate and its cost formulas; a cost error
/// stops the calculation. `None` where a cost is beyond the decimal type.
pub open spec fn spec_on_prem_resolved(resource: OnPremResource, settings: ProjectSettings) -> Option<
    Result<SourceView, CostError>,
> {
    match spec_on_prem_source(resource, settings) {
        None => None,
        Some(Err(e)) => Some(Err(e)),
        Some(Ok(result)) => Some(
            Ok(
                (
                    Some(resource.source_vcpu),
                    Some(resource.source_max_iops),
                    Some(result.costs),
                    PricingStatus::NotRequired,
                    seq![
                        spec_on_prem_power_step(result.explanation, resource),
                        spec_on_prem_cost_step(resource, settings, result.costs, result.explanation),
                    ],
                    seq![],
                ),
            ),
        ),
    }
}

/// The source of a resource resolved against the AWS snapshot (on-premises
/// sources need none). The VM workload takes a path of its own and is resolved
/// as unavailable here.
pub open spec fn spec_resolved_source(
    resource: Resource,
    aws: Option<AwsSnapshotPrices>,
    settings: ProjectSettings,
) -> Option<Result<SourceView, CostError>> {
    match resource {
        Resource::Ec2(r) => match spec_ec2_resolved(r, aws, settings) {
            Some(v) => Some(Ok(v)),
            None => None,
        },
        Resource::Rds(r) => match spec_rds_resolved(r, aws, settings) {
            Some(v) => Some(Ok(v)),
            None => None,
        },
        Resource::OnPrem(r) => spec_on_prem_resolved(r, settings),
        Resource::Ec2Vm(_) => Some(Ok(unavailable_source_view(Provider::Aws, "ec2_vm_rate_unavailable"@))),
    }
}

/// The source of a resource resolved against the AWS snapshot; `None` where a
/// cost is beyond the decimal type.
pub fn resolve_source_checked(
    resource: &Resource,
    aws: Option<&AwsSnapshotPrices>,
    settings: &ProjectSettings,
) -> (r: Option<Result<ResolvedSource, CostError>>)
    ensures
        match spec_resolved_source(*resource, opt_deref(aws), *settings) {
            None => r is None,
            Some(Err(e)) => r == Some(Err::<ResolvedSource, CostError>(e)),
            Some(Ok(v)) => r matches Some(Ok(x)) && source_view(x) == v,
        },
{
    match resource {
        Resource::Ec2(r) => match resolve_ec2_source_checked(r, aws, settings) {
            Some(v) => Some(Ok(v)),
            None => None,
        },
        Resource::Rds(r) => match resolve_rds_source_checked(r, aws, settings) {
            Some(v) => Some(Ok(v)),
            None => None,
        },
        Resource::OnPrem(r) => match resolve_on_prem_source_checked(r, settings) {
            None => None,
            Some(Err(e)) => Some(Err(e)),
            Some(Ok(x)) => {
                assert(step_views(x.explanation_steps@) =~= seq![
                    x.explanation_steps@[0]@,
                    x.explanation_steps@[1]@,
                ]);
                assert(unresolved_views(x.unresolved_components@) =~= seq![]);
                Some(Ok(x))
            },
        },
        Resource::Ec2Vm(_) => Some(Ok(unavailable(Provider::Aws, "ec2_vm_rate_unavailable"))),
    }
}

// ---------------------------------------------------------------------------
// One resource.
// ---------------------------------------------------------------------------

fn push_step(steps: &mut Vec<ExplanationStep>, step: ExplanationStep)
    ensures
        step_views(final(steps)@) == step_views(old(steps)@).push(step@),
{
    steps.push(step);
    assert(step_views(steps@) =~= step_views(old(steps)@).push(step@));
}

fn append_steps(steps: &mut Vec<ExplanationStep>, more: Vec<ExplanationStep>)
    ensures
        step_views(final(steps)@) == step_views(old(steps)@) + step_views(more@),
{
    let mut more = more;
    let ghost added = more@;
    steps.append(&mut more);
    assert(step_views(steps@) =~= step_views(old(steps)@) + step_views(added));
}

fn append_unresolved(items: &mut Vec<UnresolvedComponent>, more: Vec<UnresolvedComponent>)
    ensures
        unresolved_views(final(items)@) == unresolved_views(old(items)@) + unresolved_views(more@),
{
    let mut more = more;
    let ghost added = more@;
    items.append(&mut more);
    assert(unresolved_views(items@) =~= unresolved_views(old(items)@) + unresolved_views(added));
}

/// The calculation of one resource: its storage, where its target maps, the
/// freshness of both sides' prices, the selection, the costs on both sides,
/// the purchase-option discounts, the savings, and how all of it was reached.
#[derive(Clone, Debug)]
pub struct ResourceCalculation {
    pub resource_id: u128,
    pub storage_inputs: StorageInputs,
    pub mapping_status: Option<MappingStatus>,
    pub aws_pricing_status: PricingStatus,
    pub azure_pricing_status: PricingStatus,
    pub target_selection: Option<TargetSelection>,
    pub source_costs: Option<SourceCostBreakdown>,
    pub azure_costs: Option<AzureCostBreakdown>,
    pub purchase_option_discounts: Option<PurchaseOptionDiscounts>,
    pub savings: Option<SavingsBreakdown>,
    pub explanation_steps: Vec<ExplanationStep>,
    pub unresolved_components: Vec<UnresolvedComponent>,
}

/// A resource calculation as plain values, its target selection aside.
pub struct ResourceCalculationView {
    pub resource_id: u128,
    pub storage_inputs: StorageInputs,
    pub mapping_status: Option<MappingStatus>,
    pub aws_pricing_status: PricingStatus,
    pub azure_pricing_status: PricingStatus,
    pub source_costs: Option<SourceCostBreakdown>,
    pub azure_costs: Option<AzureCostBreakdown>,
    pub purchase_option_discounts: Option<PurchaseOptionDiscounts>,
    pub savings: Option<SavingsBreakdown>,
    pub explanation_steps: Seq<StepView>,
    pub unresolved_components: Seq<UnresolvedView>,
}

pub open spec fn resource_view(r: ResourceCalculation) -> ResourceCalculationView {
    ResourceCalculationView {
        resource_id: r.resource_id,
        storage_inputs: r.storage_inputs,
        mapping_status: r.mapping_status,
        aws_pricing_status: r.aws_pricing_status,
        azure_pricing_status: r.azure_pricing_status,
        source_costs: r.source_costs,
        azure_costs: r.azure_costs,
        purchase_option_discounts: r.purchase_option_discounts,
        savings: r.savings,
        explanation_steps: step_views(r.explanation_steps@),
        unresolved_components: unresolved_views(r.unresolved_components@),
    }
}

/// The target reported for a candidate with its chosen memory.
pub open spec fn spec_selected_target(c: TargetCandidate, memory: DecimalValue) -> SelectedTarget {
    SelectedTarget {
        configuration_key: c.configuration_key,
        azure_region: c.azure_region,
        service_tier: c.service_tier,
        hardware_family: c.hardware_family,
        vcores: c.vcores,
        zone_redundant: c.zone_redundant,
        included_memory_gb: c.included_memory_gb,
        selected_memory_gb: memory,
        additional_memory_gb: spec_max(
            decimal_sub(memory, c.included_memory_gb).unwrap(),
            DecimalValue::integer_value(0),
        ),
        storage_architecture: c.storage_architecture,
        maximum_storage_gb: c.maximum_storage_gb,
    }
}

/// The Azure resolution reads of the selected target only its configuration and
/// its memory figures.
pub proof fn lemma_resolution_by_view(
    a: SelectedTarget,
    b: SelectedTarget,
    resource: Resource,
    storage_gb: DecimalValue,
    azure: Option<AzureSnapshotPrices>,
    settings: ProjectSettings,
)
    requires
        a.configuration_key@ == b.configuration_key@,
        a.included_memory_gb == b.included_memory_gb,
        a.selected_memory_gb == b.selected_memory_gb,
    ensures
        spec_resolve_azure_costs(a, resource, storage_gb, azure, settings) == spec_resolve_azure_costs(
            b,
            resource,
            storage_gb,
            azure,
            settings,
        ),
{
}

/// The request a resource puts to the target selection, once its source has a
/// vCPU count: the project's Azure region, the source's vCPU, memory and IOPS
/// (0 when unknown), the configured Azure storage, in workbook parity mode.
pub open spec fn request_for(
    req: TargetSelectionRequest,
    resource: Resource,
    settings: ProjectSettings,
    aws: Option<AwsSnapshotPrices>,
) -> bool {
    match (spec_storage_inputs(resource), spec_resolved_source(resource, aws, settings)) {
        (Some(storage), Some(Ok(src))) => !(resource is Ec2Vm) && src.0 is Some ==> {
            &&& req.azure_region@ == settings.azure_region@
            &&& req.source_vcpu == src.0.unwrap()
            &&& req.source_memory_gb == resource.spec_shared().source_ram_gb_per_instance
            &&& req.required_storage_gb == storage.azure_storage_gb_per_instance
            &&& req.source_max_iops == (match src.1 {
                Some(i) => i,
                None => 0u64,
            })
            &&& req.workbook_parity_mode
        },
        _ => true,
    }
}

pub open spec fn metadata_unavailable_view() -> UnresolvedView {
    (
        Some(Provider::Aws),
        "source_metadata_unavailable"@,
        "Source sizing metadata is unavailable, so target mapping was not evaluated."@,
    )
}

/// The steps after the source's own: its sizing inputs and, with costs, their
/// formula; `None` where a figure is beyond the decimal type.
pub open spec fn spec_sizing_steps(
    resource: Resource,
    settings: ProjectSettings,
    src: SourceView,
    storage: StorageInputs,
) -> Option<Seq<StepView>> {
    let vcpu = src.0.unwrap();
    let iops = match src.1 {
        Some(i) => i,
        None => 0u64,
    };
    match (
        spec_source_input_step(vcpu, iops, resource, storage),
        match src.2 {
            Some(c) => spec_source_cost_step(resource, vcpu, settings, c),
            None => Some(None),
        },
    ) {
        (Some(input_step), Some(cost_step)) => Some(
            src.4.push(input_step) + match cost_step {
                Some(x) => seq![x],
                None => Seq::<StepView>::empty(),
            },
        ),
        _ => None,
    }
}

/// The calculation of a mapped resource once its Azure costs are resolved: the
/// savings and their explanation where both sides have costs.
pub open spec fn spec_mapped_calculation(
    resource: Resource,
    settings: ProjectSettings,
    src: SourceView,
    storage: StorageInputs,
    steps: Seq<StepView>,
    az: AzureResolutionView,
) -> Option<ResourceCalculationView> {
    let savings: Option<Option<SavingsBreakdown>> = match (src.2, az.0) {
        (Some(s), Some(a)) => match spec_savings(s, a, settings.selected_parity_adjustment) {
            Some(v) => Some(Some(v)),
            None => None,
        },
        _ => Some(None),
    };
    match savings {
        None => None,
        Some(sv) => Some(
            ResourceCalculationView {
                resource_id: resource.spec_shared().id,
                storage_inputs: storage,
                mapping_status: Some(MappingStatus::Mapped),
                aws_pricing_status: src.3,
                azure_pricing_status: az.2,
                source_costs: src.2,
                azure_costs: az.0,
                purchase_option_discounts: az.1,
                savings: sv,
                explanation_steps: steps + az.4 + match (src.2, az.0, sv) {
                    (Some(s), Some(a), Some(v)) => seq![spec_savings_step(s, a, v), spec_parity_step(s, a, v)],
                    _ => Seq::<StepView>::empty(),
                },
                unresolved_components: src.5 + az.3,
            },
        ),
    }
}

/// The calculation of one resource, given the request its source puts to the
/// target selection. A VM workload is refused here. A cost error of an
/// on-premises source, or a request the selection refuses, stops the
/// calculation. A source without a vCPU count is reported without a mapping;
/// one without a target as not mapped, with its source costs; a mapped one with
/// its Azure costs and savings. `None` where a figure is beyond the decimal type.
pub open spec fn spec_resource_calculation(
    cands: Seq<TargetCandidate>,
    resource: Resource,
    settings: ProjectSettings,
    aws: Option<AwsSnapshotPrices>,
    azure: Option<AzureSnapshotPrices>,
    req: TargetSelectionRequest,
) -> Option<Result<ResourceCalculationView, CalculationError>> {
    match spec_storage_inputs(resource) {
        None => None,
        Some(storage) => if resource is Ec2Vm {
            Some(Err(CalculationError::VmTargetSelectionUnavailable))
        } else {
            match spec_resolved_source(resource, aws, settings) {
                None => None,
                Some(Err(e)) => Some(Err(CalculationError::Cost(e))),
                Some(Ok(src)) => if src.0 is None {
                    Some(
                        Ok(
                            ResourceCalculationView {
                                resource_id: resource.spec_shared().id,
                                storage_inputs: storage,
                                mapping_status: None,
                                aws_pricing_status: src.3,
                                azure_pricing_status: PricingStatus::Unavailable,
                                source_costs: src.2,
                                azure_costs: None,
                                purchase_option_discounts: None,
                                savings: None,
                                explanation_steps: src.4,
                                unresolved_components: src.5.push(metadata_unavailable_view()),
                            },
                        ),
                    )
                } else {
                    match spec_request_error(req) {
                        Some(e) => Some(Err(CalculationError::TargetSelection(e))),
                        None => match spec_sizing_steps(resource, settings, src, storage) {
                            None => None,
                            Some(steps) => match spec_choice(cands, req, spec_requested_tier(cands, req)) {
                                None => Some(
                                    Ok(
                                        ResourceCalculationView {
                                            resource_id: resource.spec_shared().id,
                                            storage_inputs: storage,
                                            mapping_status: Some(MappingStatus::NoMapping),
                                            aws_pricing_status: src.3,
                                            azure_pricing_status: PricingStatus::NotRequired,
                                            source_costs: src.2,
                                            azure_costs: None,
                                            purchase_option_discounts: None,
                                            savings: None,
                                            explanation_steps: steps,
                                            unresolved_components: src.5,
                                        },
                                    ),
                                ),
                                Some((i, m)) => if decimal_sub(m, cands[i].included_memory_gb) is None {
                                    None
                                } else {
                                    match spec_resolve_azure_costs(
                                        spec_selected_target(cands[i], m),
                                        resource,
                                        storage.azure_storage_gb_per_instance,
                                        azure,
                                        settings,
                                    ) {
                                        None => None,
                                        Some(az) => match spec_mapped_calculation(resource, settings, src, storage, steps, az) {
                                            None => None,
                                            Some(v) => Some(Ok(v)),
                                        },
                                    }
                                },
                            },
                        },
                    }
                },
            }
        },
    }
}

/// What a calculated resource is: the view of the result matches the model,
/// and its target selection, present exactly when the resource was mapped or
/// not mapped, is what the selection reports for the request.
pub open spec fn resource_result_matches(
    r: Option<Result<ResourceCalculation, CalculationError>>,
    expected: Option<Result<ResourceCalculationView, CalculationError>>,
    cands: Seq<TargetCandidate>,
    req: TargetSelectionRequest,
) -> bool {
    match expected {
        None => r is None,
        Some(Err(e)) => r == Some(Err::<ResourceCalculation, CalculationError>(e)),
        Some(Ok(v)) => r matches Some(Ok(x)) && resource_view(x) == v && (x.target_selection is Some
            <==> v.mapping_status is Some) && (x.target_selection matches Some(sel) ==> selection_matches(
            sel,
            cands,
            req,
        )),
    }
}

/// What calculating a resource gives: for the request its source puts to the
/// target selection, the result the model describes.
pub open spec fn resource_outcome(
    cands: Seq<TargetCandidate>,
    resource: Resource,
    settings: ProjectSettings,
    aws: Option<AwsSnapshotPrices>,
    azure: Option<AzureSnapshotPrices>,
    r: Option<Result<ResourceCalculation, CalculationError>>,
) -> bool {
    exists|req: TargetSelectionRequest|
        #[trigger] request_for(req, resource, settings, aws) && resource_result_matches(
            r,
            spec_resource_calculation(cands, resource, settings, aws, azure, req),
            cands,
            req,
        )
}

/// The engine that calculates a project's resources against a reviewed
/// capability catalog of managed-instance targets.
#[derive(Clone)]
pub struct CalculationEngine {
    capabilities: Arc<CapabilityCatalog>,
    formula_version: String,
}

impl CalculationEngine {
    pub closed spec fn spec_candidates(&self) -> Seq<TargetCandidate> {
        self.capabilities.candidates@
    }

    pub closed spec fn spec_formula_version(&self) -> Seq<char> {
        self.formula_version@
    }

    /// An engine over a catalog that offers at least one candidate.
    pub fn new(capabilities: Arc<CapabilityCatalog>, formula_version: String) -> (r: Result<
        CalculationEngine,
        CalculationError,
    >)
        ensures
            capabilities.candidates@.len() == 0 ==> r == Err::<CalculationEngine, CalculationError>(
                CalculationError::EmptyCapabilityCatalog,
            ),
            capabilities.candidates@.len() > 0 ==> (r matches Ok(engine) && engine.spec_formula_version()
                == formula_version@ && engine.spec_candidates() == capabilities.candidates@),
    {
        if capabilities.candidates.len() == 0 {
            return Err(CalculationError::EmptyCapabilityCatalog);
        }
        Ok(CalculationEngine { capabilities, formula_version })
    }

    /// The calculation of one resource against the snapshots' prices; `None`
    /// where a figure is beyond the decimal type.
    #[verifier::rlimit(100)]
    #[verifier::spinoff_prover]
    pub fn calculate_resource_checked(
        &self,
        resource: &Resource,
        settings: &ProjectSettings,
        aws: Option<&AwsSnapshotPrices>,
        azure: Option<&AzureSnapshotPrices>,
    ) -> (r: Option<Result<ResourceCalculation, CalculationError>>)
        ensures
            resource_outcome(self.spec_candidates(), *resource, *settings, opt_deref(aws), opt_deref(azure), r),
    {
        let ghost cands = self.spec_candidates();
        let ghost any_req = TargetSelectionRequest {
            azure_region: "",
            source_vcpu: 0,
            source_memory_gb: DecimalValue::integer_value(0),
            required_storage_gb: DecimalValue::integer_value(0),
            source_max_iops: 0,
            workbook_parity_mode: true,
        };
        let storage = match storage_inputs_checked(resource) {
            None => {
                assert(request_for(any_req, *resource, *settings, opt_deref(aws)));
                return None;
            },
            Some(s) => s,
        };
        if let Resource::Ec2Vm(_) = resource {
            assert(request_for(any_req, *resource, *settings, opt_deref(aws)));
            return Some(Err(CalculationError::VmTargetSelectionUnavailable));
        }
        let shared = resource.shared();
        let mut source = match resolve_source_checked(resource, aws, settings) {
            None => {
                assert(request_for(any_req, *resource, *settings, opt_deref(aws)));
                return None;
            },
            Some(Err(e)) => {
                assert(request_for(any_req, *resource, *settings, opt_deref(aws)));
                return Some(Err(CalculationError::Cost(e)));
            },
            Some(Ok(s)) => s,
        };
        let ghost src = source_view(source);
        let vcpu = match source.source_vcpu {
            None => {
                let mut unresolved_list = source.unresolved_components;
                unresolved_list.push(
                    UnresolvedComponent {
                        provider: Some(Provider::Aws),
                        code: "source_metadata_unavailable".to_owned(),
                        message: "Source sizing metadata is unavailable, so target mapping was not evaluated.".to_owned(),
                    },
                );
                assert(unresolved_views(unresolved_list@) =~= src.5.push(metadata_unavailable_view()));
                assert(request_for(any_req, *resource, *settings, opt_deref(aws)));
                return Some(
                    Ok(
                        ResourceCalculation {
                            resource_id: shared.id,
                            storage_inputs: storage,
                            mapping_status: None,
                            aws_pricing_status: source.pricing_status,
                            azure_pricing_status: PricingStatus::Unavailable,
                            target_selection: None,
                            source_costs: source.costs,
                            azure_costs: None,
                            purchase_option_discounts: None,
                            savings: None,
                            explanation_steps: source.explanation_steps,
                            unresolved_components: unresolved_list,
                        },
                    ),
                );
            },
            Some(v) => v,
        };
        let iops: u64 = match source.source_max_iops {
            Some(i) => i,
            None => 0,
        };
        let request = TargetSelectionRequest {
            azure_region: settings.azure_region.as_str(),
            source_vcpu: vcpu,
            source_memory_gb: shared.source_ram_gb_per_instance,
            required_storage_gb: storage.azure_storage_gb_per_instance,
            source_max_iops: iops,
            workbook_parity_mode: true,
        };
        assert(request_for(request, *resource, *settings, opt_deref(aws)));
        let selection = match select_target_checked(&self.capabilities, request) {
            None => {
                return None;
            },
            Some(Err(e)) => {
                return Some(Err(CalculationError::TargetSelection(e)));
            },
            Some(Ok(s)) => s,
        };
        let input_step = match source_input_step_checked(vcpu, iops, resource, storage) {
            None => {
                return None;
            },
            Some(s) => s,
        };
        let cost_step = match &source.costs {
            Some(c) => match source_cost_formula_step_checked(resource, vcpu, settings, c) {
                None => {
                    return None;
                },
                Some(x) => x,
            },
            None => None,
        };
        let mut steps = source.explanation_steps;
        push_step(&mut steps, input_step);
        match cost_step {
            Some(x) => {
                push_step(&mut steps, x);
            },
            None => {},
        }
        let ghost sizing = step_views(steps@);
        assert(spec_sizing_steps(*resource, *settings, src, storage) == Some(sizing)) by {
            if cost_step is None {
                assert(sizing =~= src.4.push(input_step@) + Seq::<StepView>::empty());
            } else {
                assert(sizing =~= src.4.push(input_step@) + seq![cost_step.unwrap()@]);
            }
        }
        let selected = match &selection.selected {
            None => {
                return Some(
                    Ok(
                        ResourceCalculation {
                            resource_id: shared.id,
                            storage_inputs: storage,
                            mapping_status: Some(MappingStatus::NoMapping),
                            aws_pricing_status: source.pricing_status,
                            azure_pricing_status: PricingStatus::NotRequired,
                            target_selection: Some(selection),
                            source_costs: source.costs,
                            azure_costs: None,
                            purchase_option_discounts: None,
                            savings: None,
                            explanation_steps: steps,
                            unresolved_components: source.unresolved_components,
                        },
                    ),
                );
            },
            Some(t) => t,
        };
        let ghost choice = spec_choice(cands, request, spec_requested_tier(cands, request));
        proof {
            let (i, m) = choice.unwrap();
            lemma_resolution_by_view(
                *selected,
                spec_selected_target(cands[i], m),
                *resource,
                storage.azure_storage_gb_per_instance,
                opt_deref(azure),
                *settings,
            );
        }
        let az = match resolve_azure_costs_checked(
            selected,
            resource,
            storage.azure_storage_gb_per_instance,
            azure,
            settings,
        ) {
            None => {
                return None;
            },
            Some(a) => a,
        };
        let ghost azv = azure_resolution_view(az);
        let (azure_costs, discounts, azure_status, azure_unresolved, azure_steps) = az;
        let savings = match (&source.costs, &azure_costs) {
            (Some(s), Some(a)) => match calculate_savings_checked(s, a, settings.selected_parity_adjustment) {
                None => {
                    return None;
                },
                Some(v) => Some(v),
            },
            _ => None,
        };
        append_steps(&mut steps, azure_steps);
        let ghost with_azure = step_views(steps@);
        match (&source.costs, &azure_costs, &savings) {
            (Some(s), Some(a), Some(v)) => {
                push_step(&mut steps, savings_formula_step(s, a, v));
                push_step(&mut steps, parity_formula_step(s, a, v));
                assert(step_views(steps@) =~= with_azure + seq![
                    spec_savings_step(*s, *a, *v),
                    spec_parity_step(*s, *a, *v),
                ]);
            },
            _ => {
                assert(step_views(steps@) =~= with_azure + Seq::<StepView>::empty());
            },
        }
        let mut unresolved_list = source.unresolved_components;
        append_unresolved(&mut unresolved_list, azure_unresolved);
        Some(
            Ok(
                ResourceCalculation {
                    resource_id: shared.id,
                    storage_inputs: storage,
                    mapping_status: Some(MappingStatus::Mapped),
                    aws_pricing_status: source.pricing_status,
                    azure_pricing_status: azure_status,
                    target_selection: Some(selection),
                    source_costs: source.costs,
                    azure_costs,
                    purchase_option_discounts: discounts,
                    savings,
                    explanation_steps: steps,
                    unresolved_components: unresolved_list,
                },
            ),
        )
    }
}

// ---------------------------------------------------------------------------
// Warnings.
// ---------------------------------------------------------------------------

/// The bytes a text is ordered by (its UTF-8 encoding).
#[verifier::opaque]
pub open spec fn view_key(v: Seq<char>) -> Seq<u8> {
    encode_utf8(v)
}

pub open spec fn text_key(s: String) -> Seq<u8> {
    view_key(s@)
}

pub open spec fn texts_views(s: Seq<String>) -> Seq<Seq<char>> {
    s.map_values(|x: String| x@)
}

/// Texts in strictly increasing order, hence without repeats.
pub open spec fn strictly_sorted(s: Seq<String>) -> bool {
    forall|i: int, j: int| 0 <= i < j < s.len() ==> lex_less(text_key(#[trigger] s[i]), text_key(#[trigger] s[j]))
}

/// One of the views is this one.
pub open spec fn in_views(views: Seq<Seq<char>>, v: Seq<char>) -> bool {
    exists|k: int| 0 <= k < views.len() && #[trigger] views[k] == v
}

/// One of the texts has this key.
pub open spec fn in_keys(texts: Seq<String>, key: Seq<u8>) -> bool {
    exists|k: int| 0 <= k < texts.len() && text_key(#[trigger] texts[k]) == key
}

/// `out` holds the texts `input` views, each once, in increasing order.
pub open spec fn sorted_distinct_of(out: Seq<String>, input: Seq<Seq<char>>) -> bool {
    &&& strictly_sorted(out)
    &&& forall|i: int| 0 <= i < out.len() ==> #[trigger] in_views(input, out[i]@)
    &&& forall|k: int| 0 <= k < input.len() ==> #[trigger] in_keys(out, view_key(input[k]))
}

/// Inserting a text at its place keeps the order strict.
proof fn lemma_insert_sorted(before: Seq<String>, p: int, x: String)
    requires
        strictly_sorted(before),
        0 <= p <= before.len(),
        forall|i: int| 0 <= i < p ==> lex_less(text_key(#[trigger] before[i]), text_key(x)),
        p < before.len() ==> lex_less(text_key(x), text_key(before[p])),
    ensures
        strictly_sorted(before.insert(p, x)),
{
    let out = before.insert(p, x);
    assert forall|i: int, j: int| 0 <= i < j < out.len() implies lex_less(
        text_key(#[trigger] out[i]),
        text_key(#[trigger] out[j]),
    ) by {
        if j < p {
            assert(out[i] == before[i] && out[j] == before[j]);
        } else if j == p {
            assert(out[i] == before[i]);
        } else if i < p {
            assert(out[i] == before[i] && out[j] == before[j - 1]);
            if p < j - 1 {
                assert(lex_less(text_key(before[p]), text_key(before[j - 1])));
                lemma_lex_less_transitive(text_key(x), text_key(before[p]), text_key(before[j - 1]));
            }
            lemma_lex_less_transitive(text_key(before[i]), text_key(x), text_key(before[j - 1]));
        } else if i == p {
            assert(out[j] == before[j - 1]);
            if p < j - 1 {
                assert(lex_less(text_key(before[p]), text_key(before[j - 1])));
                lemma_lex_less_transitive(text_key(x), text_key(before[p]), text_key(before[j - 1]));
            }
        } else {
            assert(out[i] == before[i - 1] && out[j] == before[j - 1]);
        }
    }
}

/// Where a text belongs in a strictly sorted list: the first position whose
/// text is not below it, and whether the text is already there.
fn sorted_position(out: &Vec<String>, w: &String) -> (r: (usize, bool))
    requires
        strictly_sorted(out@),
    ensures
        r.0 <= out@.len(),
        forall|i: int| 0 <= i < r.0 ==> lex_less(text_key(#[trigger] out@[i]), text_key(*w)),
        r.1 ==> r.0 < out@.len() && text_key(out@[r.0 as int]) == text_key(*w),
        !r.1 && r.0 < out@.len() ==> lex_less(text_key(*w), text_key(out@[r.0 as int])),
{
    reveal(view_key);
    let ws = w.as_str();
    let wb = ws.as_bytes();
    assert(wb@ == text_key(*w));
    let mut p: usize = 0;
    while p < out.len()
        invariant
            p <= out@.len(),
            wb@ == text_key(*w),
            forall|i: int| 0 <= i < p ==> lex_less(text_key(#[trigger] out@[i]), wb@),
        decreases out@.len() - p,
    {
        proof {
            reveal(view_key);
        }
        let current = out[p].as_str();
        let cb = current.as_bytes();
        assert(current@ == out@[p as int]@);
        assert(cb@ == text_key(out@[p as int]));
        proof {
            reveal(view_key);
        }
        let c = bytes_order(cb, wb);
        if c == 0 {
            return (p, true);
        }
        if c == 1 {
            return (p, false);
        }
        p = p + 1;
    }
    (p, false)
}

/// The texts sorted, each once (as `sort` then `dedup` leaves them).
pub fn sort_dedup_texts(input: Vec<String>) -> (r: Vec<String>)
    ensures
        sorted_distinct_of(r@, texts_views(input@)),
{
    let mut out: Vec<String> = Vec::new();
    let mut k: usize = 0;
    let ghost mut from: Seq<int> = Seq::empty();
    let ghost mut at: Seq<int> = Seq::empty();
    while k < input.len()
        invariant
            k <= input@.len(),
            strictly_sorted(out@),
            from.len() == out@.len(),
            forall|i: int| 0 <= i < out@.len() ==> 0 <= #[trigger] from[i] < k && input@[from[i]]@ == out@[i]@,
            at.len() == k,
            forall|m: int| 0 <= m < k ==> 0 <= #[trigger] at[m] < out@.len() && text_key(out@[at[m]]) == text_key(input@[m]),
        decreases input@.len() - k,
    {
        let (p, found) = sorted_position(&out, &input[k]);
        let ghost before = out@;
        if found {
            proof {
                at = at.push(p as int);
            }
        } else {
            let copy = input[k].clone();
            proof {
                lemma_insert_sorted(before, p as int, copy);
            }
            out.insert(p, copy);
            proof {
                let old_from = from;
                let old_at = at;
                from = old_from.insert(p as int, k as int);
                at = Seq::new(old_at.len(), |m: int| if old_at[m] >= p { old_at[m] + 1 } else { old_at[m] }).push(p as int);
                assert forall|i: int| 0 <= i < out@.len() implies 0 <= #[trigger] from[i] < k + 1 && input@[from[i]]@ == out@[i]@ by {
                    if i < p {
                        assert(out@[i] == before[i] && from[i] == old_from[i]);
                    } else if i > p {
                        assert(out@[i] == before[i - 1] && from[i] == old_from[i - 1]);
                    }
                }
                assert forall|m: int| 0 <= m < k + 1 implies 0 <= #[trigger] at[m] < out@.len() && text_key(out@[at[m]]) == text_key(input@[m]) by {
                    if m < k {
                        let j = old_at[m];
                        if j >= p {
                            assert(out@[j + 1] == before[j]);
                        } else {
                            assert(out@[j] == before[j]);
                        }
                    }
                }
            }
        }
        k = k + 1;
    }
    proof {
        assert(strictly_sorted(out@));
        let o = out@;
        let inp = texts_views(input@);
        assert forall|i: int| 0 <= i < o.len() implies #[trigger] in_views(inp, o[i]@) by {
            assert(0 <= from[i] < inp.len() && inp[from[i]] == o[i]@);
        }
        assert forall|k: int| 0 <= k < inp.len() implies #[trigger] in_keys(o, view_key(inp[k])) by {
            assert(0 <= at[k] < o.len() && text_key(o[at[k]]) == text_key(input@[k]));
        }
        assert(sorted_distinct_of(o, inp));
    }
    out
}

// ---------------------------------------------------------------------------
// The calculation of a project.
// ---------------------------------------------------------------------------

/// What a calculation is asked to price: the project's settings and resources,
/// the prices read from its snapshots, and the formula version the caller
/// expects, if any.
pub struct CalculationInput<'a> {
    pub settings: &'a ProjectSettings,
    pub resources: &'a Vec<Resource>,
    pub aws_prices: Option<&'a AwsSnapshotPrices>,
    pub azure_prices: Option<&'a AzureSnapshotPrices>,
    pub expected_formula_version: Option<&'a str>,
}

/// A calculated project: the formula version, the snapshots priced against,
/// one result per resource, the portfolio totals, the warnings, and for a SQL
/// pay-as-you-go project its analysis.
#[derive(Clone, Debug)]
pub struct CalculationRevision {
    pub formula_version: String,
    pub aws_snapshot_id: Option<String>,
    pub azure_snapshot_id: Option<String>,
    pub resource_results: Vec<ResourceCalculation>,
    pub portfolio_totals: PortfolioTotals,
    pub warnings: Vec<String>,
    pub sql_payg_analysis: Option<SqlPaygAnalysis>,
}

pub const AWS_STALE_WARNING: &'static str = "AWS pricing snapshot is stale but still within the usable window.";

pub const AZURE_STALE_WARNING: &'static str = "Azure pricing snapshot is stale but still within the usable window.";

pub const SQL_PAYG_SCOPE_WARNING: &'static str = "The estimate compares annual Software Assurance or renewal spend with Azure Arc SQL Server PAYG licensing at the entered utilization and applied discount; perpetual acquisition cost is excluded as a sunk cost.";

pub const SQL_PAYG_TERMS_WARNING: &'static str = "Agreement, entitlement, true-up, buyout, passive replica, outsourcing, and edition-specific terms must be confirmed against the customer's current contract and Microsoft Product Terms.";

pub open spec fn aws_snapshot_id_of(aws: Option<AwsSnapshotPrices>) -> Option<String> {
    match aws {
        Some(a) => Some(a.snapshot_id),
        None => None,
    }
}

pub open spec fn azure_snapshot_id_of(azure: Option<AzureSnapshotPrices>) -> Option<String> {
    match azure {
        Some(z) => Some(z.snapshot_id),
        None => None,
    }
}

/// The project a calculation validates: named "Calculation", without a
/// description, with the input's settings and resources, referring to the
/// snapshots priced against.
pub open spec fn calculation_project(
    p: EditableProject,
    settings: ProjectSettings,
    resources: Seq<Resource>,
    aws: Option<AwsSnapshotPrices>,
    azure: Option<AzureSnapshotPrices>,
) -> bool {
    &&& p.name@ == "Calculation"@
    &&& p.description is None
    &&& p.settings == settings
    &&& same_resources(p.resources@, resources)
    &&& p.aws_price_snapshot_id == aws_snapshot_id_of(aws)
    &&& p.azure_price_snapshot_id == azure_snapshot_id_of(azure)
}

/// The snapshot whose scope does not fit the project, if any: an AWS snapshot
/// needs a source region and must be in the project's currency and that
/// region; an Azure snapshot in the project's currency and Azure region.
pub open spec fn spec_scope_mismatch(
    settings: ProjectSettings,
    aws: Option<AwsSnapshotPrices>,
    azure: Option<AzureSnapshotPrices>,
) -> Option<Provider> {
    let azure_mismatch = match azure {
        Some(z) => if z.currency@ == settings.currency@ && z.target_region@ == settings.azure_region@ {
            None
        } else {
            Some(Provider::Azure)
        },
        None => None,
    };
    match aws {
        Some(a) => match settings.aws_region {
            None => Some(Provider::Aws),
            Some(region) => if a.currency@ == settings.currency@ && a.source_region@ == region@ {
                azure_mismatch
            } else {
                Some(Provider::Aws)
            },
        },
        None => azure_mismatch,
    }
}

pub open spec fn version_mismatch(expected: Option<&str>, formula_version: Seq<char>) -> bool {
    expected matches Some(e) && e@ != formula_version
}

/// Whether a project is refused after the formula version check: its
/// validation issues first, then the scope of its snapshots.
pub open spec fn refusal_matches<T>(
    r: Result<T, CalculationError>,
    p: EditableProject,
    settings: ProjectSettings,
    aws: Option<AwsSnapshotPrices>,
    azure: Option<AzureSnapshotPrices>,
) -> bool {
    if spec_validation_issues(p).len() > 0 {
        r matches Err(CalculationError::Validation(v)) && issue_views(v@) == spec_validation_issues(p)
    } else {
        match spec_scope_mismatch(settings, aws, azure) {
            Some(provider) => r == Err::<T, CalculationError>(CalculationError::SnapshotScopeMismatch(provider)),
            None => r is Ok,
        }
    }
}

fn copy_text_opt(value: Option<&String>) -> (r: Option<String>)
    ensures
        r == opt_deref(value),
{
    match value {
        Some(s) => Some(s.clone()),
        None => None,
    }
}

fn scope_mismatch(
    settings: &ProjectSettings,
    aws: Option<&AwsSnapshotPrices>,
    azure: Option<&AzureSnapshotPrices>,
) -> (r: Option<Provider>)
    ensures
        r == spec_scope_mismatch(*settings, opt_deref(aws), opt_deref(azure)),
{
    let azure_mismatch = match azure {
        Some(z) => if text_equals(z.currency.as_str(), settings.currency.as_str()) && text_equals(
            z.target_region.as_str(),
            settings.azure_region.as_str(),
        ) {
            None
        } else {
            Some(Provider::Azure)
        },
        None => None,
    };
    match aws {
        Some(a) => match &settings.aws_region {
            None => Some(Provider::Aws),
            Some(region) => if text_equals(a.currency.as_str(), settings.currency.as_str()) && text_equals(
                a.source_region.as_str(),
                region.as_str(),
            ) {
                azure_mismatch
            } else {
                Some(Provider::Aws)
            },
        },
        None => azure_mismatch,
    }
}

/// The SQL pay-as-you-go input of a project's licensing settings.
pub open spec fn payg_input_of(settings: ProjectSettings) -> SqlPaygInput {
    SqlPaygInput {
        enterprise_licensed_cores: settings.sql_payg.unwrap().enterprise_licensed_cores,
        standard_licensed_cores: settings.sql_payg.unwrap().standard_licensed_cores,
        software_assurance_annual_usd: settings.sql_payg.unwrap().software_assurance_annual_usd,
        annual_hours: settings.default_annual_hours,
        applied_payg_discount: settings.selected_parity_adjustment,
    }
}

/// The revision of a SQL pay-as-you-go project: without licensing inputs it is
/// refused; otherwise the analysis of them, with Software Assurance as the
/// source total, gross PAYG as the Azure total, net PAYG after the applied
/// discount, one comparable row, and the two scope warnings. `None` where a
/// figure is beyond the decimal type.
pub open spec fn sql_payg_matches(
    r: Option<Result<CalculationRevision, CalculationError>>,
    formula_version: Seq<char>,
    settings: ProjectSettings,
) -> bool {
    match settings.sql_payg {
        None => r matches Some(Err(CalculationError::Validation(v))) && issue_views(v@) == seq![
            ("/settings/sql_payg"@, "required"@, "SQL Pay As You Go licensing inputs are required."@),
        ],
        Some(sp) => {
            let input = payg_input_of(settings);
            match spec_payg_error(input) {
                Some(e) => r == Some(Err::<CalculationRevision, CalculationError>(CalculationError::SqlPayg(e))),
                None => match spec_payg_figures(input) {
                    None => r is None,
                    Some(f) => match decimal_sub(f.3, sp.software_assurance_annual_usd) {
                        None => r is None,
                        Some(difference) => r matches Some(Ok(rev)) && {
                            &&& rev.formula_version@ == formula_version
                            &&& rev.aws_snapshot_id is None
                            &&& rev.azure_snapshot_id is None
                            &&& rev.resource_results@.len() == 0
                            &&& rev.portfolio_totals == PortfolioTotals {
                                aws_all_rows_total: Some(sp.software_assurance_annual_usd),
                                aws_mapped_rows_total: sp.software_assurance_annual_usd,
                                azure_mapped_rows_total: f.0,
                                required_portfolio_adjustment: f.1,
                                selected_parity_adjustment: settings.selected_parity_adjustment,
                                portfolio_after_selected_parity: f.3,
                                portfolio_difference: difference,
                                comparable_resource_count: 1,
                                no_mapping_resource_count: 0,
                                price_unavailable_resource_count: 0,
                            }
                            &&& texts_views(rev.warnings@) == seq![SQL_PAYG_SCOPE_WARNING@, SQL_PAYG_TERMS_WARNING@]
                            &&& rev.sql_payg_analysis matches Some(a) && analysis_matches(a, input, f)
                        },
                    },
                },
            }
        },
    }
}

/// The rows the portfolio totals read of the resource results.
pub open spec fn rows_of(results: Seq<ResourceCalculation>) -> Seq<PortfolioRow> {
    results.map_values(
        |x: ResourceCalculation|
            PortfolioRow {
                source_costs: x.source_costs,
                azure_costs: x.azure_costs,
                mapping_status: x.mapping_status,
                aws_pricing_status: x.aws_pricing_status,
                azure_pricing_status: x.azure_pricing_status,
            },
    )
}

/// The warnings a calculation gathers: those of the AWS snapshot, then those of
/// the Azure snapshot, each that concern the submitted resources, then a note for
/// each stale snapshot.
pub open spec fn warning_views(
    aws: Option<AwsSnapshotPrices>,
    azure: Option<AzureSnapshotPrices>,
    resources: Seq<Resource>,
) -> Seq<Seq<char>> {
    let aws_warnings = match aws {
        Some(a) => relevant_warnings(texts_views(a.warnings@), resources),
        None => seq![],
    };
    let azure_warnings = match azure {
        Some(z) => relevant_warnings(texts_views(z.warnings@), resources),
        None => seq![],
    };
    let aws_stale = match aws {
        Some(a) => if a.status == ResolutionStatus::Stale {
            seq![AWS_STALE_WARNING@]
        } else {
            seq![]
        },
        None => seq![],
    };
    let azure_stale = match azure {
        Some(z) => if z.status == ResolutionStatus::Stale {
            seq![AZURE_STALE_WARNING@]
        } else {
            seq![]
        },
        None => seq![],
    };
    aws_warnings + azure_warnings + aws_stale + azure_stale
}

/// Every one of the first `k` resources was calculated to the result at its place.
pub open spec fn results_so_far(
    cands: Seq<TargetCandidate>,
    resources: Seq<Resource>,
    settings: ProjectSettings,
    aws: Option<AwsSnapshotPrices>,
    azure: Option<AzureSnapshotPrices>,
    results: Seq<ResourceCalculation>,
    k: int,
) -> bool {
    &&& results.len() == k
    &&& forall|j: int|
        0 <= j < k ==> resource_outcome(
            cands,
            #[trigger] resources[j],
            settings,
            aws,
            azure,
            Some(Ok::<ResourceCalculation, CalculationError>(results[j])),
        )
}

/// The revision of a project of resources: each resource calculated in order,
/// the first failure (an error, or a figure beyond the decimal type) stopping
/// the calculation; then the portfolio totals over the results, and the
/// warnings sorted, each once.
pub open spec fn resources_revision_matches(
    r: Option<Result<CalculationRevision, CalculationError>>,
    cands: Seq<TargetCandidate>,
    formula_version: Seq<char>,
    settings: ProjectSettings,
    resources: Seq<Resource>,
    aws: Option<AwsSnapshotPrices>,
    azure: Option<AzureSnapshotPrices>,
) -> bool {
    &&& r matches Some(Ok(rev)) ==> {
        &&& rev.formula_version@ == formula_version
        &&& rev.aws_snapshot_id == aws_snapshot_id_of(aws)
        &&& rev.azure_snapshot_id == azure_snapshot_id_of(azure)
        &&& results_so_far(cands, resources, settings, aws, azure, rev.resource_results@, resources.len() as int)
        &&& spec_portfolio(rows_of(rev.resource_results@), settings.selected_parity_adjustment) == Some(
            rev.portfolio_totals,
        )
        &&& sorted_distinct_of(rev.warnings@, warning_views(aws, azure, resources))
        &&& rev.sql_payg_analysis is None
    }
    &&& r matches Some(Err(e)) ==> exists|prefix: Seq<ResourceCalculation>|
        #[trigger] results_so_far(cands, resources, settings, aws, azure, prefix, prefix.len() as int)
            && prefix.len() < resources.len() && resource_outcome(
            cands,
            resources[prefix.len() as int],
            settings,
            aws,
            azure,
            Some(Err::<ResourceCalculation, CalculationError>(e)),
        )
    &&& r is None ==> exists|prefix: Seq<ResourceCalculation>|
        #[trigger] results_so_far(cands, resources, settings, aws, azure, prefix, prefix.len() as int) && (
        prefix.len() < resources.len() ==> resource_outcome(
            cands,
            resources[prefix.len() as int],
            settings,
            aws,
            azure,
            None,
        )) && (prefix.len() == resources.len() ==> spec_portfolio(
            rows_of(prefix),
            settings.selected_parity_adjustment,
        ) is None)
}

fn copy_texts(texts: &Vec<String>, out: &mut Vec<String>)
    ensures
        texts_views(final(out)@) == texts_views(old(out)@) + texts_views(texts@),
{
    let ghost start = out@;
    let mut i: usize = 0;
    while i < texts.len()
        invariant
            i <= texts@.len(),
            texts_views(out@) == texts_views(start) + texts_views(texts@.take(i as int)),
        decreases texts@.len() - i,
    {
        let ghost before = out@;
        out.push(texts[i].clone());
        assert(texts_views(out@) =~= texts_views(before).push(texts@[i as int]@));
        assert(texts_views(texts@.take(i + 1)) =~= texts_views(texts@.take(i as int)).push(texts@[i as int]@));
        i = i + 1;
    }
    assert(texts@.take(i as int) =~= texts@);
}

impl CalculationEngine {
    /// Whether a calculation may proceed: the formula version the caller
    /// expects, then the validation of the project, then the scope of the
    /// snapshots.
    pub fn validate_input(&self, input: &CalculationInput) -> (r: Result<(), CalculationError>)
        ensures
            version_mismatch(input.expected_formula_version, self.spec_formula_version()) ==> r == Err::<
                (),
                CalculationError,
            >(CalculationError::FormulaVersionMismatch),
            !version_mismatch(input.expected_formula_version, self.spec_formula_version()) ==> exists|
                p: EditableProject,
            |
                #[trigger] calculation_project(
                    p,
                    *input.settings,
                    input.resources@,
                    opt_deref(input.aws_prices),
                    opt_deref(input.azure_prices),
                ) && refusal_matches(r, p, *input.settings, opt_deref(input.aws_prices), opt_deref(input.azure_prices)),
    {
        match input.expected_formula_version {
            Some(expected) => if !text_equals(expected, self.formula_version.as_str()) {
                return Err(CalculationError::FormulaVersionMismatch);
            },
            None => {},
        }
        let project = EditableProject {
            name: "Calculation".to_owned(),
            description: None,
            settings: copy_settings(input.settings),
            resources: duplicate_resources(input.resources),
            aws_price_snapshot_id: match input.aws_prices {
                Some(a) => Some(a.snapshot_id.clone()),
                None => None,
            },
            azure_price_snapshot_id: match input.azure_prices {
                Some(z) => Some(z.snapshot_id.clone()),
                None => None,
            },
        };
        proof {
            reveal_strlit("Calculation");
        }
        assert(calculation_project(
            project,
            *input.settings,
            input.resources@,
            opt_deref(input.aws_prices),
            opt_deref(input.azure_prices),
        ));
        let issues = project.validate();
        if issues.len() > 0 {
            return Err(CalculationError::Validation(issues));
        }
        match scope_mismatch(input.settings, input.aws_prices, input.azure_prices) {
            Some(provider) => Err(CalculationError::SnapshotScopeMismatch(provider)),
            None => Ok(()),
        }
    }

    /// The revision of a SQL pay-as-you-go project; `None` where a figure is
    /// beyond the decimal type.
    pub fn calculate_sql_payg_checked(&self, settings: &ProjectSettings) -> (r: Option<
        Result<CalculationRevision, CalculationError>,
    >)
        ensures
            sql_payg_matches(r, self.spec_formula_version(), *settings),
    {
        let sp = match &settings.sql_payg {
            None => {
                let mut issues: Vec<ValidationIssue> = Vec::new();
                issues.push(
                    ValidationIssue {
                        pointer: "/settings/sql_payg".to_owned(),
                        code: "required".to_owned(),
                        message: "SQL Pay As You Go licensing inputs are required.".to_owned(),
                    },
                );
                assert(issue_views(issues@) =~= seq![
                    ("/settings/sql_payg"@, "required"@, "SQL Pay As You Go licensing inputs are required."@),
                ]);
                return Some(Err(CalculationError::Validation(issues)));
            },
            Some(sp) => sp,
        };
        let input = SqlPaygInput {
            enterprise_licensed_cores: sp.enterprise_licensed_cores,
            standard_licensed_cores: sp.standard_licensed_cores,
            software_assurance_annual_usd: sp.software_assurance_annual_usd,
            annual_hours: settings.default_annual_hours,
            applied_payg_discount: settings.selected_parity_adjustment,
        };
        assert(input == payg_input_of(*settings));
        let analysis = match calculate_checked(input) {
            None => {
                return None;
            },
            Some(Err(e)) => {
                return Some(Err(CalculationError::SqlPayg(e)));
            },
            Some(Ok(a)) => a,
        };
        let source_total = analysis.software_assurance_annual_usd;
        let difference = match analysis.payg_net_annual_usd.checked_sub(source_total) {
            None => {
                return None;
            },
            Some(d) => d,
        };
        let mut warnings: Vec<String> = Vec::new();
        warnings.push(SQL_PAYG_SCOPE_WARNING.to_owned());
        warnings.push(SQL_PAYG_TERMS_WARNING.to_owned());
        assert(texts_views(warnings@) =~= seq![SQL_PAYG_SCOPE_WARNING@, SQL_PAYG_TERMS_WARNING@]);
        let totals = PortfolioTotals {
            aws_all_rows_total: Some(source_total),
            aws_mapped_rows_total: source_total,
            azure_mapped_rows_total: analysis.payg_gross_annual_usd,
            required_portfolio_adjustment: analysis.required_payg_discount,
            selected_parity_adjustment: analysis.applied_payg_discount,
            portfolio_after_selected_parity: analysis.payg_net_annual_usd,
            portfolio_difference: difference,
            comparable_resource_count: 1,
            no_mapping_resource_count: 0,
            price_unavailable_resource_count: 0,
        };
        Some(
            Ok(
                CalculationRevision {
                    formula_version: self.formula_version.clone(),
                    aws_snapshot_id: None,
                    azure_snapshot_id: None,
                    resource_results: Vec::new(),
                    portfolio_totals: totals,
                    warnings,
                    sql_payg_analysis: Some(analysis),
                },
            ),
        )
    }

    /// The warnings of a calculation, sorted, each once.
    fn calculation_warnings(
        aws: Option<&AwsSnapshotPrices>,
        azure: Option<&AzureSnapshotPrices>,
        resources: &Vec<Resource>,
    ) -> (r: Vec<String>)
        ensures
            sorted_distinct_of(r@, warning_views(opt_deref(aws), opt_deref(azure), resources@)),
    {
        let mut all: Vec<String> = Vec::new();
        assert(texts_views(all@) =~= seq![]);
        match aws {
            Some(a) => {
                let relevant = relevant_for_resources(&a.warnings, resources);
                copy_texts(&relevant, &mut all);
            },
            None => {},
        }
        let ghost after_aws = texts_views(all@);
        match azure {
            Some(z) => {
                let relevant = relevant_for_resources(&z.warnings, resources);
                copy_texts(&relevant, &mut all);
            },
            None => {},
        }
        let ghost after_azure = texts_views(all@);
        let aws_stale = match aws {
            Some(a) => a.status == ResolutionStatus::Stale,
            None => false,
        };
        if aws_stale {
            all.push(AWS_STALE_WARNING.to_owned());
        }
        let ghost after_aws_stale = texts_views(all@);
        let azure_stale = match azure {
            Some(z) => z.status == ResolutionStatus::Stale,
            None => false,
        };
        if azure_stale {
            all.push(AZURE_STALE_WARNING.to_owned());
        }
        proof {
            let aws_w = match opt_deref(aws) {
                Some(a) => relevant_warnings(texts_views(a.warnings@), resources@),
                None => Seq::<Seq<char>>::empty(),
            };
            let azure_w = match opt_deref(azure) {
                Some(z) => relevant_warnings(texts_views(z.warnings@), resources@),
                None => Seq::<Seq<char>>::empty(),
            };
            assert(after_aws =~= aws_w);
            assert(after_azure =~= aws_w + azure_w);
            if aws_stale {
                assert(after_aws_stale =~= after_azure + seq![AWS_STALE_WARNING@]);
            } else {
                assert(after_aws_stale =~= after_azure + Seq::<Seq<char>>::empty());
            }
            if azure_stale {
                assert(texts_views(all@) =~= after_aws_stale + seq![AZURE_STALE_WARNING@]);
            } else {
                assert(texts_views(all@) =~= after_aws_stale + Seq::<Seq<char>>::empty());
            }
            assert(texts_views(all@) =~= warning_views(opt_deref(aws), opt_deref(azure), resources@));
        }
        sort_dedup_texts(all)
    }

    /// What a calculation of `input` gives, `None` standing for a figure beyond
    /// the decimal type: refused for another formula version, an invalid project
    /// or snapshots out of scope; a SQL pay-as-you-go project is its licensing
    /// analysis; otherwise every resource is calculated in order and the
    /// portfolio totalled.
    pub open spec fn calculation_matches(
        &self,
        input: &CalculationInput,
        r: Option<Result<CalculationRevision, CalculationError>>,
    ) -> bool {
        &&& version_mismatch(input.expected_formula_version, self.spec_formula_version()) ==> r == Some(
            Err::<CalculationRevision, CalculationError>(CalculationError::FormulaVersionMismatch),
        )
        &&& !version_mismatch(input.expected_formula_version, self.spec_formula_version()) ==> exists|
            p: EditableProject,
        |
            #[trigger] calculation_project(
                p,
                *input.settings,
                input.resources@,
                opt_deref(input.aws_prices),
                opt_deref(input.azure_prices),
            ) && if spec_validation_issues(p).len() > 0 || spec_scope_mismatch(
                *input.settings,
                opt_deref(input.aws_prices),
                opt_deref(input.azure_prices),
            ) is Some {
                r matches Some(x) && refusal_matches(
                    x,
                    p,
                    *input.settings,
                    opt_deref(input.aws_prices),
                    opt_deref(input.azure_prices),
                )
            } else if input.settings.project_type == ProjectType::SqlPayg {
                sql_payg_matches(r, self.spec_formula_version(), *input.settings)
            } else {
                resources_revision_matches(
                    r,
                    self.spec_candidates(),
                    self.spec_formula_version(),
                    *input.settings,
                    input.resources@,
                    opt_deref(input.aws_prices),
                    opt_deref(input.azure_prices),
                )
            }
    }

    /// The calculation of a project: refused for another formula version, an
    /// invalid project or snapshots out of scope; a SQL pay-as-you-go project is
    /// its licensing analysis; otherwise every resource is calculated in order
    /// and the portfolio totalled. `None` where a figure is beyond the decimal type.
    #[verifier::rlimit(60)]
    pub fn calculate_checked(&self, input: &CalculationInput) -> (r: Option<Result<CalculationRevision, CalculationError>>)
        ensures
            self.calculation_matches(input, r),
    {
        match self.validate_input(input) {
            Err(e) => {
                return Some(Err(e));
            },
            Ok(()) => {},
        }
        if input.settings.project_type == ProjectType::SqlPayg {
            return self.calculate_sql_payg_checked(input.settings);
        }
        let ghost cands = self.spec_candidates();
        let ghost settings = *input.settings;
        let ghost aws = opt_deref(input.aws_prices);
        let ghost azure = opt_deref(input.azure_prices);
        let ghost resources = input.resources@;
        let ghost project = choose|p: EditableProject|
            #[trigger] calculation_project(p, settings, resources, aws, azure) && refusal_matches(
                Ok::<(), CalculationError>(()),
                p,
                settings,
                aws,
                azure,
            );
        let mut results: Vec<ResourceCalculation> = Vec::new();
        let mut rows: Vec<PortfolioRow> = Vec::new();
        let mut k: usize = 0;
        while k < input.resources.len()
            invariant
                k <= resources.len(),
                resources == input.resources@,
                cands == self.spec_candidates(),
                settings == *input.settings,
                aws == opt_deref(input.aws_prices),
                azure == opt_deref(input.azure_prices),
                results_so_far(cands, resources, settings, aws, azure, results@, k as int),
                rows@ == rows_of(results@),
                !version_mismatch(input.expected_formula_version, self.spec_formula_version()),
                input.settings.project_type != ProjectType::SqlPayg,
                calculation_project(project, settings, resources, aws, azure),
                spec_validation_issues(project).len() == 0,
                spec_scope_mismatch(settings, aws, azure) is None,
            decreases resources.len() - k,
        {
            let outcome = self.calculate_resource_checked(
                &input.resources[k],
                input.settings,
                input.aws_prices,
                input.azure_prices,
            );
            match outcome {
                None => {
                    assert(results_so_far(cands, resources, settings, aws, azure, results@, results@.len() as int));
                    return None;
                },
                Some(Err(e)) => {
                    assert(results_so_far(cands, resources, settings, aws, azure, results@, results@.len() as int));
                    return Some(Err(e));
                },
                Some(Ok(x)) => {
                    rows.push(
                        PortfolioRow {
                            source_costs: x.source_costs,
                            azure_costs: x.azure_costs,
                            mapping_status: x.mapping_status,
                            aws_pricing_status: x.aws_pricing_status,
                            azure_pricing_status: x.azure_pricing_status,
                        },
                    );
                    let ghost before = results@;
                    results.push(x);
                    proof {
                        assert(rows@ =~= rows_of(results@));
                        assert forall|j: int| 0 <= j < k + 1 implies resource_outcome(
                            cands,
                            #[trigger] resources[j],
                            settings,
                            aws,
                            azure,
                            Some(Ok::<ResourceCalculation, CalculationError>(results@[j])),
                        ) by {
                            if j < k {
                                assert(results@[j] == before[j]);
                            }
                        }
                    }
                },
            }
            k = k + 1;
        }
        assert(results_so_far(cands, resources, settings, aws, azure, results@, results@.len() as int));
        let totals = match calculate_portfolio_checked(&rows, input.settings.selected_parity_adjustment) {
            None => {
                return None;
            },
            Some(t) => t,
        };
        let warnings = Self::calculation_warnings(input.aws_prices, input.azure_prices, input.resources);
        Some(
            Ok(
                CalculationRevision {
                    formula_version: self.formula_version.clone(),
                    aws_snapshot_id: match input.aws_prices {
                        Some(a) => Some(a.snapshot_id.clone()),
                        None => None,
                    },
                    azure_snapshot_id: match input.azure_prices {
                        Some(z) => Some(z.snapshot_id.clone()),
                        None => None,
                    },
                    resource_results: results,
                    portfolio_totals: totals,
                    warnings,
                    sql_payg_analysis: None,
                },
            ),
        )
    }

    /// The calculation of a project, where no figure is beyond the decimal type.
    pub fn calculate(&self, input: &CalculationInput) -> (r: Result<CalculationRevision, CalculationError>)
        requires
            forall|x: Option<Result<CalculationRevision, CalculationError>>|
                #[trigger] self.calculation_matches(input, x) ==> x is Some,
        ensures
            self.calculation_matches(input, Some(r)),
    {
        self.calculate_checked(input).unwrap()
    }
}

/// The portfolio totals of calculated resources: the all-rows AWS total is
/// known exactly when every resource has source costs; the mapped totals sum
/// the source and the Azure costs of the comparable resources (both costs
/// known), which are counted, as are the resources without a mapping; the
/// difference is the Azure total after the selected parity less the AWS
/// mapped total.
pub proof fn lemma_portfolio_of_results(results: Seq<ResourceCalculation>, selected: DecimalValue)
    ensures
        spec_portfolio(rows_of(results), selected) matches Some(t) ==> {
            &&& (t.aws_all_rows_total is Some <==> forall|k: int|
                0 <= k < results.len() ==> (#[trigger] results[k]).source_costs is Some)
            &&& t.aws_mapped_rows_total == mapped_source_total(rows_of(results)).unwrap()
            &&& t.azure_mapped_rows_total == mapped_azure_total(rows_of(results)).unwrap()
            &&& t.comparable_resource_count == comparable_count(rows_of(results)) as usize
            &&& t.no_mapping_resource_count == no_mapping_count(rows_of(results)) as usize
            &&& t.selected_parity_adjustment == selected
            &&& Some(t.portfolio_difference) == decimal_sub(t.portfolio_after_selected_parity, t.aws_mapped_rows_total)
        },
{
    let rows = rows_of(results);
    assert forall|k: int| 0 <= k < results.len() implies #[trigger] rows[k] == PortfolioRow {
        source_costs: results[k].source_costs,
        azure_costs: results[k].azure_costs,
        mapping_status: results[k].mapping_status,
        aws_pricing_status: results[k].aws_pricing_status,
        azure_pricing_status: results[k].azure_pricing_status,
    } by {}
    if spec_portfolio(rows, selected) is Some {
        if forall|k: int| 0 <= k < results.len() ==> (#[trigger] results[k]).source_costs is Some {
            assert(forall|i: int| 0 <= i < rows.len() ==> (#[trigger] rows[i]).source_costs is Some);
        } else {
            let k = choose|k: int| 0 <= k < results.len() && !(results[k].source_costs is Some);
            assert(rows[k].source_costs is None);
        }
    }
}

/// A resource calculated without error carries the resource's id.
pub proof fn lemma_result_carries_resource_id(
    cands: Seq<TargetCandidate>,
    resource: Resource,
    settings: ProjectSettings,
    aws: Option<AwsSnapshotPrices>,
    azure: Option<AzureSnapshotPrices>,
    x: ResourceCalculation,
)
    requires
        resource_outcome(cands, resource, settings, aws, azure, Some(Ok::<ResourceCalculation, CalculationError>(x))),
    ensures
        x.resource_id == resource.spec_shared().id,
{
    let req = choose|req: TargetSelectionRequest|
        #[trigger] request_for(req, resource, settings, aws) && resource_result_matches(
            Some(Ok::<ResourceCalculation, CalculationError>(x)),
            spec_resource_calculation(cands, resource, settings, aws, azure, req),
            cands,
            req,
        );
    let expected = spec_resource_calculation(cands, resource, settings, aws, azure, req);
    assert(expected matches Some(Ok(v)) && resource_view(x) == v);
    assert(resource_view(x).resource_id == x.resource_id);
}

/// A calculated project of resources (not a SQL pay-as-you-go project) has one
/// result per resource, in the resources' order, each carrying its resource's
/// id; its warnings are sorted, each once, and are those of the snapshots that
/// concern the submitted resources with a note for each stale snapshot; it has no
/// licensing analysis and carries the engine's formula version.
pub proof fn lemma_revision_of_resources(engine: CalculationEngine, input: CalculationInput, rev: CalculationRevision)
    requires
        engine.calculation_matches(&input, Some(Ok::<CalculationRevision, CalculationError>(rev))),
        input.settings.project_type != ProjectType::SqlPayg,
    ensures
        rev.resource_results@.len() == input.resources@.len(),
        forall|i: int|
            0 <= i < input.resources@.len() ==> (#[trigger] rev.resource_results@[i]).resource_id
                == input.resources@[i].spec_shared().id,
        sorted_distinct_of(
            rev.warnings@,
            warning_views(opt_deref(input.aws_prices), opt_deref(input.azure_prices), input.resources@),
        ),
        rev.sql_payg_analysis is None,
        rev.formula_version@ == engine.spec_formula_version(),
        spec_portfolio(rows_of(rev.resource_results@), input.settings.selected_parity_adjustment) == Some(
            rev.portfolio_totals,
        ),
{
    let r = Some(Ok::<CalculationRevision, CalculationError>(rev));
    let settings = *input.settings;
    let aws = opt_deref(input.aws_prices);
    let azure = opt_deref(input.azure_prices);
    assert(!version_mismatch(input.expected_formula_version, engine.spec_formula_version()));
    let p = choose|p: EditableProject|
        #[trigger] calculation_project(p, settings, input.resources@, aws, azure) && if spec_validation_issues(p).len() > 0
            || spec_scope_mismatch(settings, aws, azure) is Some {
            r matches Some(x) && refusal_matches(x, p, settings, aws, azure)
        } else if settings.project_type == ProjectType::SqlPayg {
            sql_payg_matches(r, engine.spec_formula_version(), settings)
        } else {
            resources_revision_matches(
                r,
                engine.spec_candidates(),
                engine.spec_formula_version(),
                settings,
                input.resources@,
                aws,
                azure,
            )
        };
    assert(!(spec_validation_issues(p).len() > 0 || spec_scope_mismatch(settings, aws, azure) is Some));
    assert forall|i: int| 0 <= i < input.resources@.len() implies (#[trigger] rev.resource_results@[i]).resource_id
        == input.resources@[i].spec_shared().id by {
        lemma_result_carries_resource_id(
            engine.spec_candidates(),
            input.resources@[i],
            settings,
            aws,
            azure,
            rev.resource_results@[i],
        );
    }
}

/// The RDS rate used for a resource is the first record of the snapshot with
/// the resource's instance type, deployment, commercial term and storage class;
/// there is none only when no record has all four.
pub proof fn lemma_rds_rate_found(prices: AwsSnapshotPrices, resource: RdsResource)
    ensures
        match spec_rds_rate(prices, resource) {
            Some(x) => exists|i: int|
                0 <= i < prices.rds_rates@.len() && #[trigger] prices.rds_rates@[i] == x && x.instance_type@
                    == resource.instance_type@ && x.deployment == resource.deployment && x.commercial_term@
                    == resource.commercial_term@ && x.storage_class@ == resource.storage_class@ && forall|j: int|
                    0 <= j < i ==> !{
                        let y = #[trigger] prices.rds_rates@[j];
                        y.instance_type@ == resource.instance_type@ && y.deployment == resource.deployment
                            && y.commercial_term@ == resource.commercial_term@ && y.storage_class@
                            == resource.storage_class@
                    },
            None => forall|j: int|
                0 <= j < prices.rds_rates@.len() ==> !{
                    let y = #[trigger] prices.rds_rates@[j];
                    y.instance_type@ == resource.instance_type@ && y.deployment == resource.deployment
                        && y.commercial_term@ == resource.commercial_term@ && y.storage_class@ == resource.storage_class@
                },
        },
{
    let p = rds_rate_matches(
        resource.instance_type@,
        resource.deployment,
        resource.commercial_term@,
        resource.storage_class@,
    );
    lemma_first_match(prices.rds_rates@, p);
    match first_match(prices.rds_rates@, p) {
        Some(i) => {
            assert(prices.rds_rates@[i] == spec_rds_rate(prices, resource).unwrap());
        },
        None => {},
    }
}

/// The EC2 rate used for an instance type is the first record of the snapshot
/// with that instance type; there is none only when no record has it.
pub proof fn lemma_ec2_rate_found(prices: AwsSnapshotPrices, instance_type: Seq<char>)
    ensures
        match spec_ec2_rate(prices, instance_type) {
            Some(x) => exists|i: int|
                0 <= i < prices.ec2_rates@.len() && #[trigger] prices.ec2_rates@[i] == x && x.instance_type@
                    == instance_type && forall|j: int|
                    0 <= j < i ==> (#[trigger] prices.ec2_rates@[j]).instance_type@ != instance_type,
            None => forall|j: int|
                0 <= j < prices.ec2_rates@.len() ==> (#[trigger] prices.ec2_rates@[j]).instance_type@ != instance_type,
        },
{
    let p = ec2_rate_matches(instance_type);
    lemma_first_match(prices.ec2_rates@, p);
    match first_match(prices.ec2_rates@, p) {
        Some(i) => {
            assert(prices.ec2_rates@[i] == spec_ec2_rate(prices, instance_type).unwrap());
        },
        None => {},
    }
}

/// The managed-instance rate used for a configuration and purchase option is the
/// first record of the snapshot with both; there is none only when no record
/// has both.
pub proof fn lemma_mi_rate_found(prices: AzureSnapshotPrices, key: Seq<char>, option: PurchaseOption)
    ensures
        match spec_mi_rate(prices, key, option) {
            Some(x) => exists|i: int|
                0 <= i < prices.mi_rates@.len() && #[trigger] prices.mi_rates@[i] == x && x.configuration_key@ == key
                    && x.purchase_option == option && forall|j: int|
                    0 <= j < i ==> !((#[trigger] prices.mi_rates@[j]).configuration_key@ == key
                        && prices.mi_rates@[j].purchase_option == option),
            None => forall|j: int|
                0 <= j < prices.mi_rates@.len() ==> !((#[trigger] prices.mi_rates@[j]).configuration_key@ == key
                    && prices.mi_rates@[j].purchase_option == option),
        },
{
    let p = mi_rate_matches(key, option);
    lemma_first_match(prices.mi_rates@, p);
    match first_match(prices.mi_rates@, p) {
        Some(i) => {
            assert(prices.mi_rates@[i] == spec_mi_rate(prices, key, option).unwrap());
        },
        None => {},
    }
}

/// Each snapshot resolution is reported as the pricing status of the same name.
pub proof fn lemma_pricing_status_names(status: ResolutionStatus)
    ensures
        spec_pricing_status(status) == PricingStatus::Fresh <==> status == ResolutionStatus::Fresh,
        spec_pricing_status(status) == PricingStatus::Cached <==> status == ResolutionStatus::Cached,
        spec_pricing_status(status) == PricingStatus::Stale <==> status == ResolutionStatus::Stale,
        spec_pricing_status(status) == PricingStatus::Unavailable <==> status == ResolutionStatus::Unavailable,
{
}

/// The purchase-option discounts of a configuration come from its own rates:
/// the one- and three-year reservations and the savings plan are the discounts of
/// their compute rates against the pay-as-you-go compute rate, the hybrid
/// benefit that of its license rate against the pay-as-you-go license rate, and
/// pay-as-you-go discounts nothing; they are missing exactly when one of those
/// five rates is.
pub proof fn lemma_purchase_option_discounts_rates(prices: AzureSnapshotPrices, key: Seq<char>)
    ensures
        spec_purchase_option_discounts(prices, key) == Some(None::<PurchaseOptionDiscounts>) <==> (spec_mi_rate(
            prices,
            key,
            PurchaseOption::Payg,
        ) is None || spec_mi_rate(prices, key, PurchaseOption::Ahb) is None || spec_mi_rate(
            prices,
            key,
            PurchaseOption::OneYear,
        ) is None || spec_mi_rate(prices, key, PurchaseOption::ThreeYear) is None || spec_mi_rate(
            prices,
            key,
            PurchaseOption::SavingsOneYear,
        ) is None),
        spec_purchase_option_discounts(prices, key) matches Some(Some(d)) ==> {
            let payg = spec_mi_rate(prices, key, PurchaseOption::Payg).unwrap().rate;
            &&& d.payg == DecimalValue::integer_value(0)
            &&& Some(d.one_year_reserved) == spec_rate_discount(
                payg.compute_hourly,
                spec_mi_rate(prices, key, PurchaseOption::OneYear).unwrap().rate.compute_hourly,
            )
            &&& Some(d.three_year_reserved) == spec_rate_discount(
                payg.compute_hourly,
                spec_mi_rate(prices, key, PurchaseOption::ThreeYear).unwrap().rate.compute_hourly,
            )
            &&& Some(d.one_year_savings_plan) == spec_rate_discount(
                payg.compute_hourly,
                spec_mi_rate(prices, key, PurchaseOption::SavingsOneYear).unwrap().rate.compute_hourly,
            )
            &&& Some(d.azure_hybrid_benefit) == spec_rate_discount(
                payg.license_hourly,
                spec_mi_rate(prices, key, PurchaseOption::Ahb).unwrap().rate.license_hourly,
            )
        },
{
}

/// The Azure costs of a resource are priced with the rate of the selected
/// configuration under the resource's own purchase option, for the resource's
/// quantity and hours, the storage, and the selected and included memory, and
/// carry the status of the Azure snapshot; without a snapshot, or for a workload
/// without SQL, there are none and the price is unavailable.
pub proof fn lemma_azure_costs_use_purchase_option_rate(
    selected: SelectedTarget,
    resource: Resource,
    storage_gb: DecimalValue,
    azure: Option<AzureSnapshotPrices>,
    settings: ProjectSettings,
)
    ensures
        spec_resolve_azure_costs(selected, resource, storage_gb, azure, settings) matches Some(v) ==> {
            &&& (azure is None || resource.spec_sql() is None) ==> v.0 is None && v.2 == PricingStatus::Unavailable
            &&& v.0 matches Some(costs) ==> {
                &&& azure matches Some(prices)
                &&& resource.spec_sql() matches Some(sql)
                &&& spec_mi_rate(prices, selected.configuration_key@, sql.mi_purchase_option) matches Some(record)
                &&& record.configuration_key@ == selected.configuration_key@
                &&& record.purchase_option == sql.mi_purchase_option
                &&& spec_azure(
                    resource.spec_shared().quantity,
                    resource.spec_shared().annual_hours_per_instance,
                    storage_gb,
                    selected.included_memory_gb,
                    selected.selected_memory_gb,
                    record.rate,
                    settings,
                ) == Some(Ok::<AzureCostBreakdown, CostError>(costs))
                &&& v.2 == spec_pricing_status(prices.status)
            }
        },
{
    match azure {
        Some(prices) => match resource.spec_sql() {
            Some(sql) => {
                lemma_mi_rate_found(prices, selected.configuration_key@, sql.mi_purchase_option);
            },
            None => {},
        },
        None => {},
    }
}

/// An RDS source is priced with the snapshot's rate for the resource's instance
/// type, deployment, commercial term and storage class: its costs are those of
/// that rate, its vCPUs the rate's, its IOPS the resource's, and it carries the
/// status of the AWS snapshot; without a snapshot or such a rate it has no costs
/// and its price is unavailable.
pub proof fn lemma_rds_source_uses_its_rate(resource: RdsResource, aws: Option<AwsSnapshotPrices>, settings: ProjectSettings)
    ensures
        spec_rds_resolved(resource, aws, settings) matches Some(v) ==> {
            &&& (aws is None || spec_rds_rate(aws.unwrap(), resource) is None) ==> v.2 is None && v.3
                == PricingStatus::Unavailable
            &&& v.2 matches Some(costs) ==> {
                &&& aws matches Some(prices)
                &&& spec_rds_rate(prices, resource) matches Some(record)
                &&& record.instance_type@ == resource.instance_type@
                &&& record.deployment == resource.deployment
                &&& record.commercial_term@ == resource.commercial_term@
                &&& record.storage_class@ == resource.storage_class@
                &&& spec_rds_source(resource, record.rate, settings) == Some(Ok::<SourceCostBreakdown, CostError>(costs))
                &&& v.0 == Some(record.rate.source_vcpu)
                &&& v.1 == Some(resource.source_max_iops)
                &&& v.3 == spec_pricing_status(prices.status)
            }
        },
{
    if aws is Some {
        lemma_rds_rate_found(aws.unwrap(), resource);
    }
}

/// An EC2 source is priced with the snapshot's rate for the resource's instance
/// type and the snapshot's EBS rates: its costs are those of that rate, its
/// vCPUs the rate's, and it carries the status of the AWS snapshot; without a
/// snapshot or such a rate it has no costs and its price is unavailable.
pub proof fn lemma_ec2_source_uses_its_rate(resource: Ec2Resource, aws: Option<AwsSnapshotPrices>, settings: ProjectSettings)
    ensures
        spec_ec2_resolved(resource, aws, settings) matches Some(v) ==> {
            &&& (aws is None || spec_ec2_rate(aws.unwrap(), resource.instance_type@) is None) ==> v.2 is None && v.3
                == PricingStatus::Unavailable
            &&& v.2 matches Some(costs) ==> {
                &&& aws matches Some(prices)
                &&& spec_ec2_rate(prices, resource.instance_type@) matches Some(record)
                &&& record.instance_type@ == resource.instance_type@
                &&& spec_ec2_source(resource, record.rate, prices.ebs_rates@, settings) == Some(
                    Ok::<SourceCostBreakdown, CostError>(costs),
                )
                &&& v.0 == Some(record.rate.source_vcpu)
                &&& v.3 == spec_pricing_status(prices.status)
            }
        },
{
    if aws is Some {
        lemma_ec2_rate_found(aws.unwrap(), resource.instance_type@);
    }
}

/// What a calculated resource holds: its storage inputs; its source costs and
/// AWS status as its source resolved them; savings exactly when it has both
/// source and Azure costs, computed from the two with the project's selected
/// adjustment; without a mapping (no source sizing) or without a target, no
/// Azure costs, the Azure price not required for an unmapped one; a mapped one
/// has a selected target.
pub proof fn lemma_resource_result_parts(
    cands: Seq<TargetCandidate>,
    resource: Resource,
    settings: ProjectSettings,
    aws: Option<AwsSnapshotPrices>,
    azure: Option<AzureSnapshotPrices>,
    x: ResourceCalculation,
)
    requires
        resource_outcome(cands, resource, settings, aws, azure, Some(Ok::<ResourceCalculation, CalculationError>(x))),
    ensures
        Some(x.storage_inputs) == spec_storage_inputs(resource),
        !(resource is Ec2Vm),
        spec_resolved_source(resource, aws, settings) matches Some(Ok(src)) && x.source_costs == src.2
            && x.aws_pricing_status == src.3,
        x.savings is Some <==> (x.source_costs is Some && x.azure_costs is Some),
        x.savings matches Some(v) ==> spec_savings(
            x.source_costs.unwrap(),
            x.azure_costs.unwrap(),
            settings.selected_parity_adjustment,
        ) == Some(v),
        x.mapping_status is None ==> x.azure_costs is None && x.azure_pricing_status == PricingStatus::Unavailable,
        x.mapping_status == Some(MappingStatus::NoMapping) ==> x.azure_costs is None && x.azure_pricing_status
            == PricingStatus::NotRequired,
        x.mapping_status == Some(MappingStatus::Mapped) ==> (x.target_selection matches Some(sel) && sel.selected is Some),
        x.target_selection matches Some(sel) ==> exists|req: TargetSelectionRequest|
            {
                &&& #[trigger] selection_matches(sel, cands, req)
                &&& req.azure_region@ == settings.azure_region@
                &&& spec_resolved_source(resource, aws, settings) matches Some(Ok(src)) && src.0 == Some(
                    req.source_vcpu,
                ) && req.source_max_iops == (match src.1 {
                    Some(i) => i,
                    None => 0u64,
                })
                &&& req.source_memory_gb == resource.spec_shared().source_ram_gb_per_instance
                &&& req.required_storage_gb == x.storage_inputs.azure_storage_gb_per_instance
                &&& req.workbook_parity_mode
            },
{
    let req = choose|req: TargetSelectionRequest|
        #[trigger] request_for(req, resource, settings, aws) && resource_result_matches(
            Some(Ok::<ResourceCalculation, CalculationError>(x)),
            spec_resource_calculation(cands, resource, settings, aws, azure, req),
            cands,
            req,
        );
    let expected = spec_resource_calculation(cands, resource, settings, aws, azure, req);
    assert(expected matches Some(Ok(v)) && resource_view(x) == v);
    if x.target_selection is Some {
        let sel = x.target_selection.unwrap();
        assert(selection_matches(sel, cands, req));
    }
}

/// A calculation succeeds only for the expected formula version (when one is
/// expected), a project without validation issues, an AWS snapshot (if any) in
/// the project's currency and AWS region, and an Azure snapshot (if any) in the
/// project's currency and Azure region; another expected version is refused as
/// a formula version mismatch.
pub proof fn lemma_calculation_accepted(engine: CalculationEngine, input: CalculationInput, r: Option<Result<CalculationRevision, CalculationError>>)
    requires
        engine.calculation_matches(&input, r),
    ensures
        (input.expected_formula_version matches Some(e) && e@ != engine.spec_formula_version()) ==> r == Some(
            Err::<CalculationRevision, CalculationError>(CalculationError::FormulaVersionMismatch),
        ),
        r matches Some(Ok(rev)) ==> {
            &&& input.expected_formula_version matches Some(e) ==> e@ == engine.spec_formula_version()
            &&& opt_deref(input.aws_prices) matches Some(a) ==> (input.settings.aws_region matches Some(region)
                && a.currency@ == input.settings.currency@ && a.source_region@ == region@)
            &&& opt_deref(input.azure_prices) matches Some(z) ==> (z.currency@ == input.settings.currency@
                && z.target_region@ == input.settings.azure_region@)
            &&& exists|p: EditableProject|
                #[trigger] calculation_project(
                    p,
                    *input.settings,
                    input.resources@,
                    opt_deref(input.aws_prices),
                    opt_deref(input.azure_prices),
                ) && spec_validation_issues(p).len() == 0
        },
{
    if r is Some && r.unwrap() is Ok {
        let settings = *input.settings;
        let aws = opt_deref(input.aws_prices);
        let azure = opt_deref(input.azure_prices);
        let p = choose|p: EditableProject|
            #[trigger] calculation_project(p, settings, input.resources@, aws, azure) && if spec_validation_issues(p).len() > 0
                || spec_scope_mismatch(settings, aws, azure) is Some {
                r matches Some(x) && refusal_matches(x, p, settings, aws, azure)
            } else if settings.project_type == ProjectType::SqlPayg {
                sql_payg_matches(r, engine.spec_formula_version(), settings)
            } else {
                resources_revision_matches(
                    r,
                    engine.spec_candidates(),
                    engine.spec_formula_version(),
                    settings,
                    input.resources@,
                    aws,
                    azure,
                )
            };
        assert(!(spec_validation_issues(p).len() > 0 || spec_scope_mismatch(settings, aws, azure) is Some));
    }
}

/// A calculated SQL pay-as-you-go project compares Software Assurance with net
/// PAYG: its analysis takes the licensed cores and Software Assurance of the
/// project's licensing settings, the project's default annual hours, and the
/// selected adjustment as the applied discount; the portfolio has Software
/// Assurance as the AWS total, gross PAYG as the Azure total, net PAYG as Azure
/// after the selected adjustment, their difference, one comparable row and no
/// resource results.
pub proof fn lemma_payg_project(engine: CalculationEngine, input: CalculationInput, rev: CalculationRevision)
    requires
        engine.calculation_matches(&input, Some(Ok::<CalculationRevision, CalculationError>(rev))),
        input.settings.project_type == ProjectType::SqlPayg,
    ensures
        input.settings.sql_payg matches Some(sp) && rev.sql_payg_analysis matches Some(a) && {
            &&& a.enterprise_licensed_cores == sp.enterprise_licensed_cores
            &&& a.standard_licensed_cores == sp.standard_licensed_cores
            &&& a.software_assurance_annual_usd == sp.software_assurance_annual_usd
            &&& a.annual_hours == input.settings.default_annual_hours
            &&& a.applied_payg_discount == input.settings.selected_parity_adjustment
            &&& rev.portfolio_totals.aws_mapped_rows_total == sp.software_assurance_annual_usd
            &&& rev.portfolio_totals.aws_all_rows_total == Some(sp.software_assurance_annual_usd)
            &&& rev.portfolio_totals.azure_mapped_rows_total == a.payg_gross_annual_usd
            &&& rev.portfolio_totals.portfolio_after_selected_parity == a.payg_net_annual_usd
            &&& Some(rev.portfolio_totals.portfolio_difference) == decimal_sub(
                a.payg_net_annual_usd,
                sp.software_assurance_annual_usd,
            )
            &&& rev.portfolio_totals.required_portfolio_adjustment == a.required_payg_discount
            &&& rev.portfolio_totals.comparable_resource_count == 1
            &&& rev.resource_results@.len() == 0
        },
{
    let r = Some(Ok::<CalculationRevision, CalculationError>(rev));
    let settings = *input.settings;
    let aws = opt_deref(input.aws_prices);
    let azure = opt_deref(input.azure_prices);
    let p = choose|p: EditableProject|
        #[trigger] calculation_project(p, settings, input.resources@, aws, azure) && if spec_validation_issues(p).len() > 0
            || spec_scope_mismatch(settings, aws, azure) is Some {
            r matches Some(x) && refusal_matches(x, p, settings, aws, azure)
        } else if settings.project_type == ProjectType::SqlPayg {
            sql_payg_matches(r, engine.spec_formula_version(), settings)
        } else {
            resources_revision_matches(
                r,
                engine.spec_candidates(),
                engine.spec_formula_version(),
                settings,
                input.resources@,
                aws,
                azure,
            )
        };
    assert(!(spec_validation_issues(p).len() > 0 || spec_scope_mismatch(settings, aws, azure) is Some));
}

/// The portfolio reads one row per resource result, in order, each with the
/// result's source and Azure costs, mapping status and pricing statuses; the
/// totals of a calculated project of resources are those of these rows under the
/// project's selected adjustment.
pub proof fn lemma_rows_of_results(results: Seq<ResourceCalculation>)
    ensures
        rows_of(results).len() == results.len(),
        forall|i: int|
            0 <= i < results.len() ==> {
                let row = #[trigger] rows_of(results)[i];
                &&& row.source_costs == results[i].source_costs
                &&& row.azure_costs == results[i].azure_costs
                &&& row.mapping_status == results[i].mapping_status
                &&& row.aws_pricing_status == results[i].aws_pricing_status
                &&& row.azure_pricing_status == results[i].azure_pricing_status
            },
{
}

/// The warnings a calculation gathers, before sorting: the AWS snapshot's
/// warnings that concern the submitted resources, then the Azure snapshot's,
/// then the AWS staleness note exactly when the AWS snapshot is stale, then the
/// Azure note exactly when the Azure snapshot is stale.
pub proof fn lemma_warning_views(
    aws: Option<AwsSnapshotPrices>,
    azure: Option<AzureSnapshotPrices>,
    resources: Seq<Resource>,
)
    ensures
        warning_views(aws, azure, resources) == (match aws {
            Some(a) => relevant_warnings(texts_views(a.warnings@), resources),
            None => Seq::<Seq<char>>::empty(),
        }) + (match azure {
            Some(z) => relevant_warnings(texts_views(z.warnings@), resources),
            None => Seq::<Seq<char>>::empty(),
        }) + (if aws matches Some(a) && a.status == ResolutionStatus::Stale {
            seq![AWS_STALE_WARNING@]
        } else {
            Seq::<Seq<char>>::empty()
        }) + (if azure matches Some(z) && z.status == ResolutionStatus::Stale {
            seq![AZURE_STALE_WARNING@]
        } else {
            Seq::<Seq<char>>::empty()
        }),
{
}

/// The snapshot has a rate record of the configuration under the purchase option.
pub open spec fn has_rate_record(prices: AzureSnapshotPrices, key: Seq<char>, option: PurchaseOption) -> bool {
    exists|i: int|
        0 <= i < prices.mi_rates@.len() && (#[trigger] prices.mi_rates@[i]).configuration_key@ == key
            && prices.mi_rates@[i].purchase_option == option
}

/// A configuration's rate set is complete exactly when the snapshot has a rate
/// record of that configuration for every purchase option.
pub proof fn lemma_complete_rate_set(prices: AzureSnapshotPrices, key: Seq<char>)
    ensures
        spec_complete_mi_rate_set(prices, key) <==> forall|option: PurchaseOption|
            #[trigger] has_rate_record(prices, key, option),
{
    assert forall|option: PurchaseOption| #[trigger] spec_mi_rate(prices, key, option) is Some <==> has_rate_record(
        prices,
        key,
        option,
    ) by {
        lemma_mi_rate_found(prices, key, option);
    }
    if spec_complete_mi_rate_set(prices, key) {
        assert forall|option: PurchaseOption| #[trigger] has_rate_record(prices, key, option) by {
            assert(spec_mi_rate(prices, key, option) is Some);
        }
    }
    if forall|option: PurchaseOption| #[trigger] has_rate_record(prices, key, option) {
        assert(has_rate_record(prices, key, PurchaseOption::Payg));
        assert(has_rate_record(prices, key, PurchaseOption::Ahb));
        assert(has_rate_record(prices, key, PurchaseOption::OneYear));
        assert(has_rate_record(prices, key, PurchaseOption::AhbOneYear));
        assert(has_rate_record(prices, key, PurchaseOption::ThreeYear));
        assert(has_rate_record(prices, key, PurchaseOption::AhbThreeYear));
        assert(has_rate_record(prices, key, PurchaseOption::SavingsOneYear));
        assert(has_rate_record(prices, key, PurchaseOption::AhbSavingsOneYear));
    }
}

} // verus!
