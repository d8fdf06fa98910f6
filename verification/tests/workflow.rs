use std::sync::Arc;

use azure_sql_tco::cost::{calculate_savings, source_costs, AzureCostBreakdown};
use azure_sql_tco::decimal::DecimalValue;
use azure_sql_tco::engine::{CalculationEngine, CalculationError};
use azure_sql_tco::target_selector::CapabilityCatalog;
use azure_sql_tco::cost::CostError;
use azure_sql_tco::pricing::Provider;
use azure_sql_tco::resource::{
    EbsVolume, EbsVolumeType, Ec2Resource, Ec2VmRequirements, Ec2VmResource, LicenseBasis, PurchaseOption, Resource,
    SharedResource, SqlEdition, SqlWorkload, VmDiskRole, VmPurchaseOption, VmVolume,
};
use azure_sql_tco::target_selector::MappingStatus;
use azure_sql_tco::workflow::{
    calculate_portfolio, calculate_portfolio_checked, PortfolioRow, PricingStatus,
    cost_unresolved, divide_or_zero, parity_formula_step, rate_discount, rate_discount_checked, savings_formula_step,
    source_input_step, source_provenance_step, storage_inputs, vm_assumptions_step,
};

fn d(value: &str) -> DecimalValue {
    DecimalValue::parse(value).expect("valid decimal")
}

fn value<'a>(values: &'a [(String, String)], key: &str) -> Option<&'a str> {
    values.iter().find(|(k, _)| k == key).map(|(_, v)| v.as_str())
}

fn azure(total: &str) -> AzureCostBreakdown {
    AzureCostBreakdown {
        compute_gross: d(total),
        additional_ram_gb: DecimalValue::zero(),
        additional_ram_gross: DecimalValue::zero(),
        compute_plus_ram_net: d(total),
        license_gross: DecimalValue::zero(),
        license_net: DecimalValue::zero(),
        storage_gross: DecimalValue::zero(),
        storage_net: DecimalValue::zero(),
        total_before_parity: d(total),
    }
}

#[test]
fn savings_and_parity_steps_explain_their_formulas() {
    let zero = DecimalValue::zero();
    let source = source_costs(d("100"), d("100"), zero, zero, zero, zero, zero, zero);
    let azure = azure("125");
    let savings = calculate_savings(&source, &azure, d("0.2"));

    let step = savings_formula_step(&source, &azure, &savings);
    assert_eq!(step.code, "savings_formula");
    assert_eq!(
        value(&step.values, "total_savings_formula"),
        Some("total_savings = source_total - azure_total_before_parity")
    );
    assert_eq!(value(&step.values, "total_savings"), Some(savings.total_savings.to_string().as_str()));

    let parity = parity_formula_step(&source, &azure, &savings);
    assert_eq!(parity.code, "parity_formula");
    assert_eq!(
        value(&parity.values, "required_adjustment_formula"),
        Some("required_adjustment = if azure_total_before_parity == 0 then 0 else 1 - source_total / azure_total_before_parity")
    );
    assert_eq!(value(&parity.values, "required_adjustment"), Some(savings.required_adjustment.to_string().as_str()));
    assert_eq!(value(&parity.values, "difference"), Some(savings.difference.to_string().as_str()));
}

#[test]
fn provenance_names_its_source() {
    let step = source_provenance_step("https://pricing.aws.amazon.com/", "2026-08-10T12:00:00Z");
    assert_eq!(step.code, "source_price_provenance");
    assert_eq!(value(&step.values, "retrieved_at"), Some("2026-08-10T12:00:00Z"));
}

#[test]
fn division_by_zero_hours_gives_zero_rates() {
    assert_eq!(divide_or_zero(d("100"), Some(DecimalValue::zero())), Some(DecimalValue::zero()));
    assert_eq!(divide_or_zero(d("100"), Some(d("8"))), Some(d("12.5")));
    assert_eq!(divide_or_zero(d("100"), None), None);
}

#[test]
fn an_engine_needs_a_catalog_with_candidates() {
    let empty = Arc::new(CapabilityCatalog { schema_version: "test".to_owned(), candidates: Vec::new() });
    assert!(matches!(CalculationEngine::new(empty, "1.3.0".to_owned()), Err(CalculationError::EmptyCapabilityCatalog)));
}

fn shared() -> SharedResource {
    SharedResource {
        id: 1,
        workload_name: "Synthetic".to_owned(),
        server_name: None,
        quantity: 2,
        source_ram_gb_per_instance: d("64"),
        annual_hours_per_instance: d("8760"),
    }
}

fn ebs(volume_type: EbsVolumeType, capacity: &str) -> EbsVolume {
    EbsVolume {
        id: 9,
        label: "volume".to_owned(),
        aws_volume_id: None,
        volume_type,
        capacity_gb: d(capacity),
        provisioned_iops: Some(3000),
        throughput_mibps: None,
    }
}

fn ec2_with_volumes() -> Resource {
    Resource::Ec2(Ec2Resource {
        shared: shared(),
        sql: SqlWorkload {
            sql_edition: SqlEdition::Enterprise,
            license_basis: LicenseBasis::Byol,
            sql_data_gb_per_instance: d("1024"),
            mi_purchase_option: PurchaseOption::Payg,
        },
        instance_type: "r6i.4xlarge".to_owned(),
        volumes: vec![ebs(EbsVolumeType::Gp3, "500"), ebs(EbsVolumeType::Ephemeral, "100")],
    })
}

fn vm_resource() -> Ec2VmResource {
    Ec2VmResource {
        shared: shared(),
        instance_type: "t3.large".to_owned(),
        vm_purchase_option: VmPurchaseOption::Payg,
        requirements: Ec2VmRequirements::defaults_for("t3.large"),
        volumes: vec![
            VmVolume {
                id: 1,
                label: "os".to_owned(),
                aws_volume_id: None,
                volume_type: EbsVolumeType::Gp3,
                role: VmDiskRole::Os,
                capacity_gb: d("128"),
                provisioned_iops: Some(3000),
                throughput_mibps: None,
            },
            VmVolume {
                id: 2,
                label: "data".to_owned(),
                aws_volume_id: None,
                volume_type: EbsVolumeType::Io2,
                role: VmDiskRole::Data,
                capacity_gb: d("256"),
                provisioned_iops: Some(6000),
                throughput_mibps: None,
            },
        ],
    }
}

#[test]
fn sql_data_and_persistent_ebs_are_combined_for_the_configured_storage() {
    let inputs = storage_inputs(&ec2_with_volumes());
    assert_eq!(inputs.sql_data_gb_per_instance.to_string(), "1024");
    assert_eq!(inputs.persistent_ebs_gb_per_instance.to_string(), "500");
    assert_eq!(inputs.azure_storage_gb_per_instance.to_string(), "1536");

    let vm = storage_inputs(&Resource::Ec2Vm(vm_resource()));
    assert_eq!(vm.sql_data_gb_per_instance.to_string(), "0");
    assert_eq!(vm.persistent_ebs_gb_per_instance.to_string(), "384");
    assert_eq!(vm.azure_storage_gb_per_instance.to_string(), "384");
}

#[test]
fn the_source_input_step_reports_the_effective_sizing() {
    let resource = ec2_with_volumes();
    let step = source_input_step(16, 20_000, &resource, storage_inputs(&resource));
    assert_eq!(step.code, "source_inputs");
    assert_eq!(value(&step.values, "source_vcpu"), Some("16"));
    assert_eq!(value(&step.values, "azure_required_storage_gb"), Some("1524"));
    assert_eq!(value(&step.values, "azure_configured_storage_gb"), Some("1536"));
    assert_eq!(value(&step.values, "source_max_iops"), Some("20000"));
    assert_eq!(value(&step.values, "quantity"), Some("2"));
}

#[test]
fn rate_discounts_are_clamped_to_the_unit_interval() {
    assert!(rate_discount(d("2.0"), d("1.5")).same_value(&d("0.25")));
    assert!(rate_discount(d("2.0"), d("3.0")).same_value(&DecimalValue::zero()));
    assert!(rate_discount(DecimalValue::zero(), d("3.0")).same_value(&DecimalValue::zero()));
    assert!(rate_discount(d("2.0"), d("-2.0")).same_value(&DecimalValue::one()));
    assert!(rate_discount_checked(d("0.0000000000000000000000000001"), d("79228162514264337593543950335")).is_none());
}

#[test]
fn the_vm_assumptions_step_names_the_requirements() {
    let step = vm_assumptions_step(&vm_resource());
    assert_eq!(step.code, "vm_assumptions");
    assert_eq!(value(&step.values, "instance_type"), Some("t3.large"));
    assert_eq!(value(&step.values, "burst_policy"), Some("confirmed_burst_compatible"));
    assert_eq!(value(&step.values, "source_instance_store"), Some("not_used"));
    assert_eq!(value(&step.values, "high_frequency_requirement"), Some("not_applicable"));
    assert_eq!(value(&step.values, "ephemeral_data_loss_acceptable"), Some(""));
    assert_eq!(value(&step.values, "disk_topology"), Some("one_managed_disk_per_persistent_ebs_volume"));
}

#[test]
fn an_incomplete_rate_set_is_reported_as_unresolved() {
    let unresolved = cost_unresolved(Provider::Azure, CostError::NegativeRate);
    assert_eq!(unresolved.provider, Some(Provider::Azure));
    assert_eq!(unresolved.code, "incomplete_rate_set");
    assert_eq!(unresolved.message, "a price rate must not be negative");
}

fn row(source_total: Option<&str>, azure_total: Option<&str>, mapping: Option<MappingStatus>) -> PortfolioRow {
    let zero = DecimalValue::zero();
    PortfolioRow {
        source_costs: source_total.map(|t| source_costs(d(t), d(t), zero, zero, zero, zero, zero, zero)),
        azure_costs: azure_total.map(azure),
        mapping_status: mapping,
        aws_pricing_status: PricingStatus::Fresh,
        azure_pricing_status: if azure_total.is_some() { PricingStatus::Fresh } else { PricingStatus::Unavailable },
    }
}

#[test]
fn portfolio_totals_compare_only_mapped_rows() {
    let rows = vec![
        row(Some("100"), Some("125"), Some(MappingStatus::Mapped)),
        row(Some("50"), None, Some(MappingStatus::NoMapping)),
        row(Some("300"), Some("375"), Some(MappingStatus::Mapped)),
    ];
    let totals = calculate_portfolio(&rows, d("0.2"));
    assert_eq!(totals.aws_all_rows_total.map(|t| t.to_string()), Some("450".to_owned()));
    assert!(totals.aws_mapped_rows_total.same_value(&d("400")));
    assert!(totals.azure_mapped_rows_total.same_value(&d("500")));
    assert!(totals.required_portfolio_adjustment.same_value(&d("0.2")));
    assert!(totals.portfolio_after_selected_parity.same_value(&d("400")));
    assert!(totals.portfolio_difference.same_value(&DecimalValue::zero()));
    assert_eq!(totals.comparable_resource_count, 2);
    assert_eq!(totals.no_mapping_resource_count, 1);
    assert_eq!(totals.price_unavailable_resource_count, 1);
}

#[test]
fn a_row_without_source_costs_leaves_the_all_rows_total_unknown() {
    let rows = vec![row(Some("100"), Some("125"), Some(MappingStatus::Mapped)), row(None, None, None)];
    let totals = calculate_portfolio(&rows, DecimalValue::zero());
    assert!(totals.aws_all_rows_total.is_none());
    assert!(totals.aws_mapped_rows_total.same_value(&d("100")));
    assert_eq!(totals.comparable_resource_count, 1);

    let empty = calculate_portfolio(&Vec::new(), DecimalValue::zero());
    assert!(empty.required_portfolio_adjustment.same_value(&DecimalValue::zero()));
    assert_eq!(empty.aws_all_rows_total.map(|t| t.to_string()), Some("0".to_owned()));
    assert!(calculate_portfolio_checked(&rows, d("-79228162514264337593543950335")).is_none());
}
