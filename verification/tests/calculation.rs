use std::sync::Arc;

use azure_sql_tco::calculation::{
    AwsSnapshotPrices, AzureSnapshotPrices, CalculationEngine, CalculationInput, Ec2RateRecord, MiRateRecord,
    ResolutionStatus, AWS_STALE_WARNING,
};
use azure_sql_tco::cost::{AzureRate, Ec2Rate};
use azure_sql_tco::decimal::DecimalValue;
use azure_sql_tco::project::{ProjectSettings, SqlPaygSettings};
use azure_sql_tco::resource::{
    EbsVolume, EbsVolumeType, Ec2Resource, Ec2VmRequirements, Ec2VmResource, LicenseBasis, OnPremResource, ProjectType,
    PurchaseOption, Resource, SharedResource, SqlEdition, SqlWorkload, VmBurstPolicy, VmHighFrequencyRequirement,
    VmInstanceStoreUse, VmDiskRole, VmPurchaseOption, VmVolume,
};
use azure_sql_tco::target_selector::{
    CapabilityCatalog, MappingStatus, SelectionReasonCode, ServiceTier, TargetCandidate,
};
use azure_sql_tco::warnings::{is_relevant, subject_of};
use azure_sql_tco::workflow::{CalculationError, ExplanationStep, PricingStatus};

fn decimal(value: &str) -> DecimalValue {
    DecimalValue::parse(value).expect("valid decimal")
}

fn engine(maximum_storage_gb: Option<&str>) -> CalculationEngine {
    CalculationEngine::new(
        Arc::new(CapabilityCatalog {
            schema_version: "test".to_owned(),
            candidates: vec![TargetCandidate {
                configuration_key: "nggp-8".to_owned(),
                azure_region: "swedencentral".to_owned(),
                service_tier: ServiceTier::NextGenerationGeneralPurpose,
                hardware_family: "Premium Series".to_owned(),
                vcores: 8,
                zone_redundant: false,
                included_memory_gb: decimal("56"),
                supported_memory_gb: vec![decimal("56"), decimal("64")],
                storage_architecture: "Remote LRS".to_owned(),
                maximum_storage_gb: maximum_storage_gb.map(decimal),
                source_url: "https://learn.microsoft.com/azure/azure-sql/managed-instance/resource-limits".to_owned(),
                reviewed_date: "2026-07-31".to_owned(),
            }],
        }),
        "1.0.0".to_owned(),
    )
    .ok()
    .expect("engine")
}

fn settings() -> ProjectSettings {
    ProjectSettings {
        project_type: ProjectType::Ec2,
        aws_region: Some("eu-west-1".to_owned()),
        azure_region: "swedencentral".to_owned(),
        currency: "USD".to_owned(),
        source_compute_discount: DecimalValue::zero(),
        source_license_discount: DecimalValue::zero(),
        source_storage_discount: DecimalValue::zero(),
        azure_compute_discount: DecimalValue::zero(),
        azure_license_discount: DecimalValue::zero(),
        azure_storage_discount: DecimalValue::zero(),
        selected_parity_adjustment: DecimalValue::zero(),
        default_annual_hours: decimal("8760"),
        default_mi_purchase_option: PurchaseOption::Ahb,
        enterprise_license_sa_usd_per_two_core_pack: None,
        standard_license_sa_usd_per_two_core_pack: None,
        remaining_coverage_months: None,
        electricity_rate_usd_per_kwh: None,
        sql_payg: None,
    }
}

fn shared() -> SharedResource {
    SharedResource {
        id: 7,
        workload_name: "Synthetic workload".to_owned(),
        server_name: None,
        quantity: 1,
        source_ram_gb_per_instance: decimal("64"),
        annual_hours_per_instance: decimal("8760"),
    }
}

fn ec2_resource(sql_data_gb: &str) -> Resource {
    Resource::Ec2(ec2_workload(sql_data_gb))
}

fn ec2_workload(sql_data_gb: &str) -> Ec2Resource {
    Ec2Resource {
        shared: shared(),
        sql: SqlWorkload {
            sql_edition: SqlEdition::Standard,
            license_basis: LicenseBasis::Byol,
            sql_data_gb_per_instance: decimal(sql_data_gb),
            mi_purchase_option: PurchaseOption::Ahb,
        },
        instance_type: "m-test".to_owned(),
        volumes: vec![EbsVolume {
            id: 8,
            label: "D".to_owned(),
            aws_volume_id: None,
            volume_type: EbsVolumeType::Ephemeral,
            capacity_gb: DecimalValue::zero(),
            provisioned_iops: None,
            throughput_mibps: None,
        }],
    }
}

fn snapshot_id(prefix: &str) -> String {
    format!("{prefix}{}", "a".repeat(64))
}

fn aws_prices(status: ResolutionStatus, warnings: Vec<String>) -> AwsSnapshotPrices {
    AwsSnapshotPrices {
        snapshot_id: snapshot_id("aws-"),
        currency: "USD".to_owned(),
        source_region: "eu-west-1".to_owned(),
        retrieved_at: "2026-08-01T00:00:00Z".to_owned(),
        status,
        warnings,
        ec2_rates: vec![Ec2RateRecord {
            instance_type: "m-test".to_owned(),
            rate: Ec2Rate {
                source_vcpu: 8,
                catalog_memory_gb: decimal("64"),
                compute_hourly: decimal("1"),
                standard_license_hourly: Some(decimal("0.48")),
                enterprise_license_hourly: Some(decimal("1.5")),
            },
            source_url: "https://example.test/aws".to_owned(),
        }],
        rds_rates: Vec::new(),
        ebs_rates: Vec::new(),
    }
}

fn aws_prices_for(instance_type: &str, source_vcpu: u32, catalog_memory_gb: &str) -> AwsSnapshotPrices {
    let mut prices = aws_prices(ResolutionStatus::Fresh, Vec::new());
    prices.ec2_rates = vec![Ec2RateRecord {
        instance_type: instance_type.to_owned(),
        rate: Ec2Rate {
            source_vcpu,
            catalog_memory_gb: decimal(catalog_memory_gb),
            compute_hourly: decimal("1"),
            standard_license_hourly: Some(decimal("0.48")),
            enterprise_license_hourly: Some(decimal("1.5")),
        },
        source_url: "https://example.test/aws".to_owned(),
    }];
    prices
}

/// The Azure rates of one configuration for every purchase option: compute
/// 0.8 pay-as-you-go, 0.6 reserved for a year, 0.5 for three, 0.7 on a savings
/// plan; license 0.4 except under the hybrid benefit.
fn azure_prices_for(configuration_key: &str) -> AzureSnapshotPrices {
    let options = [
        PurchaseOption::Payg,
        PurchaseOption::Ahb,
        PurchaseOption::OneYear,
        PurchaseOption::AhbOneYear,
        PurchaseOption::ThreeYear,
        PurchaseOption::AhbThreeYear,
        PurchaseOption::SavingsOneYear,
        PurchaseOption::AhbSavingsOneYear,
    ];
    let mut prices = azure_prices();
    prices.mi_rates = options
        .iter()
        .map(|option| {
            let compute = match option {
                PurchaseOption::Payg | PurchaseOption::Ahb => "0.8",
                PurchaseOption::OneYear | PurchaseOption::AhbOneYear => "0.6",
                PurchaseOption::ThreeYear | PurchaseOption::AhbThreeYear => "0.5",
                PurchaseOption::SavingsOneYear | PurchaseOption::AhbSavingsOneYear => "0.7",
            };
            let license = match option {
                PurchaseOption::Ahb
                | PurchaseOption::AhbOneYear
                | PurchaseOption::AhbThreeYear
                | PurchaseOption::AhbSavingsOneYear => "0",
                _ => "0.4",
            };
            MiRateRecord {
                configuration_key: configuration_key.to_owned(),
                purchase_option: *option,
                rate: AzureRate {
                    compute_hourly: decimal(compute),
                    license_hourly: decimal(license),
                    storage_monthly_per_gb: decimal("0.10"),
                    additional_memory_per_gb_hourly: decimal("0.01"),
                },
                source_url: "https://example.test/azure".to_owned(),
            }
        })
        .collect();
    prices
}

fn capacity_candidate(configuration_key: &str, hardware_family: &str, memory_gb: &str) -> TargetCandidate {
    TargetCandidate {
        configuration_key: configuration_key.to_owned(),
        azure_region: "swedencentral".to_owned(),
        service_tier: ServiceTier::NextGenerationGeneralPurpose,
        hardware_family: hardware_family.to_owned(),
        vcores: 128,
        zone_redundant: false,
        included_memory_gb: decimal(memory_gb),
        supported_memory_gb: vec![decimal(memory_gb)],
        storage_architecture: "Remote LRS".to_owned(),
        maximum_storage_gb: Some(decimal("32768")),
        source_url: "https://learn.microsoft.com/azure/azure-sql/managed-instance/resource-limits".to_owned(),
        reviewed_date: "2026-08-14".to_owned(),
    }
}

fn capacity_engine() -> CalculationEngine {
    CalculationEngine::new(
        Arc::new(CapabilityCatalog {
            schema_version: "test".to_owned(),
            candidates: vec![
                capacity_candidate("managed-vcore-next-gen-general-purpose-premium-series-128", "Premium Series", "560"),
                capacity_candidate(
                    "managed-vcore-next-gen-general-purpose-premium-series-memory-optimized-128",
                    "Premium Series Memory Optimized",
                    "870.4",
                ),
            ],
        }),
        "1.0.0".to_owned(),
    )
    .ok()
    .expect("capacity engine")
}

fn sql_data_volume() -> EbsVolume {
    EbsVolume {
        id: 9,
        label: "SQL data".to_owned(),
        aws_volume_id: None,
        volume_type: EbsVolumeType::Gp3,
        capacity_gb: decimal("600"),
        provisioned_iops: Some(3000),
        throughput_mibps: Some(decimal("125")),
    }
}

fn on_prem_settings() -> ProjectSettings {
    let mut settings = settings();
    settings.project_type = ProjectType::OnPrem;
    settings.aws_region = None;
    settings.standard_license_sa_usd_per_two_core_pack = Some(decimal("1200"));
    settings.enterprise_license_sa_usd_per_two_core_pack = Some(decimal("4800"));
    settings.remaining_coverage_months = Some(36);
    settings.electricity_rate_usd_per_kwh = Some(decimal("0.20"));
    settings
}

fn value<'a>(step: &'a ExplanationStep, key: &str) -> Option<&'a str> {
    step.values.iter().find(|(k, _)| k == key).map(|(_, v)| v.as_str())
}

fn step<'a>(steps: &'a [ExplanationStep], code: &str) -> &'a ExplanationStep {
    steps.iter().find(|step| step.code == code).unwrap_or_else(|| panic!("missing {code} explanation step"))
}

fn mi_rate(option: PurchaseOption, compute: &str, license: &str) -> MiRateRecord {
    MiRateRecord {
        configuration_key: "nggp-8".to_owned(),
        purchase_option: option,
        rate: AzureRate {
            compute_hourly: decimal(compute),
            license_hourly: decimal(license),
            storage_monthly_per_gb: decimal("0.1"),
            additional_memory_per_gb_hourly: decimal("0.01"),
        },
        source_url: "https://example.test/azure".to_owned(),
    }
}

fn azure_prices() -> AzureSnapshotPrices {
    AzureSnapshotPrices {
        snapshot_id: snapshot_id("azure-"),
        currency: "USD".to_owned(),
        target_region: "swedencentral".to_owned(),
        retrieved_at: "2026-08-02T00:00:00Z".to_owned(),
        status: ResolutionStatus::Fresh,
        warnings: Vec::new(),
        mi_rates: vec![
            mi_rate(PurchaseOption::Payg, "1", "0.5"),
            mi_rate(PurchaseOption::Ahb, "1", "0"),
            mi_rate(PurchaseOption::OneYear, "0.8", "0.5"),
            mi_rate(PurchaseOption::AhbOneYear, "0.8", "0"),
            mi_rate(PurchaseOption::ThreeYear, "0.5", "0.5"),
            mi_rate(PurchaseOption::AhbThreeYear, "0.5", "0"),
            mi_rate(PurchaseOption::SavingsOneYear, "0.9", "0.5"),
            mi_rate(PurchaseOption::AhbSavingsOneYear, "0.9", "0"),
        ],
    }
}

#[test]
fn sql_payg_workflow_uses_net_payg_for_portfolio_comparison() {
    let engine = engine(Some("512"));
    let mut settings = settings();
    settings.project_type = ProjectType::SqlPayg;
    settings.aws_region = None;
    settings.azure_region = "global".to_owned();
    settings.default_annual_hours = decimal("1920");
    settings.selected_parity_adjustment = decimal("0.25");
    settings.sql_payg = Some(SqlPaygSettings {
        enterprise_licensed_cores: 8,
        standard_licensed_cores: 16,
        software_assurance_annual_usd: decimal("20000"),
    });
    let resources: Vec<Resource> = Vec::new();
    let revision = engine
        .calculate_checked(&CalculationInput {
            settings: &settings,
            resources: &resources,
            aws_prices: None,
            azure_prices: None,
            expected_formula_version: Some("1.0.0"),
        })
        .expect("figures in range")
        .ok()
        .expect("calculation");
    let analysis = revision.sql_payg_analysis.clone().expect("SQL PAYG analysis should be present");
    assert_eq!(analysis.payg_gross_annual_usd, decimal("8832.000"));
    assert_eq!(analysis.payg_net_annual_usd, decimal("6624.00000"));
    assert_eq!(analysis.annual_savings_usd, decimal("13376.00000"));
    assert_eq!(revision.portfolio_totals.azure_mapped_rows_total, decimal("8832.000"));
    assert_eq!(revision.portfolio_totals.portfolio_after_selected_parity, decimal("6624.00000"));
    assert_eq!(revision.portfolio_totals.portfolio_difference, decimal("-13376.00000"));
    assert_eq!(revision.warnings.len(), 2);
}

#[test]
fn no_mapping_retains_source_cost_and_excludes_row_from_parity() {
    let engine = engine(Some("512"));
    let settings = settings();
    let resources = vec![ec2_resource("800")];
    let aws = aws_prices(ResolutionStatus::Fresh, Vec::new());
    let azure = azure_prices();
    let revision = engine
        .calculate_checked(&CalculationInput {
            settings: &settings,
            resources: &resources,
            aws_prices: Some(&aws),
            azure_prices: Some(&azure),
            expected_formula_version: Some("1.0.0"),
        })
        .expect("figures in range")
        .ok()
        .expect("calculation");
    let row = &revision.resource_results[0];
    assert_eq!(row.mapping_status, Some(MappingStatus::NoMapping));
    assert!(row.source_costs.is_some());
    assert!(row.azure_costs.is_none());
    assert_eq!(revision.portfolio_totals.no_mapping_resource_count, 1);
    assert_eq!(revision.portfolio_totals.aws_mapped_rows_total, DecimalValue::zero());
    assert!(revision.portfolio_totals.aws_all_rows_total.is_some());
}

#[test]
fn missing_azure_snapshot_keeps_mapping_and_source_cost() {
    let engine = engine(None);
    let settings = settings();
    let resources = vec![ec2_resource("100")];
    let aws = aws_prices(ResolutionStatus::Fresh, Vec::new());
    let revision = engine
        .calculate_checked(&CalculationInput {
            settings: &settings,
            resources: &resources,
            aws_prices: Some(&aws),
            azure_prices: None,
            expected_formula_version: None,
        })
        .expect("figures in range")
        .ok()
        .expect("calculation");
    let row = &revision.resource_results[0];
    assert_eq!(row.mapping_status, Some(MappingStatus::Mapped));
    assert!(row.source_costs.is_some());
    assert_eq!(row.azure_pricing_status, PricingStatus::Unavailable);
    assert!(row.savings.is_none());
    assert_eq!(row.unresolved_components[0].code, "azure_snapshot_unavailable");
}

#[test]
fn mapped_resource_is_costed_on_both_sides_with_savings_and_parity() {
    let engine = engine(None);
    let settings = settings();
    let resources = vec![ec2_resource("100")];
    let aws = aws_prices(ResolutionStatus::Fresh, Vec::new());
    let azure = azure_prices();
    let revision = engine
        .calculate_checked(&CalculationInput {
            settings: &settings,
            resources: &resources,
            aws_prices: Some(&aws),
            azure_prices: Some(&azure),
            expected_formula_version: Some("1.0.0"),
        })
        .expect("figures in range")
        .ok()
        .expect("calculation");
    let row = &revision.resource_results[0];
    assert_eq!(row.mapping_status, Some(MappingStatus::Mapped));
    assert_eq!(row.aws_pricing_status, PricingStatus::Fresh);
    assert_eq!(row.azure_pricing_status, PricingStatus::Fresh);
    let azure_costs = row.azure_costs.expect("Azure costs");
    // AHB: compute 1 * 8760, 8 GB above the included memory at 0.01, no license,
    // storage 128 GB configured less 32 included at 0.1 a month.
    assert_eq!(azure_costs.compute_gross, decimal("8760"));
    assert_eq!(azure_costs.additional_ram_gross, decimal("700.80"));
    assert_eq!(azure_costs.license_gross, decimal("0"));
    assert_eq!(azure_costs.storage_gross, decimal("115.2"));
    let discounts = row.purchase_option_discounts.expect("discounts");
    assert_eq!(discounts.one_year_reserved, decimal("0.2"));
    assert_eq!(discounts.three_year_reserved, decimal("0.5"));
    assert_eq!(discounts.one_year_savings_plan, decimal("0.1"));
    assert_eq!(discounts.azure_hybrid_benefit, decimal("1"));
    assert!(row.savings.is_some());
    let codes: Vec<&str> = row.explanation_steps.iter().map(|step| step.code.as_str()).collect();
    assert_eq!(
        codes,
        vec![
            "source_price_provenance",
            "source_inputs",
            "source_cost_formula",
            "target_price_provenance",
            "azure_cost_formula",
            "savings_formula",
            "parity_formula",
        ]
    );
    assert_eq!(revision.portfolio_totals.comparable_resource_count, 1);
    for step in &row.explanation_steps {
        for pair in step.values.windows(2) {
            assert!(pair[0].0 < pair[1].0, "values of {} are not in key order", step.code);
        }
    }
}

#[test]
fn another_formula_version_is_refused() {
    let engine = engine(None);
    let settings = settings();
    let resources = vec![ec2_resource("100")];
    let result = engine.calculate_checked(&CalculationInput {
        settings: &settings,
        resources: &resources,
        aws_prices: None,
        azure_prices: None,
        expected_formula_version: Some("2.0.0"),
    });
    assert!(matches!(result, Some(Err(CalculationError::FormulaVersionMismatch))));
}

#[test]
fn a_snapshot_of_another_region_is_out_of_scope() {
    let engine = engine(None);
    let settings = settings();
    let resources = vec![ec2_resource("100")];
    let mut azure = azure_prices();
    azure.target_region = "westeurope".to_owned();
    let result = engine.calculate_checked(&CalculationInput {
        settings: &settings,
        resources: &resources,
        aws_prices: None,
        azure_prices: Some(&azure),
        expected_formula_version: None,
    });
    assert!(matches!(
        result,
        Some(Err(CalculationError::SnapshotScopeMismatch(azure_sql_tco::pricing::Provider::Azure)))
    ));
}

#[test]
fn warnings_are_sorted_each_once_with_a_stale_note() {
    let engine = engine(None);
    let settings = settings();
    let resources = vec![ec2_resource("100")];
    let aws = aws_prices(
        ResolutionStatus::Stale,
        vec!["b warning".to_owned(), "a warning".to_owned(), "b warning".to_owned()],
    );
    let revision = engine
        .calculate_checked(&CalculationInput {
            settings: &settings,
            resources: &resources,
            aws_prices: Some(&aws),
            azure_prices: None,
            expected_formula_version: None,
        })
        .expect("figures in range")
        .ok()
        .expect("calculation");
    assert_eq!(
        revision.warnings,
        vec!["AWS pricing snapshot is stale but still within the usable window.".to_owned(), "a warning".to_owned(), "b warning".to_owned()]
    );
    assert_eq!(revision.warnings[0], AWS_STALE_WARNING);
    assert_eq!(revision.resource_results[0].aws_pricing_status, PricingStatus::Stale);
}

#[test]
fn a_vm_workload_needs_the_vm_selection() {
    let engine = engine(None);
    let mut settings = settings();
    settings.project_type = ProjectType::Ec2Vm;
    let resources = vec![Resource::Ec2Vm(Ec2VmResource {
        shared: shared(),
        instance_type: "m-test".to_owned(),
        vm_purchase_option: VmPurchaseOption::Payg,
        requirements: Ec2VmRequirements {
            burst_policy: VmBurstPolicy::NotApplicable,
            instance_store_use: VmInstanceStoreUse::NotUsed,
            required_local_temp_disk_gb: None,
            ephemeral_data_loss_acceptable: None,
            high_frequency_requirement: VmHighFrequencyRequirement::NotApplicable,
            requested_target_arm_sku: None,
        },
        volumes: vec![VmVolume {
            id: 11,
            label: "os".to_owned(),
            aws_volume_id: None,
            volume_type: EbsVolumeType::Gp3,
            role: VmDiskRole::Os,
            capacity_gb: decimal("128"),
            provisioned_iops: Some(3000),
            throughput_mibps: None,
        }],
    })];
    let result = engine.calculate_checked(&CalculationInput {
        settings: &settings,
        resources: &resources,
        aws_prices: None,
        azure_prices: None,
        expected_formula_version: None,
    });
    assert!(matches!(result, Some(Err(CalculationError::VmTargetSelectionUnavailable))));
}

#[test]
fn ec2_sql_data_and_persistent_ebs_are_combined_for_target_storage() {
    let engine = engine(Some("512"));
    let settings = settings();
    let mut resource = ec2_workload("1");
    resource.volumes = vec![sql_data_volume()];
    let resources = vec![Resource::Ec2(resource)];
    let aws = aws_prices(ResolutionStatus::Fresh, Vec::new());
    let revision = engine
        .calculate(&CalculationInput {
            settings: &settings,
            resources: &resources,
            aws_prices: Some(&aws),
            azure_prices: None,
            expected_formula_version: Some("1.0.0"),
        })
        .ok()
        .expect("calculation");
    let row = &revision.resource_results[0];
    assert_eq!(row.mapping_status, Some(MappingStatus::NoMapping));
    assert_eq!(row.storage_inputs.sql_data_gb_per_instance, decimal("1"));
    assert_eq!(row.storage_inputs.persistent_ebs_gb_per_instance, decimal("600"));
    assert_eq!(row.storage_inputs.azure_storage_gb_per_instance, decimal("608"));
}

#[test]
fn ec2_combined_storage_is_used_for_azure_storage_cost() {
    let engine = engine(Some("1024"));
    let settings = settings();
    let mut resource = ec2_workload("1");
    resource.volumes = vec![sql_data_volume()];
    let resources = vec![Resource::Ec2(resource)];
    let aws = aws_prices(ResolutionStatus::Fresh, Vec::new());
    let azure = azure_prices_for("nggp-8");
    let revision = engine
        .calculate(&CalculationInput {
            settings: &settings,
            resources: &resources,
            aws_prices: Some(&aws),
            azure_prices: Some(&azure),
            expected_formula_version: Some("1.0.0"),
        })
        .ok()
        .expect("calculation");
    let row = &revision.resource_results[0];
    assert_eq!(row.mapping_status, Some(MappingStatus::Mapped));
    assert_eq!(row.azure_costs.expect("Azure costs").storage_gross, decimal("691.20"));
}

#[test]
fn very_large_ec2_shape_uses_closest_sql_mi_capacity_with_explicit_notes() {
    let engine = capacity_engine();
    let settings = settings();
    let resources = vec![Resource::Ec2(Ec2Resource {
        shared: SharedResource {
            id: 21,
            workload_name: "Synthetic large-memory EC2 workload".to_owned(),
            server_name: None,
            quantity: 1,
            source_ram_gb_per_instance: decimal("1536"),
            annual_hours_per_instance: decimal("8760"),
        },
        sql: SqlWorkload {
            sql_edition: SqlEdition::Enterprise,
            license_basis: LicenseBasis::Byol,
            sql_data_gb_per_instance: decimal("4096"),
            mi_purchase_option: PurchaseOption::Ahb,
        },
        instance_type: "r7i.48xlarge".to_owned(),
        volumes: vec![EbsVolume {
            id: 22,
            label: "Instance storage".to_owned(),
            aws_volume_id: None,
            volume_type: EbsVolumeType::Ephemeral,
            capacity_gb: DecimalValue::zero(),
            provisioned_iops: None,
            throughput_mibps: None,
        }],
    })];
    let aws = aws_prices_for("r7i.48xlarge", 192, "1536");
    let azure = azure_prices_for("managed-vcore-next-gen-general-purpose-premium-series-memory-optimized-128");
    let revision = engine
        .calculate(&CalculationInput {
            settings: &settings,
            resources: &resources,
            aws_prices: Some(&aws),
            azure_prices: Some(&azure),
            expected_formula_version: Some("1.0.0"),
        })
        .ok()
        .expect("calculation");
    let row = &revision.resource_results[0];
    let selection = row.target_selection.as_ref().expect("target selection");
    let selected = selection.selected.as_ref().expect("capacity fallback");
    assert_eq!(row.mapping_status, Some(MappingStatus::Mapped));
    assert_eq!(selected.vcores, 128);
    assert_eq!(selected.selected_memory_gb, decimal("870.4"));
    assert_eq!(selection.outcome_reasons.len(), 2);
    assert!(selection.outcome_reasons.iter().any(|reason| {
        reason.code == SelectionReasonCode::InsufficientVcores
            && reason.detail.contains("source requirement of 192 vCores")
            && reason.detail.contains("closest available configuration provides 128 vCores")
    }));
    assert!(selection.outcome_reasons.iter().any(|reason| {
        reason.code == SelectionReasonCode::InsufficientMemory
            && reason.detail.contains("source requirement of 1536 GB memory")
            && reason.detail.contains("closest available configuration provides 870.4 GB")
    }));
}

#[test]
fn one_tib_on_prem_source_uses_closest_sql_mi_memory_with_explicit_note() {
    let engine = capacity_engine();
    let settings = on_prem_settings();
    let resources = vec![Resource::OnPrem(OnPremResource {
        shared: SharedResource {
            id: 31,
            workload_name: "Synthetic 1 TiB on-prem workload".to_owned(),
            server_name: None,
            quantity: 1,
            source_ram_gb_per_instance: decimal("1024"),
            annual_hours_per_instance: decimal("8760"),
        },
        sql: SqlWorkload {
            sql_edition: SqlEdition::Enterprise,
            license_basis: LicenseBasis::LicenseIncluded,
            sql_data_gb_per_instance: decimal("4096"),
            mi_purchase_option: PurchaseOption::Ahb,
        },
        source_vcpu: 128,
        licensable_cores: 128,
        source_max_iops: 0,
        hardware_capex_usd: decimal("100000"),
        depreciation_years: decimal("4"),
        average_power_kw_override: Some(decimal("2")),
    })];
    let azure = azure_prices_for("managed-vcore-next-gen-general-purpose-premium-series-memory-optimized-128");
    let revision = engine
        .calculate(&CalculationInput {
            settings: &settings,
            resources: &resources,
            aws_prices: None,
            azure_prices: Some(&azure),
            expected_formula_version: Some("1.0.0"),
        })
        .ok()
        .expect("calculation");
    let row = &revision.resource_results[0];
    let selection = row.target_selection.as_ref().expect("target selection");
    let selected = selection.selected.as_ref().expect("capacity fallback");
    assert_eq!(row.mapping_status, Some(MappingStatus::Mapped));
    assert_eq!(selected.vcores, 128);
    assert_eq!(selected.selected_memory_gb, decimal("870.4"));
    assert_eq!(selection.outcome_reasons.len(), 1);
    assert_eq!(selection.outcome_reasons[0].code, SelectionReasonCode::InsufficientMemory);
    assert!(selection.outcome_reasons[0].detail.contains("source requirement of 1024 GB memory"));
    assert!(selection.outcome_reasons[0].detail.contains("capacity-limited match has been applied"));
}

#[test]
fn mapped_resource_explains_cost_savings_and_parity_formulas() {
    let engine = engine(None);
    let settings = settings();
    let resources = vec![ec2_resource("100")];
    let aws = aws_prices(ResolutionStatus::Fresh, Vec::new());
    let azure = azure_prices_for("nggp-8");
    let revision = engine
        .calculate(&CalculationInput {
            settings: &settings,
            resources: &resources,
            aws_prices: Some(&aws),
            azure_prices: Some(&azure),
            expected_formula_version: Some("1.0.0"),
        })
        .ok()
        .expect("calculation");
    let row = &revision.resource_results[0];
    let source_costs = row.source_costs.expect("source costs");
    let azure_costs = row.azure_costs.expect("Azure costs");
    let discounts = row.purchase_option_discounts.expect("purchase option discounts");
    let savings = row.savings.expect("savings");

    let source = step(&row.explanation_steps, "source_cost_formula");
    assert_eq!(
        value(source, "compute_formula"),
        Some("compute_gross = quantity * annual_hours_per_instance * compute_hourly")
    );
    assert_eq!(value(source, "compute_net"), Some(source_costs.compute_net.to_string().as_str()));
    assert_eq!(value(source, "source_total"), Some(source_costs.total.to_string().as_str()));

    let azure = step(&row.explanation_steps, "azure_cost_formula");
    assert_eq!(
        value(azure, "additional_ram_formula"),
        Some(
            "additional_ram_gross = quantity * annual_hours_per_instance * additional_ram_gb * additional_memory_per_gb_hourly"
        )
    );
    assert_eq!(value(azure, "compute_plus_ram_net"), Some(azure_costs.compute_plus_ram_net.to_string().as_str()));
    assert_eq!(
        value(azure, "azure_total_before_parity"),
        Some(azure_costs.total_before_parity.to_string().as_str())
    );
    assert_eq!(discounts.payg, DecimalValue::zero());
    assert_eq!(discounts.one_year_reserved, decimal("0.25"));
    assert_eq!(discounts.three_year_reserved, decimal("0.375"));
    assert_eq!(discounts.one_year_savings_plan, decimal("0.125"));
    assert_eq!(discounts.azure_hybrid_benefit, decimal("1"));

    let savings_step = step(&row.explanation_steps, "savings_formula");
    assert_eq!(
        value(savings_step, "total_savings_formula"),
        Some("total_savings = source_total - azure_total_before_parity")
    );
    assert_eq!(value(savings_step, "total_savings"), Some(savings.total_savings.to_string().as_str()));

    let parity = step(&row.explanation_steps, "parity_formula");
    assert_eq!(
        value(parity, "required_adjustment_formula"),
        Some(
            "required_adjustment = if azure_total_before_parity == 0 then 0 else 1 - source_total / azure_total_before_parity"
        )
    );
    assert_eq!(value(parity, "required_adjustment"), Some(savings.required_adjustment.to_string().as_str()));
    assert_eq!(value(parity, "difference"), Some(savings.difference.to_string().as_str()));
}

#[test]
fn on_prem_resource_explains_hardware_license_and_electricity_formulas() {
    let engine = engine(None);
    let mut settings = on_prem_settings();
    settings.source_license_discount = decimal("0.05");
    let resources = vec![Resource::OnPrem(OnPremResource {
        shared: SharedResource {
            id: 41,
            workload_name: "Synthetic on-prem workload".to_owned(),
            server_name: None,
            quantity: 2,
            source_ram_gb_per_instance: decimal("256"),
            annual_hours_per_instance: decimal("8760"),
        },
        sql: SqlWorkload {
            sql_edition: SqlEdition::Enterprise,
            license_basis: LicenseBasis::LicenseIncluded,
            sql_data_gb_per_instance: decimal("1024"),
            mi_purchase_option: PurchaseOption::Ahb,
        },
        source_vcpu: 16,
        licensable_cores: 16,
        source_max_iops: 5000,
        hardware_capex_usd: decimal("24000"),
        depreciation_years: decimal("4"),
        average_power_kw_override: Some(decimal("0.75")),
    })];
    let azure = azure_prices_for("nggp-8");
    let revision = engine
        .calculate(&CalculationInput {
            settings: &settings,
            resources: &resources,
            aws_prices: None,
            azure_prices: Some(&azure),
            expected_formula_version: Some("1.0.0"),
        })
        .ok()
        .expect("calculation");
    let row = &revision.resource_results[0];
    let costs = row.source_costs.expect("source costs");
    let source = step(&row.explanation_steps, "source_cost_formula");
    assert_eq!(
        value(source, "hardware_formula"),
        Some("hardware_annual = quantity * hardware_capex_usd / depreciation_years")
    );
    assert_eq!(value(source, "license_pack_count"), Some("8"));
    assert_eq!(value(source, "license_sa_usd_per_two_core_pack"), Some("4800"));
    assert_eq!(value(source, "electricity_annual"), Some(costs.electricity_annual.to_string().as_str()));
    assert_eq!(value(source, "source_total"), Some(costs.total.to_string().as_str()));
}

#[test]
fn calculation_excludes_snapshot_warnings_for_unsubmitted_resources() {
    let engine = engine(None);
    let settings = settings();
    let resources = vec![ec2_resource("100")];
    let aws = aws_prices(
        ResolutionStatus::Fresh,
        vec![
            "EC2 Standard SQL rate for m-test uses the regional four-core-minimum fallback.".to_owned(),
            "EC2 Enterprise SQL rate for c4.large uses the regional four-core-minimum fallback.".to_owned(),
            "Catalog data was normalized with a documented fallback.".to_owned(),
        ],
    );
    let azure = azure_prices_for("nggp-8");
    let revision = engine
        .calculate(&CalculationInput {
            settings: &settings,
            resources: &resources,
            aws_prices: Some(&aws),
            azure_prices: Some(&azure),
            expected_formula_version: None,
        })
        .ok()
        .expect("calculation");
    assert_eq!(
        revision.warnings,
        vec![
            "Catalog data was normalized with a documented fallback.",
            "EC2 Standard SQL rate for m-test uses the regional four-core-minimum fallback.",
        ]
    );
}

#[test]
fn a_warning_names_the_instance_type_after_rate_for() {
    assert_eq!(subject_of("EC2 Standard SQL rate for m5.large uses a fallback."), Some("m5.large"));
    assert_eq!(subject_of("RDS rate for db.r5.xlarge"), Some("db.r5.xlarge"));
    assert_eq!(subject_of("Catalog data was normalized."), None);
    let resources = vec![ec2_resource("100")];
    assert!(is_relevant("EC2 Standard SQL rate for m-test uses a fallback.", &resources));
    assert!(!is_relevant("EC2 Standard SQL rate for c4.large uses a fallback.", &resources));
    assert!(is_relevant("A general note.", &resources));
}
