use azure_sql_tco::cost::{
    azure_mi_billable_storage_gb, azure_mi_configured_storage_gb, calculate_azure, calculate_azure_vm,
    calculate_ebs_volume_monthly, calculate_on_prem_source, calculate_rds_source, calculate_savings, license_pack_count,
    source_costs, source_max_iops, AzureCostBreakdown, AzureRate, CostError, EbsRate, IopsPriceTier, RdsRate,
};
use azure_sql_tco::decimal::DecimalValue;
use azure_sql_tco::project::ProjectSettings;
use azure_sql_tco::resource::{
    EbsVolume, EbsVolumeType, Ec2Resource, LicenseBasis, OnPremResource, ProjectType, PurchaseOption, RdsDeployment,
    RdsResource, SharedResource, SqlEdition, SqlWorkload,
};

fn decimal(value: &str) -> DecimalValue {
    DecimalValue::parse(value).expect("valid decimal")
}

fn d(value: &str) -> DecimalValue {
    decimal(value)
}

fn shared() -> SharedResource {
    SharedResource {
        id: 0x0123_4567_89ab_4cde_8f01_2345_6789_abcd,
        workload_name: "Synthetic workload".to_owned(),
        server_name: None,
        quantity: 1,
        source_ram_gb_per_instance: decimal("16"),
        annual_hours_per_instance: decimal("8760"),
    }
}

fn sql_workload() -> SqlWorkload {
    SqlWorkload {
        sql_edition: SqlEdition::Standard,
        license_basis: LicenseBasis::LicenseIncluded,
        sql_data_gb_per_instance: decimal("100"),
        mi_purchase_option: PurchaseOption::Ahb,
    }
}

fn ec2_resource() -> Ec2Resource {
    Ec2Resource {
        shared: shared(),
        sql: sql_workload(),
        instance_type: "r6id.8xlarge".to_owned(),
        volumes: Vec::new(),
    }
}

fn rds_resource() -> RdsResource {
    RdsResource {
        shared: shared(),
        sql: sql_workload(),
        instance_type: "db.r6i.xlarge".to_owned(),
        deployment: RdsDeployment::SingleAz,
        commercial_term: "on_demand".to_owned(),
        storage_class: "gp3".to_owned(),
        source_max_iops: 0,
    }
}

fn on_prem_resource() -> OnPremResource {
    OnPremResource {
        shared: shared(),
        sql: sql_workload(),
        source_vcpu: 4,
        licensable_cores: 4,
        source_max_iops: 0,
        hardware_capex_usd: decimal("9000"),
        depreciation_years: decimal("3"),
        average_power_kw_override: None,
    }
}

fn volume(
    volume_type: EbsVolumeType,
    capacity_gb: &str,
    provisioned_iops: Option<u64>,
    throughput_mibps: Option<&str>,
) -> EbsVolume {
    EbsVolume {
        id: 7,
        label: "D".to_owned(),
        aws_volume_id: None,
        volume_type,
        capacity_gb: decimal(capacity_gb),
        provisioned_iops,
        throughput_mibps: throughput_mibps.map(decimal),
    }
}

fn settings(project_type: ProjectType) -> ProjectSettings {
    ProjectSettings {
        project_type,
        aws_region: if project_type != ProjectType::OnPrem { Some("eu-west-1".to_owned()) } else { None },
        azure_region: "swedencentral".to_owned(),
        currency: "USD".to_owned(),
        source_compute_discount: decimal("0"),
        source_license_discount: decimal("0"),
        source_storage_discount: decimal("0"),
        azure_compute_discount: decimal("0"),
        azure_license_discount: decimal("0"),
        azure_storage_discount: decimal("0"),
        selected_parity_adjustment: decimal("0"),
        default_annual_hours: decimal("8760"),
        default_mi_purchase_option: PurchaseOption::Ahb,
        enterprise_license_sa_usd_per_two_core_pack: None,
        standard_license_sa_usd_per_two_core_pack: None,
        remaining_coverage_months: None,
        electricity_rate_usd_per_kwh: None,
        sql_payg: None,
    }
}

#[test]
fn gp3_honors_included_iops_and_throughput_per_volume() {
    let rate = EbsRate {
        volume_type: EbsVolumeType::Gp3,
        capacity_monthly_per_gb: decimal("0.08"),
        included_iops: 3_000,
        iops_monthly_per_unit: Some(decimal("0.005")),
        iops_tiers: Vec::new(),
        included_throughput_mibps: decimal("125"),
        throughput_monthly_per_mibps: Some(decimal("0.04")),
    };
    let baseline = volume(EbsVolumeType::Gp3, "100", Some(3_000), Some("125"));
    let above = volume(EbsVolumeType::Gp3, "100", Some(4_000), Some("225"));

    assert_eq!(calculate_ebs_volume_monthly(&baseline, &rate), Ok(d("8")));
    assert_eq!(calculate_ebs_volume_monthly(&above, &rate), Ok(d("17")));
}

#[test]
fn io2_tier_boundaries_are_exact() {
    let rate = EbsRate {
        volume_type: EbsVolumeType::Io2,
        capacity_monthly_per_gb: DecimalValue::zero(),
        included_iops: 0,
        iops_monthly_per_unit: None,
        iops_tiers: vec![
            IopsPriceTier { up_to_inclusive: Some(32_000), monthly_per_iops: decimal("0.065") },
            IopsPriceTier { up_to_inclusive: Some(64_000), monthly_per_iops: decimal("0.046") },
            IopsPriceTier { up_to_inclusive: None, monthly_per_iops: decimal("0.032") },
        ],
        included_throughput_mibps: DecimalValue::zero(),
        throughput_monthly_per_mibps: None,
    };

    assert_eq!(
        calculate_ebs_volume_monthly(&volume(EbsVolumeType::Io2, "0", Some(32_000), None), &rate),
        Ok(d("2080"))
    );
    assert_eq!(
        calculate_ebs_volume_monthly(&volume(EbsVolumeType::Io2, "0", Some(32_001), None), &rate),
        Ok(d("2080.046"))
    );
    assert_eq!(
        calculate_ebs_volume_monthly(&volume(EbsVolumeType::Io2, "0", Some(64_001), None), &rate),
        Ok(d("3552.032"))
    );
    assert_eq!(
        calculate_ebs_volume_monthly(&volume(EbsVolumeType::Io2, "0", Some(32_000), Some("1000")), &rate),
        Ok(d("2080"))
    );
}

#[test]
fn ec2_iops_uses_maximum_persistent_volume_not_sum() {
    let mut resource = ec2_resource();
    resource.volumes = vec![
        volume(EbsVolumeType::Gp3, "100", Some(3_000), Some("125")),
        volume(EbsVolumeType::Io2, "100", Some(20_000), None),
        volume(EbsVolumeType::Ephemeral, "100", None, None),
    ];

    assert_eq!(source_max_iops(&resource), Ok(20_000));
}

#[test]
fn rds_multi_az_quantity_is_not_doubled() {
    let mut resource = rds_resource();
    resource.shared.quantity = 2;
    resource.deployment = RdsDeployment::MultiAz;
    let costs = calculate_rds_source(
        &resource,
        RdsRate {
            source_vcpu: 4,
            catalog_memory_gb: decimal("16"),
            effective_compute_hourly: decimal("2"),
            storage_monthly_per_gb: decimal("0.10"),
            standard_license_core_hourly: decimal("0.12"),
            enterprise_license_core_hourly: decimal("0.375"),
        },
        &settings(ProjectType::Rds),
    )
    .expect("RDS costs");

    assert_eq!(costs.compute_gross, decimal("35040"));
}

#[test]
fn on_prem_costs_use_pack_rounding_power_formula_and_no_hardware_discount() {
    let mut settings = settings(ProjectType::OnPrem);
    settings.source_compute_discount = decimal("0.75");
    settings.source_storage_discount = decimal("0.75");
    settings.source_license_discount = decimal("0.05");
    settings.standard_license_sa_usd_per_two_core_pack = Some(decimal("1000"));
    settings.remaining_coverage_months = Some(36);
    settings.electricity_rate_usd_per_kwh = Some(decimal("0.20"));
    let mut resource = on_prem_resource();
    resource.licensable_cores = 5;

    let result = calculate_on_prem_source(&resource, &settings).expect("on-prem costs");

    assert_eq!(result.explanation.license_pack_count, 3);
    assert_eq!(result.explanation.estimated_power_kw, decimal("0.1569765625"));
    assert_eq!(result.costs.hardware_annual, decimal("3000"));
    assert_eq!(result.costs.license_net, decimal("950"));
    assert_eq!(result.explanation.annual_kwh, decimal("1375.1146875"));
    assert_eq!(result.explanation.electricity_monthly_average, decimal("22.918578125"));
    assert_eq!(result.costs.electricity_annual, decimal("275.0229375"));
    assert_eq!(result.costs.total, decimal("4225.0229375"));
}

#[test]
fn power_override_takes_precedence() {
    let mut configured = settings(ProjectType::OnPrem);
    configured.standard_license_sa_usd_per_two_core_pack = Some(decimal("1000"));
    configured.remaining_coverage_months = Some(12);
    configured.electricity_rate_usd_per_kwh = Some(decimal("0.20"));
    let mut resource = on_prem_resource();
    resource.average_power_kw_override = Some(decimal("0.5"));

    let result = calculate_on_prem_source(&resource, &configured).expect("on-prem costs");

    assert!(result.explanation.power_override_applied);
    assert_eq!(result.explanation.effective_power_kw, decimal("0.5"));
    assert_eq!(result.explanation.annual_kwh, decimal("4380"));
}

#[test]
fn additional_ram_is_charged_once_before_compute_discount() {
    let mut configured = settings(ProjectType::Ec2);
    configured.azure_compute_discount = decimal("0.10");
    let azure = calculate_azure(
        2,
        decimal("8760"),
        decimal("100"),
        decimal("224"),
        decimal("256"),
        AzureRate {
            compute_hourly: decimal("1"),
            license_hourly: DecimalValue::zero(),
            storage_monthly_per_gb: decimal("0.10"),
            additional_memory_per_gb_hourly: decimal("0.011663"),
        },
        &configured,
    )
    .expect("Azure costs");

    assert_eq!(azure.additional_ram_gb, decimal("32"));
    assert_eq!(azure.additional_ram_gross, decimal("6538.744320"));
    assert_eq!(azure.compute_plus_ram_net, decimal("21652.869888"));
}

#[test]
fn azure_vm_costs_split_compute_and_windows_license_before_discounts() {
    let mut configured = settings(ProjectType::Ec2Vm);
    configured.azure_compute_discount = decimal("0.10");
    configured.azure_license_discount = decimal("0.20");
    configured.azure_storage_discount = decimal("0.25");

    let azure = calculate_azure_vm(2, decimal("8760"), decimal("0.227"), decimal("0.092"), decimal("100"), &configured)
        .expect("Azure VM costs");

    assert_eq!(azure.compute_gross, decimal("2365.200"));
    assert_eq!(azure.compute_plus_ram_net, decimal("2128.6800"));
    assert_eq!(azure.license_gross, decimal("1611.840"));
    assert_eq!(azure.license_net, decimal("1289.4720"));
    assert_eq!(azure.storage_gross, decimal("2400"));
    assert_eq!(azure.storage_net, decimal("1800.00"));
    assert_eq!(azure.total_before_parity, decimal("5218.1520"));
}

#[test]
fn azure_vm_costs_reject_license_above_total_rate() {
    let result =
        calculate_azure_vm(1, decimal("8760"), decimal("0.1"), decimal("0.2"), decimal("0"), &settings(ProjectType::Ec2Vm));

    assert_eq!(result, Err(CostError::InvalidAzureVmRateComponents));
}

#[test]
fn azure_mi_storage_matches_calculator_units_and_included_capacity() {
    let configured_storage_gb = azure_mi_configured_storage_gb(decimal("7221"));

    assert_eq!(configured_storage_gb, decimal("7232"));
    assert_eq!(azure_mi_billable_storage_gb(configured_storage_gb), decimal("7200"));
    assert_eq!(
        azure_mi_billable_storage_gb(azure_mi_configured_storage_gb(DecimalValue::zero())),
        DecimalValue::zero()
    );

    let azure = calculate_azure(
        1,
        decimal("8760"),
        configured_storage_gb,
        decimal("224"),
        decimal("256"),
        AzureRate {
            compute_hourly: decimal("5.632"),
            license_hourly: decimal("3.198912"),
            storage_monthly_per_gb: decimal("0.13685"),
            additional_memory_per_gb_hourly: decimal("0.011663"),
        },
        &settings(ProjectType::Ec2),
    )
    .expect("Azure costs");

    assert_eq!(azure.storage_gross, decimal("11823.84"));
    assert_eq!(azure.total_before_parity, decimal("92452.00128"));
}

#[test]
fn required_adjustment_reaches_parity_without_rounding() {
    let source = source_costs(d("100"), d("100"), d("0"), d("0"), d("0"), d("0"), d("0"), d("0"));
    let azure = AzureCostBreakdown {
        compute_gross: decimal("125"),
        additional_ram_gb: DecimalValue::zero(),
        additional_ram_gross: DecimalValue::zero(),
        compute_plus_ram_net: decimal("125"),
        license_gross: DecimalValue::zero(),
        license_net: DecimalValue::zero(),
        storage_gross: DecimalValue::zero(),
        storage_net: DecimalValue::zero(),
        total_before_parity: decimal("125"),
    };

    let savings = calculate_savings(&source, &azure, decimal("0.2"));

    assert_eq!(savings.required_adjustment, decimal("0.2"));
    assert_eq!(savings.azure_after_selected_parity, decimal("100.0"));
    assert_eq!(savings.difference, DecimalValue::zero());
}

#[test]
fn license_packs_round_cores_up_to_pairs_with_a_floor_of_two_packs() {
    assert_eq!(license_pack_count(1), 2);
    assert_eq!(license_pack_count(4), 2);
    assert_eq!(license_pack_count(5), 3);
    assert_eq!(license_pack_count(16), 8);
}

#[test]
fn byol_rds_pays_no_license() {
    let mut resource = rds_resource();
    resource.sql.license_basis = LicenseBasis::Byol;
    let costs = calculate_rds_source(
        &resource,
        RdsRate {
            source_vcpu: 4,
            catalog_memory_gb: decimal("16"),
            effective_compute_hourly: decimal("2"),
            storage_monthly_per_gb: decimal("0.10"),
            standard_license_core_hourly: decimal("0.12"),
            enterprise_license_core_hourly: decimal("0.375"),
        },
        &settings(ProjectType::Rds),
    )
    .expect("RDS costs");

    assert_eq!(costs.license_gross, DecimalValue::zero());
    assert_eq!(costs.storage_gross, decimal("120"));
    assert_eq!(costs.total, decimal("17640"));
}

#[test]
fn on_prem_without_electricity_rate_is_refused() {
    let mut configured = settings(ProjectType::OnPrem);
    configured.standard_license_sa_usd_per_two_core_pack = Some(decimal("1000"));
    configured.remaining_coverage_months = Some(12);

    assert_eq!(
        calculate_on_prem_source(&on_prem_resource(), &configured),
        Err(CostError::MissingElectricityRate)
    );
}

#[test]
fn negative_ebs_rates_are_refused() {
    let rate = EbsRate {
        volume_type: EbsVolumeType::Gp3,
        capacity_monthly_per_gb: decimal("-0.08"),
        included_iops: 3_000,
        iops_monthly_per_unit: Some(decimal("0.005")),
        iops_tiers: Vec::new(),
        included_throughput_mibps: decimal("125"),
        throughput_monthly_per_mibps: Some(decimal("0.04")),
    };
    let baseline = volume(EbsVolumeType::Gp3, "100", Some(3_000), Some("125"));

    assert_eq!(calculate_ebs_volume_monthly(&baseline, &rate), Err(CostError::NegativeRate));
}
