use azure_sql_tco::decimal::DecimalValue;
use azure_sql_tco::resource::{
    duplicate_resources, EbsVolume, EbsVolumeType, Ec2Resource, Ec2VmRequirements, Ec2VmResource, LicenseBasis, ProjectType, PurchaseOption, Resource,
    SharedResource, SqlEdition, SqlWorkload, VmBurstPolicy, VmHighFrequencyRequirement, VmInstanceStoreUse,
    VmPurchaseOption,
};

fn decimal(value: &str) -> DecimalValue {
    DecimalValue::parse(value).expect("valid decimal")
}

fn shared() -> SharedResource {
    SharedResource {
        id: 0x1111_1111_1111_1111_1111_1111_1111_1111,
        workload_name: "Synthetic workload".to_owned(),
        server_name: None,
        quantity: 2,
        source_ram_gb_per_instance: decimal("256"),
        annual_hours_per_instance: decimal("8760"),
    }
}

fn ec2_resource() -> Resource {
    Resource::Ec2(Ec2Resource {
        shared: shared(),
        sql: SqlWorkload {
            sql_edition: SqlEdition::Enterprise,
            license_basis: LicenseBasis::Byol,
            sql_data_gb_per_instance: decimal("1024"),
            mi_purchase_option: PurchaseOption::Ahb,
        },
        instance_type: "r6id.8xlarge".to_owned(),
        volumes: Vec::new(),
    })
}

#[test]
fn sql_accessor_is_present_for_sql_workloads() {
    let resource = ec2_resource();
    assert!(resource.sql().is_some());
    assert_eq!(resource.project_type(), ProjectType::Ec2);
}

#[test]
fn vm_workloads_carry_no_sql_inputs() {
    let resource = Resource::Ec2Vm(Ec2VmResource {
        shared: shared(),
        instance_type: "m6i.large".to_owned(),
        vm_purchase_option: VmPurchaseOption::Payg,
        requirements: Ec2VmRequirements::default(),
        volumes: Vec::new(),
    });
    assert!(resource.sql().is_none());
    assert_eq!(resource.project_type(), ProjectType::Ec2Vm);
    assert_eq!(resource.shared().quantity, 2);
}

#[test]
fn vm_requirements_default_by_instance_family() {
    let burstable = Ec2VmRequirements::defaults_for("t3.large");
    assert_eq!(burstable.burst_policy, VmBurstPolicy::ConfirmedBurstCompatible);
    assert_eq!(burstable.high_frequency_requirement, VmHighFrequencyRequirement::NotApplicable);

    let high_frequency = Ec2VmRequirements::defaults_for("z1d.2xlarge");
    assert_eq!(high_frequency.burst_policy, VmBurstPolicy::NotApplicable);
    assert_eq!(high_frequency.high_frequency_requirement, VmHighFrequencyRequirement::CapacityFitAccepted);
    assert_eq!(high_frequency.instance_store_use, VmInstanceStoreUse::NotUsed);

    let general = Ec2VmRequirements::defaults_for("m6i.large");
    assert_eq!(general.burst_policy, VmBurstPolicy::NotApplicable);
    assert_eq!(general.high_frequency_requirement, VmHighFrequencyRequirement::NotApplicable);
}

#[test]
fn vm_purchase_options_name_themselves_and_their_hybrid_benefit() {
    assert_eq!(VmPurchaseOption::AhbSavingsThreeYear.as_str(), "ahbsv-three-year");
    assert_eq!(VmPurchaseOption::OneYear.as_str(), "one-year");
    assert!(VmPurchaseOption::AhbOneYear.uses_ahb());
    assert!(!VmPurchaseOption::SavingsThreeYear.uses_ahb());
}

#[test]
fn resource_lists_are_copied_field_for_field() {
    let mut resource = ec2_resource();
    if let Resource::Ec2(ec2) = &mut resource {
        ec2.shared.server_name = Some("sql-01".to_owned());
        ec2.volumes.push(EbsVolume {
            id: 7,
            label: "data".to_owned(),
            aws_volume_id: Some("vol-0123".to_owned()),
            volume_type: EbsVolumeType::Gp3,
            capacity_gb: decimal("500"),
            provisioned_iops: Some(3000),
            throughput_mibps: Some(decimal("125")),
        });
    }
    let copies = duplicate_resources(&vec![resource]);
    assert_eq!(copies.len(), 1);
    match &copies[0] {
        Resource::Ec2(ec2) => {
            assert_eq!(ec2.shared.server_name.as_deref(), Some("sql-01"));
            assert_eq!(ec2.instance_type, "r6id.8xlarge");
            assert_eq!(ec2.volumes.len(), 1);
            assert_eq!(ec2.volumes[0].aws_volume_id.as_deref(), Some("vol-0123"));
            assert_eq!(ec2.volumes[0].provisioned_iops, Some(3000));
        }
        other => panic!("expected an EC2 resource, got {other:?}"),
    }
}
