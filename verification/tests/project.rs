use azure_sql_tco::decimal::DecimalValue;
use azure_sql_tco::project::{is_snapshot_id, EditableProject, ProjectSettings};
use azure_sql_tco::resource::{
    EbsVolume, Ec2Resource, Ec2VmRequirements, Ec2VmResource, EbsVolumeType, LicenseBasis, ProjectType, PurchaseOption,
    Resource, SharedResource, SqlEdition, SqlWorkload, VmDiskRole, VmPurchaseOption, VmVolume,
};

fn decimal(value: &str) -> DecimalValue {
    DecimalValue::parse(value).expect("valid decimal")
}

fn settings(project_type: ProjectType) -> ProjectSettings {
    ProjectSettings {
        project_type,
        aws_region: Some("eu-west-1".to_owned()),
        azure_region: "swedencentral".to_owned(),
        currency: "USD".to_owned(),
        source_compute_discount: decimal("0"),
        source_license_discount: decimal("0"),
        source_storage_discount: decimal("0"),
        azure_compute_discount: decimal("0"),
        azure_license_discount: decimal("0"),
        azure_storage_discount: decimal("0"),
        selected_parity_adjustment: decimal("0"),
        default_annual_hours: decimal("8760"),
        default_mi_purchase_option: PurchaseOption::Ahb,
        enterprise_license_sa_usd_per_two_core_pack: None,
        standard_license_sa_usd_per_two_core_pack: None,
        remaining_coverage_months: None,
        electricity_rate_usd_per_kwh: None,
        sql_payg: None,
    }
}

fn ec2_project(server_name: Option<String>) -> EditableProject {
    EditableProject {
        name: "Server name validation".to_owned(),
        description: None,
        settings: settings(ProjectType::Ec2),
        resources: vec![Resource::Ec2(Ec2Resource {
            shared: SharedResource {
                id: 0x1111_1111_1111_4111_8111_1111_1111_1111,
                workload_name: "SQL workload".to_owned(),
                server_name,
                quantity: 1,
                source_ram_gb_per_instance: decimal("256"),
                annual_hours_per_instance: decimal("8760"),
            },
            sql: SqlWorkload {
                sql_edition: SqlEdition::Enterprise,
                license_basis: LicenseBasis::Byol,
                sql_data_gb_per_instance: decimal("1024"),
                mi_purchase_option: PurchaseOption::Ahb,
            },
            instance_type: "r6id.8xlarge".to_owned(),
            volumes: Vec::new(),
        })],
        aws_price_snapshot_id: None,
        azure_price_snapshot_id: None,
    }
}

fn ec2_vm_project(volumes: Vec<VmVolume>) -> EditableProject {
    EditableProject {
        name: "EC2 virtual machine project".to_owned(),
        description: None,
        settings: settings(ProjectType::Ec2Vm),
        resources: vec![Resource::Ec2Vm(Ec2VmResource {
            shared: SharedResource {
                id: 0x1111_1111_1111_4111_8111_1111_1111_1111,
                workload_name: "VM1".to_owned(),
                server_name: None,
                quantity: 1,
                source_ram_gb_per_instance: decimal("384"),
                annual_hours_per_instance: decimal("8760"),
            },
            instance_type: "r6id.12xlarge".to_owned(),
            vm_purchase_option: VmPurchaseOption::Payg,
            requirements: Ec2VmRequirements::default(),
            volumes,
        })],
        aws_price_snapshot_id: None,
        azure_price_snapshot_id: None,
    }
}

fn vm_volume(id: u128, role: VmDiskRole) -> VmVolume {
    VmVolume {
        id,
        label: "Disk".to_owned(),
        aws_volume_id: None,
        volume_type: EbsVolumeType::Gp3,
        role,
        capacity_gb: decimal("1024"),
        provisioned_iops: Some(3000),
        throughput_mibps: Some(decimal("125")),
    }
}

#[test]
fn snapshot_ids_are_provider_scoped_lowercase_sha256_values() {
    let digest = "a".repeat(64);
    assert!(is_snapshot_id(&format!("aws-{digest}"), "aws-"));
    assert!(!is_snapshot_id(&format!("azure-{digest}"), "aws-"));
    assert!(!is_snapshot_id(&format!("aws-{}", "A".repeat(64)), "aws-"));
    assert!(!is_snapshot_id("aws-short", "aws-"));
}

#[test]
fn server_names_must_not_exceed_160_characters() {
    let mut project = ec2_project(Some("a".repeat(161)));

    assert!(project
        .validate()
        .iter()
        .any(|issue| issue.pointer == "/resources/0/server_name" && issue.code == "length"));

    let Resource::Ec2(resource) = &mut project.resources[0] else {
        panic!("test resource should be EC2");
    };
    resource.shared.server_name = Some("a".repeat(160));
    assert!(!project.validate().iter().any(|issue| issue.pointer == "/resources/0/server_name"));
}

#[test]
fn ec2_vm_resources_accept_one_os_disk_and_data_disks() {
    let project = ec2_vm_project(vec![
        vm_volume(0x2222_2222_2222_4222_8222_2222_2222_2222, VmDiskRole::Os),
        vm_volume(0x3333_3333_3333_4333_8333_3333_3333_3333, VmDiskRole::Data),
    ]);
    assert!(project.validate().is_empty(), "{:?}", project.validate());
}

#[test]
fn ec2_vm_resources_require_exactly_one_os_disk() {
    for volumes in [
        vec![vm_volume(0x2222_2222_2222_4222_8222_2222_2222_2222, VmDiskRole::Data)],
        vec![
            vm_volume(0x2222_2222_2222_4222_8222_2222_2222_2222, VmDiskRole::Os),
            vm_volume(0x3333_3333_3333_4333_8333_3333_3333_3333, VmDiskRole::Os),
        ],
    ] {
        let project = ec2_vm_project(volumes);
        assert!(project
            .validate()
            .iter()
            .any(|issue| issue.pointer == "/resources/0/volumes" && issue.code == "os_disk"));
    }
}

#[test]
fn ec2_vm_persistent_volumes_require_provisioned_iops() {
    let mut volume = vm_volume(0x2222_2222_2222_4222_8222_2222_2222_2222, VmDiskRole::Os);
    volume.provisioned_iops = None;
    let project = ec2_vm_project(vec![volume]);
    assert!(project
        .validate()
        .iter()
        .any(|issue| issue.pointer == "/resources/0/volumes/0/provisioned_iops" && issue.code == "required"));
}

#[test]
fn a_valid_ec2_project_has_no_issues() {
    let mut project = ec2_project(None);
    let Resource::Ec2(resource) = &mut project.resources[0] else {
        panic!("test resource should be EC2");
    };
    resource.volumes.push(EbsVolume {
        id: 0x2222_2222_2222_4222_8222_2222_2222_2222,
        label: "Data".to_owned(),
        aws_volume_id: None,
        volume_type: EbsVolumeType::Gp3,
        capacity_gb: decimal("1024"),
        provisioned_iops: Some(3000),
        throughput_mibps: Some(decimal("125")),
    });
    assert!(project.validate().is_empty(), "{:?}", project.validate());
}

#[test]
fn duplicate_resource_ids_are_reported() {
    let mut project = ec2_project(None);
    let copy = project.resources[0].clone();
    project.resources.push(copy);
    assert!(project.validate().iter().any(|issue| issue.code == "duplicate"));
}

#[test]
fn resources_must_match_the_project_type() {
    let mut project = ec2_project(None);
    project.settings.project_type = ProjectType::Rds;
    assert!(project.validate().iter().any(|issue| issue.code == "project_type_mismatch"));
}
