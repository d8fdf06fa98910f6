use vstd::prelude::*;

use crate::decimal::{int_units, DecimalValue};
use crate::engine::CalculationRevision;
use crate::resource::{
    EbsVolume, EbsVolumeType, ProjectType, PurchaseOption, Resource, VmDiskRole,
    VmInstanceStoreUse, VmVolume,
};
use crate::text::{
    decimal_digits, has_prefix, join_text, text_equals, is_ascii_alphanumeric, is_blank, is_lower_hex_from, spec_has_prefix,
    spec_is_blank, spec_is_lower_hex, usize_text,
};
use vstd::string::StringSliceAdditionalSpecFns;
use vstd::utf8::encode_utf8;

verus! {

pub const MAX_PROJECT_RESOURCES: usize = 100;

#[derive(Clone, Debug)]
pub struct SqlPaygSettings {
    pub enterprise_licensed_cores: u32,
    pub standard_licensed_cores: u32,
    pub software_assurance_annual_usd: DecimalValue,
}

#[derive(Clone, Debug)]
pub struct ProjectSettings {
    pub project_type: ProjectType,
    pub aws_region: Option<String>,
    pub azure_region: String,
    pub currency: String,
    pub source_compute_discount: DecimalValue,
    pub source_license_discount: DecimalValue,
    pub source_storage_discount: DecimalValue,
    pub azure_compute_discount: DecimalValue,
    pub azure_license_discount: DecimalValue,
    pub azure_storage_discount: DecimalValue,
    pub selected_parity_adjustment: DecimalValue,
    pub default_annual_hours: DecimalValue,
    pub default_mi_purchase_option: PurchaseOption,
    pub enterprise_license_sa_usd_per_two_core_pack: Option<DecimalValue>,
    pub standard_license_sa_usd_per_two_core_pack: Option<DecimalValue>,
    pub remaining_coverage_months: Option<u8>,
    pub electricity_rate_usd_per_kwh: Option<DecimalValue>,
    pub sql_payg: Option<SqlPaygSettings>,
}

#[derive(Clone, Debug)]
pub struct EditableProject {
    pub name: String,
    pub description: Option<String>,
    pub settings: ProjectSettings,
    pub resources: Vec<Resource>,
    pub aws_price_snapshot_id: Option<String>,
    pub azure_price_snapshot_id: Option<String>,
}

#[derive(Clone, Debug)]
pub struct ProjectDocument {
    pub id: u128,
    pub document_type: String,
    pub owner_id: String,
    pub name: String,
    pub description: Option<String>,
    pub settings: ProjectSettings,
    pub resources: Vec<Resource>,
    pub aws_price_snapshot_id: Option<String>,
    pub azure_price_snapshot_id: Option<String>,
    pub latest_calculation_revision: Option<CalculationRevision>,
    pub formula_version: String,
    pub schema_version: String,
    pub created_at: String,
    pub updated_at: String,
    pub etag: String,
}

/// One finding of project validation: a JSON pointer to the offending input, a
/// stable code and a human-readable message.
#[derive(Clone, Debug, PartialEq, Eq)]
pub struct ValidationIssue {
    pub pointer: String,
    pub code: String,
    pub message: String,
}

pub type IssueView = (Seq<char>, Seq<char>, Seq<char>);

impl View for ValidationIssue {
    type V = IssueView;

    open spec fn view(&self) -> IssueView {
        (self.pointer@, self.code@, self.message@)
    }
}

pub open spec fn issue_views(issues: Seq<ValidationIssue>) -> Seq<IssueView> {
    issues.map_values(|issue: ValidationIssue| issue@)
}

/// The one-issue list when `condition` holds, else the empty list.
pub open spec fn when(condition: bool, pointer: Seq<char>, code: Seq<char>, message: Seq<char>) -> Seq<IssueView> {
    if condition {
        seq![(pointer, code, message)]
    } else {
        seq![]
    }
}

// Codes.
pub const CODE_LENGTH: &'static str = "length";
pub const CODE_LIMIT: &'static str = "limit";
pub const CODE_NOT_ALLOWED: &'static str = "not_allowed";
pub const CODE_FORMAT: &'static str = "format";
pub const CODE_UNSUPPORTED: &'static str = "unsupported";
pub const CODE_REQUIRED: &'static str = "required";
pub const CODE_RANGE: &'static str = "range";
pub const CODE_DUPLICATE: &'static str = "duplicate";
pub const CODE_TYPE_MISMATCH: &'static str = "project_type_mismatch";
pub const CODE_OS_DISK: &'static str = "os_disk";
pub const CODE_ON_PREM_DISCOUNT: &'static str = "on_prem_discount_not_allowed";

// Project-level pointers and messages.
pub const MSG_NAME: &'static str = "Project name must contain 1 to 100 characters.";
pub const MSG_DESCRIPTION: &'static str = "Project description must not exceed 500 characters.";
pub const MSG_RESOURCE_LIMIT: &'static str = "A project may contain at most 100 resources.";
pub const MSG_SQL_PAYG_RESOURCES: &'static str = "SQL Pay As You Go projects do not contain workload resources.";
pub const MSG_SNAPSHOT_ID: &'static str = "Snapshot IDs must be server-issued content-addressed identifiers.";

// Settings messages.
pub const MSG_CURRENCY: &'static str = "Currency must be USD.";
pub const MSG_AZURE_REGION: &'static str = "Azure region is required.";
pub const MSG_AWS_REGION_REQUIRED: &'static str = "AWS region is required for AWS projects.";
pub const MSG_AWS_REGION_NOT_ALLOWED: &'static str = "AWS region must be absent for on-premises and SQL Pay As You Go projects.";
pub const MSG_DISCOUNT: &'static str = "Discounts and adjustments must be between 0 and 1.";
pub const MSG_DEFAULT_HOURS: &'static str = "Default annual hours must be between 0 and 8,784.";
pub const MSG_ON_PREM_DISCOUNT: &'static str = "On-premises compute and storage discounts must be zero.";
pub const MSG_PACK_PRICE: &'static str = "On-premises License + SA pack prices must be greater than 0.";
pub const MSG_COVERAGE: &'static str = "Remaining coverage must be 12, 24, or 36 months.";
pub const MSG_ELECTRICITY: &'static str = "On-premises electricity rate must be zero or greater.";
pub const MSG_SQL_PAYG_CORES_RANGE: &'static str = "Enterprise and Standard licensed cores must not exceed 100,000.";
pub const MSG_SQL_PAYG_CORES_REQUIRED: &'static str = "Enter at least one Enterprise or Standard licensed core.";
pub const MSG_SQL_PAYG_SA: &'static str = "Annual Software Assurance spend must not be negative.";
pub const MSG_SQL_PAYG_REQUIRED: &'static str = "SQL Pay As You Go licensing inputs are required.";
pub const MSG_SQL_PAYG_NOT_ALLOWED: &'static str = "SQL Pay As You Go licensing inputs are allowed only for that project type.";

// Resource messages.
pub const MSG_TYPE_MISMATCH: &'static str = "Resource source type must match the project type.";
pub const MSG_DUPLICATE_RESOURCE: &'static str = "Resource IDs must be unique within a project.";
pub const MSG_WORKLOAD_NAME: &'static str = "Workload name must contain 1 to 160 characters.";
pub const MSG_SERVER_NAME: &'static str = "Server name must not exceed 160 characters.";
pub const MSG_QUANTITY: &'static str = "Quantity must be between 1 and 10,000.";
pub const MSG_SQL_DATA: &'static str = "SQL data size must be between 0 and 1,000,000,000 GB.";
pub const MSG_RAM: &'static str = "Source RAM must be greater than 0 and no more than 1,000,000 GB.";
pub const MSG_HOURS: &'static str = "Annual hours must be between 0 and 8,784.";
pub const MSG_INSTANCE_TYPE: &'static str = "EC2 instance type is required.";
pub const MSG_EC2_VOLUMES: &'static str = "EC2 resources require 1 to 50 volumes.";
pub const MSG_VM_VOLUMES: &'static str = "EC2 virtual machine resources require 1 to 50 volumes.";
pub const MSG_OS_DISK: &'static str = "EC2 virtual machine resources require exactly one OS disk.";
pub const MSG_DUPLICATE_VOLUME: &'static str = "Volume IDs must be unique within a project.";
pub const MSG_VOLUME_LABEL: &'static str = "Volume label must contain 1 to 80 characters.";
pub const MSG_AWS_VOLUME_ID: &'static str = "AWS volume ID must not exceed 128 characters.";
pub const MSG_CAPACITY: &'static str = "Volume capacity must not be negative.";
pub const MSG_IOPS: &'static str = "gp3 and io2 volumes require provisioned IOPS.";
pub const MSG_THROUGHPUT: &'static str = "Volume throughput must not be negative.";
pub const MSG_EPHEMERAL_ROW: &'static str = "Instance storage must use the VM instance-store requirements rather than a persistent volume row.";
pub const MSG_ROLE: &'static str = "Persistent volume role must be confirmed before calculation.";
pub const MSG_TEMP_DISK: &'static str = "Used instance storage requires a positive local capacity.";
pub const MSG_DATA_LOSS: &'static str = "Used instance storage requires an explicit ephemeral data-loss decision.";
pub const MSG_ARM_SKU: &'static str = "Requested Azure VM target must be a bounded ARM SKU name.";
pub const MSG_RDS_SELECTION: &'static str = "RDS catalog selections are required.";
pub const MSG_SOURCE_IOPS: &'static str = "Source maximum IOPS must not exceed 1,000,000,000.";
pub const MSG_CORE_COUNT: &'static str = "Core counts must be between 1 and 100,000.";
pub const MSG_CAPEX: &'static str = "Hardware CAPEX must not be negative.";
pub const MSG_DEPRECIATION: &'static str = "Depreciation years must be greater than 0 and no more than 50.";
pub const MSG_POWER: &'static str = "Average power override must be greater than 0.";

/// A value outside [minimum, maximum], or (minimum, maximum] when the minimum is exclusive.
pub open spec fn out_of_range(value: DecimalValue, minimum: int, maximum: int, minimum_exclusive: bool) -> bool {
    let below = if minimum_exclusive {
        value.units() <= int_units(minimum)
    } else {
        value.units() < int_units(minimum)
    };
    below || value.units() > int_units(maximum)
}

pub open spec fn optional_longer_than(text: Option<String>, limit: nat) -> bool {
    match text {
        Some(t) => t@.len() > limit,
        None => false,
    }
}

/// A server-issued snapshot ID: the provider prefix followed by 64 lowercase hex digits.
pub open spec fn spec_is_snapshot_id(value: Seq<u8>, prefix: Seq<u8>) -> bool {
    spec_has_prefix(value, prefix) && spec_is_lower_hex(value.subrange(prefix.len() as int, value.len() as int), 64)
}

pub open spec fn invalid_snapshot_reference(value: Option<String>, prefix: Seq<u8>) -> bool {
    match value {
        Some(v) => !spec_is_snapshot_id(encode_utf8(v@), prefix),
        None => false,
    }
}

pub open spec fn aws_prefix() -> Seq<u8> {
    encode_utf8("aws-"@)
}

pub open spec fn azure_prefix() -> Seq<u8> {
    encode_utf8("azure-"@)
}

pub open spec fn resource_pointer(index: int, field: Seq<char>) -> Seq<char> {
    "/resources/"@ + decimal_digits(index as nat) + field
}

pub open spec fn volume_pointer(index: int, volume_index: int, field: Seq<char>) -> Seq<char> {
    "/resources/"@ + decimal_digits(index as nat) + "/volumes/"@ + decimal_digits(volume_index as nat) + field
}

pub open spec fn nonpositive_or_missing(value: Option<DecimalValue>) -> bool {
    match value {
        Some(v) => v.units() <= 0,
        None => true,
    }
}

pub open spec fn negative_or_missing(value: Option<DecimalValue>) -> bool {
    match value {
        Some(v) => v.units() < 0,
        None => true,
    }
}

pub open spec fn nonpositive_option(value: Option<DecimalValue>) -> bool {
    match value {
        Some(v) => v.units() <= 0,
        None => false,
    }
}

pub open spec fn negative_option(value: Option<DecimalValue>) -> bool {
    match value {
        Some(v) => v.units() < 0,
        None => false,
    }
}

pub open spec fn aws_region_missing(region: Option<String>) -> bool {
    match region {
        Some(r) => r@.len() == 0,
        None => true,
    }
}

pub open spec fn spec_settings_issues(s: ProjectSettings) -> Seq<IssueView> {
    let aws_project = s.project_type == ProjectType::Ec2 || s.project_type == ProjectType::Ec2Vm
        || s.project_type == ProjectType::Rds;
    seq![]
        + when(s.currency@ != "USD"@, "/settings/currency"@, CODE_UNSUPPORTED@, MSG_CURRENCY@)
        + when(spec_is_blank(s.azure_region@), "/settings/azure_region"@, CODE_REQUIRED@, MSG_AZURE_REGION@)
        + when(aws_project && aws_region_missing(s.aws_region), "/settings/aws_region"@, CODE_REQUIRED@, MSG_AWS_REGION_REQUIRED@)
        + when(!aws_project && s.aws_region is Some, "/settings/aws_region"@, CODE_NOT_ALLOWED@, MSG_AWS_REGION_NOT_ALLOWED@)
        + when(!s.source_compute_discount.spec_is_percent(), "/settings/source_compute_discount"@, CODE_RANGE@, MSG_DISCOUNT@)
        + when(!s.source_license_discount.spec_is_percent(), "/settings/source_license_discount"@, CODE_RANGE@, MSG_DISCOUNT@)
        + when(!s.source_storage_discount.spec_is_percent(), "/settings/source_storage_discount"@, CODE_RANGE@, MSG_DISCOUNT@)
        + when(!s.azure_compute_discount.spec_is_percent(), "/settings/azure_compute_discount"@, CODE_RANGE@, MSG_DISCOUNT@)
        + when(!s.azure_license_discount.spec_is_percent(), "/settings/azure_license_discount"@, CODE_RANGE@, MSG_DISCOUNT@)
        + when(!s.azure_storage_discount.spec_is_percent(), "/settings/azure_storage_discount"@, CODE_RANGE@, MSG_DISCOUNT@)
        + when(!s.selected_parity_adjustment.spec_is_percent(), "/settings/selected_parity_adjustment"@, CODE_RANGE@, MSG_DISCOUNT@)
        + when(out_of_range(s.default_annual_hours, 0, 8784, false), "/settings/default_annual_hours"@, CODE_RANGE@, MSG_DEFAULT_HOURS@)
        + spec_on_prem_settings_issues(s)
        + spec_sql_payg_settings_issues(s)
}

pub open spec fn spec_on_prem_settings_issues(s: ProjectSettings) -> Seq<IssueView> {
    if s.project_type == ProjectType::OnPrem {
        seq![]
            + when(s.source_compute_discount.units() != 0 || s.source_storage_discount.units() != 0, "/settings"@, CODE_ON_PREM_DISCOUNT@, MSG_ON_PREM_DISCOUNT@)
            + when(nonpositive_or_missing(s.enterprise_license_sa_usd_per_two_core_pack), "/settings/enterprise_license_sa_usd_per_two_core_pack"@, CODE_REQUIRED@, MSG_PACK_PRICE@)
            + when(nonpositive_or_missing(s.standard_license_sa_usd_per_two_core_pack), "/settings/standard_license_sa_usd_per_two_core_pack"@, CODE_REQUIRED@, MSG_PACK_PRICE@)
            + when(!(s.remaining_coverage_months == Some(12u8) || s.remaining_coverage_months == Some(24u8) || s.remaining_coverage_months == Some(36u8)), "/settings/remaining_coverage_months"@, CODE_REQUIRED@, MSG_COVERAGE@)
            + when(negative_or_missing(s.electricity_rate_usd_per_kwh), "/settings/electricity_rate_usd_per_kwh"@, CODE_REQUIRED@, MSG_ELECTRICITY@)
    } else {
        seq![]
    }
}

pub open spec fn spec_sql_payg_settings_issues(s: ProjectSettings) -> Seq<IssueView> {
    if s.project_type == ProjectType::SqlPayg {
        match s.sql_payg {
            Some(p) => seq![]
                + when(p.enterprise_licensed_cores > 100_000 || p.standard_licensed_cores > 100_000, "/settings/sql_payg"@, CODE_RANGE@, MSG_SQL_PAYG_CORES_RANGE@)
                + when(p.enterprise_licensed_cores == 0 && p.standard_licensed_cores == 0, "/settings/sql_payg"@, CODE_REQUIRED@, MSG_SQL_PAYG_CORES_REQUIRED@)
                + when(p.software_assurance_annual_usd.units() < 0, "/settings/sql_payg/software_assurance_annual_usd"@, CODE_RANGE@, MSG_SQL_PAYG_SA@),
            None => seq![("/settings/sql_payg"@, CODE_REQUIRED@, MSG_SQL_PAYG_REQUIRED@)],
        }
    } else {
        when(s.sql_payg is Some, "/settings/sql_payg"@, CODE_NOT_ALLOWED@, MSG_SQL_PAYG_NOT_ALLOWED@)
    }
}

pub open spec fn spec_head_issues(p: EditableProject) -> Seq<IssueView> {
    seq![]
        + when(!(1 <= p.name@.len() <= 100), "/name"@, CODE_LENGTH@, MSG_NAME@)
        + when(optional_longer_than(p.description, 500), "/description"@, CODE_LENGTH@, MSG_DESCRIPTION@)
        + when(p.resources@.len() > 100, "/resources"@, CODE_LIMIT@, MSG_RESOURCE_LIMIT@)
        + when(p.settings.project_type == ProjectType::SqlPayg && p.resources@.len() != 0, "/resources"@, CODE_NOT_ALLOWED@, MSG_SQL_PAYG_RESOURCES@)
        + when(invalid_snapshot_reference(p.aws_price_snapshot_id, aws_prefix()), "/aws_price_snapshot_id"@, CODE_FORMAT@, MSG_SNAPSHOT_ID@)
        + when(invalid_snapshot_reference(p.azure_price_snapshot_id, azure_prefix()), "/azure_price_snapshot_id"@, CODE_FORMAT@, MSG_SNAPSHOT_ID@)
}

pub open spec fn resource_ids(resources: Seq<Resource>) -> Seq<u128> {
    resources.map_values(|r: Resource| r.spec_shared().id)
}

/// The IDs of the volumes that a resource carries (only the EC2 variants carry volumes).
pub open spec fn volume_ids_of(r: Resource) -> Seq<u128> {
    match r {
        Resource::Ec2(e) => e.volumes@.map_values(|v: EbsVolume| v.id),
        Resource::Ec2Vm(e) => e.volumes@.map_values(|v: VmVolume| v.id),
        _ => seq![],
    }
}

/// The volume IDs of the first `count` resources, in order.
pub open spec fn volume_ids_before(resources: Seq<Resource>, count: int) -> Seq<u128>
    decreases count,
{
    if count <= 0 {
        seq![]
    } else {
        volume_ids_before(resources, count - 1) + volume_ids_of(resources[count - 1])
    }
}

pub open spec fn spec_shared_issues(settings: ProjectSettings, resources: Seq<Resource>, index: int) -> Seq<IssueView> {
    let r = resources[index];
    let shared = r.spec_shared();
    seq![]
        + when(r.spec_project_type() != settings.project_type, resource_pointer(index, "/source_type"@), CODE_TYPE_MISMATCH@, MSG_TYPE_MISMATCH@)
        + when(resource_ids(resources).take(index).contains(shared.id), resource_pointer(index, "/id"@), CODE_DUPLICATE@, MSG_DUPLICATE_RESOURCE@)
        + when(!(1 <= shared.workload_name@.len() <= 160), resource_pointer(index, "/workload_name"@), CODE_LENGTH@, MSG_WORKLOAD_NAME@)
        + when(optional_longer_than(shared.server_name, 160), resource_pointer(index, "/server_name"@), CODE_LENGTH@, MSG_SERVER_NAME@)
        + when(!(1 <= shared.quantity <= 10_000), resource_pointer(index, "/quantity"@), CODE_RANGE@, MSG_QUANTITY@)
        + match r.spec_sql() {
            Some(sql) => when(out_of_range(sql.sql_data_gb_per_instance, 0, 1_000_000_000, false), resource_pointer(index, "/sql_data_gb_per_instance"@), CODE_RANGE@, MSG_SQL_DATA@),
            None => seq![],
        }
        + when(out_of_range(shared.source_ram_gb_per_instance, 0, 1_000_000, true), resource_pointer(index, "/source_ram_gb_per_instance"@), CODE_RANGE@, MSG_RAM@)
        + when(out_of_range(shared.annual_hours_per_instance, 0, 8_784, false), resource_pointer(index, "/annual_hours_per_instance"@), CODE_RANGE@, MSG_HOURS@)
}

/// The checks on one EC2 (SQL) volume; `prior` holds the volume IDs seen before it.
pub open spec fn spec_ebs_volume_issues(index: int, j: int, v: EbsVolume, prior: Seq<u128>) -> Seq<IssueView> {
    seq![]
        + when(prior.contains(v.id), volume_pointer(index, j, "/id"@), CODE_DUPLICATE@, MSG_DUPLICATE_VOLUME@)
        + when(!(1 <= v.label@.len() <= 80), volume_pointer(index, j, "/label"@), CODE_LENGTH@, MSG_VOLUME_LABEL@)
        + when(optional_longer_than(v.aws_volume_id, 128), volume_pointer(index, j, "/aws_volume_id"@), CODE_LENGTH@, MSG_AWS_VOLUME_ID@)
        + when(v.capacity_gb.units() < 0, volume_pointer(index, j, "/capacity_gb"@), CODE_RANGE@, MSG_CAPACITY@)
        + when(v.volume_type != EbsVolumeType::Ephemeral && v.provisioned_iops is None, volume_pointer(index, j, "/provisioned_iops"@), CODE_REQUIRED@, MSG_IOPS@)
        + when(negative_option(v.throughput_mibps), volume_pointer(index, j, "/throughput_mibps"@), CODE_RANGE@, MSG_THROUGHPUT@)
}

/// The checks on one EC2 VM volume; `prior` holds the volume IDs seen before it.
pub open spec fn spec_vm_volume_issues(index: int, j: int, v: VmVolume, prior: Seq<u128>) -> Seq<IssueView> {
    seq![]
        + when(prior.contains(v.id), volume_pointer(index, j, "/id"@), CODE_DUPLICATE@, MSG_DUPLICATE_VOLUME@)
        + when(!(1 <= v.label@.len() <= 80), volume_pointer(index, j, "/label"@), CODE_LENGTH@, MSG_VOLUME_LABEL@)
        + when(optional_longer_than(v.aws_volume_id, 128), volume_pointer(index, j, "/aws_volume_id"@), CODE_LENGTH@, MSG_AWS_VOLUME_ID@)
        + when(v.capacity_gb.units() < 0, volume_pointer(index, j, "/capacity_gb"@), CODE_RANGE@, MSG_CAPACITY@)
        + when(v.volume_type == EbsVolumeType::Ephemeral, volume_pointer(index, j, "/volume_type"@), CODE_UNSUPPORTED@, MSG_EPHEMERAL_ROW@)
        + when(v.role == VmDiskRole::Unknown, volume_pointer(index, j, "/role"@), CODE_REQUIRED@, MSG_ROLE@)
        + when(v.volume_type != EbsVolumeType::Ephemeral && v.provisioned_iops is None, volume_pointer(index, j, "/provisioned_iops"@), CODE_REQUIRED@, MSG_IOPS@)
        + when(negative_option(v.throughput_mibps), volume_pointer(index, j, "/throughput_mibps"@), CODE_RANGE@, MSG_THROUGHPUT@)
}

/// The issues of the first `count` EC2 volumes.
pub open spec fn spec_ebs_volumes_issues(index: int, volumes: Seq<EbsVolume>, before: Seq<u128>, count: int) -> Seq<IssueView>
    decreases count,
{
    if count <= 0 {
        seq![]
    } else {
        spec_ebs_volumes_issues(index, volumes, before, count - 1) + spec_ebs_volume_issues(
            index,
            count - 1,
            volumes[count - 1],
            before + volumes.map_values(|v: EbsVolume| v.id).take(count - 1),
        )
    }
}

/// The issues of the first `count` EC2 VM volumes.
pub open spec fn spec_vm_volumes_issues(index: int, volumes: Seq<VmVolume>, before: Seq<u128>, count: int) -> Seq<IssueView>
    decreases count,
{
    if count <= 0 {
        seq![]
    } else {
        spec_vm_volumes_issues(index, volumes, before, count - 1) + spec_vm_volume_issues(
            index,
            count - 1,
            volumes[count - 1],
            before + volumes.map_values(|v: VmVolume| v.id).take(count - 1),
        )
    }
}

pub open spec fn os_disk_count(volumes: Seq<VmVolume>) -> nat
    decreases volumes.len(),
{
    if volumes.len() == 0 {
        0
    } else {
        os_disk_count(volumes.drop_last()) + if volumes.last().role == VmDiskRole::Os {
            1nat
        } else {
            0nat
        }
    }
}

pub open spec fn is_sku_byte(b: u8) -> bool {
    is_ascii_alphanumeric(b) || b == 0x5f || b == 0x2d || b == 0x2e
}

/// A requested Azure VM target that is not a bounded ARM SKU name.
pub open spec fn invalid_arm_sku(target: Option<String>) -> bool {
    match target {
        Some(t) => {
            let bytes = encode_utf8(t@);
            t@.len() == 0 || bytes.len() > 100 || !(forall|i: int| 0 <= i < bytes.len() ==> is_sku_byte(#[trigger] bytes[i]))
        },
        None => false,
    }
}

pub open spec fn spec_variant_issues(resources: Seq<Resource>, index: int) -> Seq<IssueView> {
    let before = volume_ids_before(resources, index);
    match resources[index] {
        Resource::Ec2(r) => seq![]
            + when(spec_is_blank(r.instance_type@), resource_pointer(index, "/instance_type"@), CODE_REQUIRED@, MSG_INSTANCE_TYPE@)
            + when(!(1 <= r.volumes@.len() <= 50), resource_pointer(index, "/volumes"@), CODE_LIMIT@, MSG_EC2_VOLUMES@)
            + spec_ebs_volumes_issues(index, r.volumes@, before, r.volumes@.len() as int),
        Resource::Ec2Vm(r) => {
            let used = r.requirements.instance_store_use == VmInstanceStoreUse::Used;
            seq![]
                + when(spec_is_blank(r.instance_type@), resource_pointer(index, "/instance_type"@), CODE_REQUIRED@, MSG_INSTANCE_TYPE@)
                + when(used && nonpositive_or_missing(r.requirements.required_local_temp_disk_gb), resource_pointer(index, "/requirements/required_local_temp_disk_gb"@), CODE_REQUIRED@, MSG_TEMP_DISK@)
                + when(used && r.requirements.ephemeral_data_loss_acceptable is None, resource_pointer(index, "/requirements/ephemeral_data_loss_acceptable"@), CODE_REQUIRED@, MSG_DATA_LOSS@)
                + when(invalid_arm_sku(r.requirements.requested_target_arm_sku), resource_pointer(index, "/requirements/requested_target_arm_sku"@), CODE_FORMAT@, MSG_ARM_SKU@)
                + when(!(1 <= r.volumes@.len() <= 50), resource_pointer(index, "/volumes"@), CODE_LIMIT@, MSG_VM_VOLUMES@)
                + when(os_disk_count(r.volumes@) != 1, resource_pointer(index, "/volumes"@), CODE_OS_DISK@, MSG_OS_DISK@)
                + spec_vm_volumes_issues(index, r.volumes@, before, r.volumes@.len() as int)
        },
        Resource::Rds(r) => seq![]
            + when(spec_is_blank(r.instance_type@), resource_pointer(index, "/instance_type"@), CODE_REQUIRED@, MSG_RDS_SELECTION@)
            + when(spec_is_blank(r.commercial_term@), resource_pointer(index, "/commercial_term"@), CODE_REQUIRED@, MSG_RDS_SELECTION@)
            + when(spec_is_blank(r.storage_class@), resource_pointer(index, "/storage_class"@), CODE_REQUIRED@, MSG_RDS_SELECTION@)
            + when(r.source_max_iops > 1_000_000_000, resource_pointer(index, "/source_max_iops"@), CODE_RANGE@, MSG_SOURCE_IOPS@),
        Resource::OnPrem(r) => seq![]
            + when(!(1 <= r.source_vcpu <= 100_000), resource_pointer(index, "/source_vcpu"@), CODE_RANGE@, MSG_CORE_COUNT@)
            + when(!(1 <= r.licensable_cores <= 100_000), resource_pointer(index, "/licensable_cores"@), CODE_RANGE@, MSG_CORE_COUNT@)
            + when(r.source_max_iops > 1_000_000_000, resource_pointer(index, "/source_max_iops"@), CODE_RANGE@, MSG_SOURCE_IOPS@)
            + when(r.hardware_capex_usd.units() < 0, resource_pointer(index, "/hardware_capex_usd"@), CODE_RANGE@, MSG_CAPEX@)
            + when(out_of_range(r.depreciation_years, 0, 50, true), resource_pointer(index, "/depreciation_years"@), CODE_RANGE@, MSG_DEPRECIATION@)
            + when(nonpositive_option(r.average_power_kw_override), resource_pointer(index, "/average_power_kw_override"@), CODE_RANGE@, MSG_POWER@),
    }
}

pub open spec fn spec_resource_issues(settings: ProjectSettings, resources: Seq<Resource>, index: int) -> Seq<IssueView> {
    spec_shared_issues(settings, resources, index) + spec_variant_issues(resources, index)
}

/// The issues of the first `count` resources.
pub open spec fn spec_resources_issues(settings: ProjectSettings, resources: Seq<Resource>, count: int) -> Seq<IssueView>
    decreases count,
{
    if count <= 0 {
        seq![]
    } else {
        spec_resources_issues(settings, resources, count - 1) + spec_resource_issues(settings, resources, count - 1)
    }
}

/// Every issue that validation reports for the project, in the order it reports them.
pub open spec fn spec_validation_issues(p: EditableProject) -> Seq<IssueView> {
    spec_head_issues(p) + spec_settings_issues(p.settings) + spec_resources_issues(
        p.settings,
        p.resources@,
        p.resources@.len() as int,
    )
}

fn issue(pointer: &str, code: &str, message: &str) -> (r: ValidationIssue)
    ensures
        r@ == (pointer@, code@, message@),
{
    ValidationIssue { pointer: pointer.to_owned(), code: code.to_owned(), message: message.to_owned() }
}

/// Appends the issue when `condition` holds.
fn push_if(issues: &mut Vec<ValidationIssue>, condition: bool, pointer: &str, code: &str, message: &str)
    ensures
        issue_views(final(issues)@) == issue_views(old(issues)@) + when(condition, pointer@, code@, message@),
{
    let ghost before = issues@;
    if condition {
        issues.push(issue(pointer, code, message));
    }
    assert(issue_views(issues@) =~= issue_views(before) + when(condition, pointer@, code@, message@));
}

/// Appends all of `more`.
fn append_issues(issues: &mut Vec<ValidationIssue>, more: Vec<ValidationIssue>)
    ensures
        issue_views(final(issues)@) == issue_views(old(issues)@) + issue_views(more@),
{
    let ghost before = issues@;
    let ghost added = more@;
    let mut more = more;
    issues.append(&mut more);
    assert(issue_views(issues@) =~= issue_views(before) + issue_views(added));
}

fn resource_field(index: usize, field: &str) -> (r: String)
    ensures
        r@ == resource_pointer(index as int, field@),
{
    let digits = usize_text(index);
    let head = join_text("/resources/", digits.as_str());
    join_text(head.as_str(), field)
}

fn volume_field(index: usize, volume_index: usize, field: &str) -> (r: String)
    ensures
        r@ == volume_pointer(index as int, volume_index as int, field@),
{
    let digits = usize_text(index);
    let head = join_text("/resources/", digits.as_str());
    let head = join_text(head.as_str(), "/volumes/");
    let volume_digits = usize_text(volume_index);
    let head = join_text(head.as_str(), volume_digits.as_str());
    join_text(head.as_str(), field)
}

/// Whether `value` is `prefix` followed by 64 lowercase hexadecimal digits.
pub fn is_snapshot_id(value: &str, prefix: &str) -> (r: bool)
    ensures
        r == spec_is_snapshot_id(value.spec_bytes(), prefix.spec_bytes()),
{
    let bytes = value.as_bytes();
    let prefix_bytes = prefix.as_bytes();
    if !has_prefix(bytes, prefix_bytes) {
        return false;
    }
    is_lower_hex_from(bytes, prefix_bytes.len(), 64)
}

fn invalid_snapshot_reference_exec(value: &Option<String>, prefix: &str) -> (r: bool)
    ensures
        r == invalid_snapshot_reference(*value, prefix.spec_bytes()),
{
    match value {
        Some(v) => !is_snapshot_id(v.as_str(), prefix),
        None => false,
    }
}

/// Appends a range issue when `value` lies outside [minimum, maximum]
/// ((minimum, maximum] when the minimum is exclusive).
fn validate_decimal_range(
    issues: &mut Vec<ValidationIssue>,
    pointer: &str,
    value: DecimalValue,
    minimum: u64,
    maximum: u64,
    minimum_exclusive: bool,
    message: &str,
)
    ensures
        issue_views(final(issues)@) == issue_views(old(issues)@) + when(
            out_of_range(value, minimum as int, maximum as int, minimum_exclusive),
            pointer@,
            CODE_RANGE@,
            message@,
        ),
{
    let low = DecimalValue::from_u64(minimum);
    let high = DecimalValue::from_u64(maximum);
    let below = if minimum_exclusive {
        value.le(&low)
    } else {
        value.lt(&low)
    };
    push_if(issues, below || high.lt(&value), pointer, CODE_RANGE, message);
}

fn optional_longer_than_exec(text: &Option<String>, limit: usize) -> (r: bool)
    ensures
        r == optional_longer_than(*text, limit as nat),
{
    match text {
        Some(t) => t.as_str().unicode_len() > limit,
        None => false,
    }
}

fn nonpositive_or_missing_exec(value: Option<DecimalValue>) -> (r: bool)
    ensures
        r == nonpositive_or_missing(value),
{
    match value {
        Some(v) => {
            let zero = DecimalValue::zero();
            v.le(&zero)
        },
        None => true,
    }
}

fn negative_or_missing_exec(value: Option<DecimalValue>) -> (r: bool)
    ensures
        r == negative_or_missing(value),
{
    match value {
        Some(v) => {
            let zero = DecimalValue::zero();
            v.lt(&zero)
        },
        None => true,
    }
}

fn negative_option_exec(value: Option<DecimalValue>) -> (r: bool)
    ensures
        r == negative_option(value),
{
    match value {
        Some(v) => {
            let zero = DecimalValue::zero();
            v.lt(&zero)
        },
        None => false,
    }
}

fn nonpositive_option_exec(value: Option<DecimalValue>) -> (r: bool)
    ensures
        r == nonpositive_option(value),
{
    match value {
        Some(v) => {
            let zero = DecimalValue::zero();
            v.le(&zero)
        },
        None => false,
    }
}

fn is_negative(value: DecimalValue) -> (r: bool)
    ensures
        r == (value.units() < 0),
{
    let zero = DecimalValue::zero();
    value.lt(&zero)
}

fn contains_id(ids: &Vec<u128>, id: u128) -> (r: bool)
    ensures
        r == ids@.contains(id),
{
    let mut i: usize = 0;
    while i < ids.len()
        invariant
            i <= ids@.len(),
            forall|k: int| 0 <= k < i ==> ids@[k] != id,
        decreases ids@.len() - i,
    {
        if ids[i] == id {
            assert(ids@[i as int] == id);
            return true;
        }
        i = i + 1;
    }
    false
}

/// Checks the project settings, appending an issue for each rule they break.
fn validate_settings(settings: &ProjectSettings, issues: &mut Vec<ValidationIssue>)
    ensures
        issue_views(final(issues)@) == issue_views(old(issues)@) + spec_settings_issues(*settings),
{
    let ghost before = issue_views(issues@);
    let mut found: Vec<ValidationIssue> = Vec::new();
    assert(issue_views(found@) =~= seq![]);
    push_if(&mut found, !text_equals(settings.currency.as_str(), "USD"), "/settings/currency", CODE_UNSUPPORTED, MSG_CURRENCY);
    push_if(&mut found, is_blank(settings.azure_region.as_str()), "/settings/azure_region", CODE_REQUIRED, MSG_AZURE_REGION);
    let aws_project = settings.project_type == ProjectType::Ec2 || settings.project_type == ProjectType::Ec2Vm
        || settings.project_type == ProjectType::Rds;
    let region_missing = match &settings.aws_region {
        Some(region) => region.as_str().is_empty(),
        None => true,
    };
    push_if(&mut found, aws_project && region_missing, "/settings/aws_region", CODE_REQUIRED, MSG_AWS_REGION_REQUIRED);
    push_if(&mut found, !aws_project && settings.aws_region.is_some(), "/settings/aws_region", CODE_NOT_ALLOWED, MSG_AWS_REGION_NOT_ALLOWED);
    push_if(&mut found, !settings.source_compute_discount.is_percent(), "/settings/source_compute_discount", CODE_RANGE, MSG_DISCOUNT);
    push_if(&mut found, !settings.source_license_discount.is_percent(), "/settings/source_license_discount", CODE_RANGE, MSG_DISCOUNT);
    push_if(&mut found, !settings.source_storage_discount.is_percent(), "/settings/source_storage_discount", CODE_RANGE, MSG_DISCOUNT);
    push_if(&mut found, !settings.azure_compute_discount.is_percent(), "/settings/azure_compute_discount", CODE_RANGE, MSG_DISCOUNT);
    push_if(&mut found, !settings.azure_license_discount.is_percent(), "/settings/azure_license_discount", CODE_RANGE, MSG_DISCOUNT);
    push_if(&mut found, !settings.azure_storage_discount.is_percent(), "/settings/azure_storage_discount", CODE_RANGE, MSG_DISCOUNT);
    push_if(&mut found, !settings.selected_parity_adjustment.is_percent(), "/settings/selected_parity_adjustment", CODE_RANGE, MSG_DISCOUNT);
    validate_decimal_range(&mut found, "/settings/default_annual_hours", settings.default_annual_hours, 0, 8784, false, MSG_DEFAULT_HOURS);
    let ghost common = issue_views(found@);

    let mut on_prem: Vec<ValidationIssue> = Vec::new();
    assert(issue_views(on_prem@) =~= seq![]);
    if settings.project_type == ProjectType::OnPrem {
        push_if(
            &mut on_prem,
            !settings.source_compute_discount.is_zero() || !settings.source_storage_discount.is_zero(),
            "/settings",
            CODE_ON_PREM_DISCOUNT,
            MSG_ON_PREM_DISCOUNT,
        );
        push_if(&mut on_prem, nonpositive_or_missing_exec(settings.enterprise_license_sa_usd_per_two_core_pack), "/settings/enterprise_license_sa_usd_per_two_core_pack", CODE_REQUIRED, MSG_PACK_PRICE);
        push_if(&mut on_prem, nonpositive_or_missing_exec(settings.standard_license_sa_usd_per_two_core_pack), "/settings/standard_license_sa_usd_per_two_core_pack", CODE_REQUIRED, MSG_PACK_PRICE);
        let coverage_valid = match settings.remaining_coverage_months {
            Some(months) => months == 12 || months == 24 || months == 36,
            None => false,
        };
        push_if(&mut on_prem, !coverage_valid, "/settings/remaining_coverage_months", CODE_REQUIRED, MSG_COVERAGE);
        push_if(&mut on_prem, negative_or_missing_exec(settings.electricity_rate_usd_per_kwh), "/settings/electricity_rate_usd_per_kwh", CODE_REQUIRED, MSG_ELECTRICITY);
    }
    assert(issue_views(on_prem@) =~= spec_on_prem_settings_issues(*settings));

    let mut payg: Vec<ValidationIssue> = Vec::new();
    assert(issue_views(payg@) =~= seq![]);
    if settings.project_type == ProjectType::SqlPayg {
        match &settings.sql_payg {
            Some(sql_payg) => {
                push_if(
                    &mut payg,
                    sql_payg.enterprise_licensed_cores > 100_000 || sql_payg.standard_licensed_cores > 100_000,
                    "/settings/sql_payg",
                    CODE_RANGE,
                    MSG_SQL_PAYG_CORES_RANGE,
                );
                push_if(
                    &mut payg,
                    sql_payg.enterprise_licensed_cores == 0 && sql_payg.standard_licensed_cores == 0,
                    "/settings/sql_payg",
                    CODE_REQUIRED,
                    MSG_SQL_PAYG_CORES_REQUIRED,
                );
                push_if(
                    &mut payg,
                    is_negative(sql_payg.software_assurance_annual_usd),
                    "/settings/sql_payg/software_assurance_annual_usd",
                    CODE_RANGE,
                    MSG_SQL_PAYG_SA,
                );
            },
            None => {
                push_if(&mut payg, true, "/settings/sql_payg", CODE_REQUIRED, MSG_SQL_PAYG_REQUIRED);
            },
        }
    } else {
        push_if(&mut payg, settings.sql_payg.is_some(), "/settings/sql_payg", CODE_NOT_ALLOWED, MSG_SQL_PAYG_NOT_ALLOWED);
    }
    assert(issue_views(payg@) =~= spec_sql_payg_settings_issues(*settings));
    append_issues(&mut found, on_prem);
    append_issues(&mut found, payg);
    assert(issue_views(found@) =~= spec_settings_issues(*settings));
    append_issues(issues, found);
}

/// The checks that every resource shares.
fn shared_issues(settings: &ProjectSettings, resources: &Vec<Resource>, index: usize, seen_resources: &Vec<u128>) -> (r: Vec<ValidationIssue>)
    requires
        index < resources@.len(),
        seen_resources@ == resource_ids(resources@).take(index as int),
    ensures
        issue_views(r@) == spec_shared_issues(*settings, resources@, index as int),
{
    let resource = &resources[index];
    let shared = resource.shared();
    let mut found: Vec<ValidationIssue> = Vec::new();
    assert(issue_views(found@) =~= seq![]);
    push_if(&mut found, resource.project_type() != settings.project_type, resource_field(index, "/source_type").as_str(), CODE_TYPE_MISMATCH, MSG_TYPE_MISMATCH);
    push_if(&mut found, contains_id(seen_resources, shared.id), resource_field(index, "/id").as_str(), CODE_DUPLICATE, MSG_DUPLICATE_RESOURCE);
    let name_length = shared.workload_name.as_str().unicode_len();
    push_if(&mut found, !(1 <= name_length && name_length <= 160), resource_field(index, "/workload_name").as_str(), CODE_LENGTH, MSG_WORKLOAD_NAME);
    push_if(&mut found, optional_longer_than_exec(&shared.server_name, 160), resource_field(index, "/server_name").as_str(), CODE_LENGTH, MSG_SERVER_NAME);
    push_if(&mut found, !(1 <= shared.quantity && shared.quantity <= 10_000), resource_field(index, "/quantity").as_str(), CODE_RANGE, MSG_QUANTITY);
    let ghost so_far = issue_views(found@);
    match resource.sql() {
        Some(sql) => {
            validate_decimal_range(&mut found, resource_field(index, "/sql_data_gb_per_instance").as_str(), sql.sql_data_gb_per_instance, 0, 1_000_000_000, false, MSG_SQL_DATA);
        },
        None => {
            assert(issue_views(found@) =~= so_far + seq![]);
        },
    }
    validate_decimal_range(&mut found, resource_field(index, "/source_ram_gb_per_instance").as_str(), shared.source_ram_gb_per_instance, 0, 1_000_000, true, MSG_RAM);
    validate_decimal_range(&mut found, resource_field(index, "/annual_hours_per_instance").as_str(), shared.annual_hours_per_instance, 0, 8_784, false, MSG_HOURS);
    found
}

fn ebs_volume_issues(index: usize, j: usize, volume: &EbsVolume, seen_volumes: &Vec<u128>) -> (r: Vec<ValidationIssue>)
    ensures
        issue_views(r@) == spec_ebs_volume_issues(index as int, j as int, *volume, seen_volumes@),
{
    let mut found: Vec<ValidationIssue> = Vec::new();
    assert(issue_views(found@) =~= seq![]);
    push_if(&mut found, contains_id(seen_volumes, volume.id), volume_field(index, j, "/id").as_str(), CODE_DUPLICATE, MSG_DUPLICATE_VOLUME);
    let label_length = volume.label.as_str().unicode_len();
    push_if(&mut found, !(1 <= label_length && label_length <= 80), volume_field(index, j, "/label").as_str(), CODE_LENGTH, MSG_VOLUME_LABEL);
    push_if(&mut found, optional_longer_than_exec(&volume.aws_volume_id, 128), volume_field(index, j, "/aws_volume_id").as_str(), CODE_LENGTH, MSG_AWS_VOLUME_ID);
    push_if(&mut found, is_negative(volume.capacity_gb), volume_field(index, j, "/capacity_gb").as_str(), CODE_RANGE, MSG_CAPACITY);
    push_if(&mut found, volume.volume_type != EbsVolumeType::Ephemeral && volume.provisioned_iops.is_none(), volume_field(index, j, "/provisioned_iops").as_str(), CODE_REQUIRED, MSG_IOPS);
    push_if(&mut found, negative_option_exec(volume.throughput_mibps), volume_field(index, j, "/throughput_mibps").as_str(), CODE_RANGE, MSG_THROUGHPUT);
    found
}

fn vm_volume_issues(index: usize, j: usize, volume: &VmVolume, seen_volumes: &Vec<u128>) -> (r: Vec<ValidationIssue>)
    ensures
        issue_views(r@) == spec_vm_volume_issues(index as int, j as int, *volume, seen_volumes@),
{
    let mut found: Vec<ValidationIssue> = Vec::new();
    assert(issue_views(found@) =~= seq![]);
    push_if(&mut found, contains_id(seen_volumes, volume.id), volume_field(index, j, "/id").as_str(), CODE_DUPLICATE, MSG_DUPLICATE_VOLUME);
    let label_length = volume.label.as_str().unicode_len();
    push_if(&mut found, !(1 <= label_length && label_length <= 80), volume_field(index, j, "/label").as_str(), CODE_LENGTH, MSG_VOLUME_LABEL);
    push_if(&mut found, optional_longer_than_exec(&volume.aws_volume_id, 128), volume_field(index, j, "/aws_volume_id").as_str(), CODE_LENGTH, MSG_AWS_VOLUME_ID);
    push_if(&mut found, is_negative(volume.capacity_gb), volume_field(index, j, "/capacity_gb").as_str(), CODE_RANGE, MSG_CAPACITY);
    push_if(&mut found, volume.volume_type == EbsVolumeType::Ephemeral, volume_field(index, j, "/volume_type").as_str(), CODE_UNSUPPORTED, MSG_EPHEMERAL_ROW);
    push_if(&mut found, volume.role == VmDiskRole::Unknown, volume_field(index, j, "/role").as_str(), CODE_REQUIRED, MSG_ROLE);
    push_if(&mut found, volume.volume_type != EbsVolumeType::Ephemeral && volume.provisioned_iops.is_none(), volume_field(index, j, "/provisioned_iops").as_str(), CODE_REQUIRED, MSG_IOPS);
    push_if(&mut found, negative_option_exec(volume.throughput_mibps), volume_field(index, j, "/throughput_mibps").as_str(), CODE_RANGE, MSG_THROUGHPUT);
    found
}

fn ebs_volumes_issues(index: usize, volumes: &Vec<EbsVolume>, seen_volumes: &mut Vec<u128>) -> (r: Vec<ValidationIssue>)
    ensures
        issue_views(r@) == spec_ebs_volumes_issues(index as int, volumes@, old(seen_volumes)@, volumes@.len() as int),
        final(seen_volumes)@ == old(seen_volumes)@ + volumes@.map_values(|v: EbsVolume| v.id),
{
    let ghost before = seen_volumes@;
    let ghost ids = volumes@.map_values(|v: EbsVolume| v.id);
    let mut found: Vec<ValidationIssue> = Vec::new();
    assert(issue_views(found@) =~= seq![]);
    let mut j: usize = 0;
    while j < volumes.len()
        invariant
            j <= volumes@.len(),
            ids == volumes@.map_values(|v: EbsVolume| v.id),
            seen_volumes@ == before + ids.take(j as int),
            issue_views(found@) == spec_ebs_volumes_issues(index as int, volumes@, before, j as int),
        decreases volumes@.len() - j,
    {
        let volume = &volumes[j];
        let one = ebs_volume_issues(index, j, volume, seen_volumes);
        append_issues(&mut found, one);
        seen_volumes.push(volume.id);
        assert(ids.take(j + 1) =~= ids.take(j as int).push(volume.id));
        assert(seen_volumes@ =~= before + ids.take(j + 1));
        j = j + 1;
    }
    assert(ids.take(volumes@.len() as int) =~= ids);
    found
}

fn vm_volumes_issues(index: usize, volumes: &Vec<VmVolume>, seen_volumes: &mut Vec<u128>) -> (r: Vec<ValidationIssue>)
    ensures
        issue_views(r@) == spec_vm_volumes_issues(index as int, volumes@, old(seen_volumes)@, volumes@.len() as int),
        final(seen_volumes)@ == old(seen_volumes)@ + volumes@.map_values(|v: VmVolume| v.id),
{
    let ghost before = seen_volumes@;
    let ghost ids = volumes@.map_values(|v: VmVolume| v.id);
    let mut found: Vec<ValidationIssue> = Vec::new();
    assert(issue_views(found@) =~= seq![]);
    let mut j: usize = 0;
    while j < volumes.len()
        invariant
            j <= volumes@.len(),
            ids == volumes@.map_values(|v: VmVolume| v.id),
            seen_volumes@ == before + ids.take(j as int),
            issue_views(found@) == spec_vm_volumes_issues(index as int, volumes@, before, j as int),
        decreases volumes@.len() - j,
    {
        let volume = &volumes[j];
        let one = vm_volume_issues(index, j, volume, seen_volumes);
        append_issues(&mut found, one);
        seen_volumes.push(volume.id);
        assert(ids.take(j + 1) =~= ids.take(j as int).push(volume.id));
        assert(seen_volumes@ =~= before + ids.take(j + 1));
        j = j + 1;
    }
    assert(ids.take(volumes@.len() as int) =~= ids);
    found
}

fn os_disk_count_exec(volumes: &Vec<VmVolume>) -> (r: usize)
    ensures
        r == os_disk_count(volumes@),
{
    let mut count: usize = 0;
    let mut j: usize = 0;
    while j < volumes.len()
        invariant
            j <= volumes@.len(),
            count == os_disk_count(volumes@.take(j as int)),
            count <= j,
        decreases volumes@.len() - j,
    {
        assert(volumes@.take(j + 1).drop_last() =~= volumes@.take(j as int));
        if volumes[j].role == VmDiskRole::Os {
            count = count + 1;
        }
        j = j + 1;
    }
    assert(volumes@.take(volumes@.len() as int) =~= volumes@);
    count
}

fn invalid_arm_sku_exec(target: &Option<String>) -> (r: bool)
    ensures
        r == invalid_arm_sku(*target),
{
    match target {
        Some(t) => {
            let text = t.as_str();
            if text.is_empty() {
                return true;
            }
            let bytes = text.as_bytes();
            if bytes.len() > 100 {
                return true;
            }
            let mut i: usize = 0;
            while i < bytes.len()
                invariant
                    i <= bytes@.len(),
                    bytes@ == encode_utf8(t@),
                    *target == Some(*t),
                    t@.len() != 0,
                    bytes@.len() <= 100,
                    forall|k: int| 0 <= k < i ==> is_sku_byte(#[trigger] bytes@[k]),
                decreases bytes@.len() - i,
            {
                let b = bytes[i];
                let alphanumeric = (b >= 0x30 && b <= 0x39) || (b >= 0x41 && b <= 0x5a) || (b >= 0x61 && b <= 0x7a);
                if !(alphanumeric || b == 0x5f || b == 0x2d || b == 0x2e) {
                    assert(!is_sku_byte(bytes@[i as int]));
                    return true;
                }
                i = i + 1;
            }
            false
        },
        None => false,
    }
}

/// The checks specific to the resource's variant.
fn variant_issues(resources: &Vec<Resource>, index: usize, seen_volumes: &mut Vec<u128>) -> (r: Vec<ValidationIssue>)
    requires
        index < resources@.len(),
        old(seen_volumes)@ == volume_ids_before(resources@, index as int),
    ensures
        issue_views(r@) == spec_variant_issues(resources@, index as int),
        final(seen_volumes)@ == volume_ids_before(resources@, index + 1),
{
    let mut found: Vec<ValidationIssue> = Vec::new();
    assert(issue_views(found@) =~= seq![]);
    match &resources[index] {
        Resource::Ec2(resource) => {
            push_if(&mut found, is_blank(resource.instance_type.as_str()), resource_field(index, "/instance_type").as_str(), CODE_REQUIRED, MSG_INSTANCE_TYPE);
            let count = resource.volumes.len();
            push_if(&mut found, !(1 <= count && count <= 50), resource_field(index, "/volumes").as_str(), CODE_LIMIT, MSG_EC2_VOLUMES);
            let volume_issues = ebs_volumes_issues(index, &resource.volumes, seen_volumes);
            append_issues(&mut found, volume_issues);
        },
        Resource::Ec2Vm(resource) => {
            push_if(&mut found, is_blank(resource.instance_type.as_str()), resource_field(index, "/instance_type").as_str(), CODE_REQUIRED, MSG_INSTANCE_TYPE);
            let used = resource.requirements.instance_store_use == VmInstanceStoreUse::Used;
            push_if(&mut found, used && nonpositive_or_missing_exec(resource.requirements.required_local_temp_disk_gb), resource_field(index, "/requirements/required_local_temp_disk_gb").as_str(), CODE_REQUIRED, MSG_TEMP_DISK);
            push_if(&mut found, used && resource.requirements.ephemeral_data_loss_acceptable.is_none(), resource_field(index, "/requirements/ephemeral_data_loss_acceptable").as_str(), CODE_REQUIRED, MSG_DATA_LOSS);
            push_if(&mut found, invalid_arm_sku_exec(&resource.requirements.requested_target_arm_sku), resource_field(index, "/requirements/requested_target_arm_sku").as_str(), CODE_FORMAT, MSG_ARM_SKU);
            let count = resource.volumes.len();
            push_if(&mut found, !(1 <= count && count <= 50), resource_field(index, "/volumes").as_str(), CODE_LIMIT, MSG_VM_VOLUMES);
            push_if(&mut found, os_disk_count_exec(&resource.volumes) != 1, resource_field(index, "/volumes").as_str(), CODE_OS_DISK, MSG_OS_DISK);
            let volume_issues = vm_volumes_issues(index, &resource.volumes, seen_volumes);
            append_issues(&mut found, volume_issues);
        },
        Resource::Rds(resource) => {
            push_if(&mut found, is_blank(resource.instance_type.as_str()), resource_field(index, "/instance_type").as_str(), CODE_REQUIRED, MSG_RDS_SELECTION);
            push_if(&mut found, is_blank(resource.commercial_term.as_str()), resource_field(index, "/commercial_term").as_str(), CODE_REQUIRED, MSG_RDS_SELECTION);
            push_if(&mut found, is_blank(resource.storage_class.as_str()), resource_field(index, "/storage_class").as_str(), CODE_REQUIRED, MSG_RDS_SELECTION);
            push_if(&mut found, resource.source_max_iops > 1_000_000_000, resource_field(index, "/source_max_iops").as_str(), CODE_RANGE, MSG_SOURCE_IOPS);
            assert(volume_ids_of(resources@[index as int]) =~= seq![]);
            assert(seen_volumes@ =~= volume_ids_before(resources@, index + 1));
        },
        Resource::OnPrem(resource) => {
            push_if(&mut found, !(1 <= resource.source_vcpu && resource.source_vcpu <= 100_000), resource_field(index, "/source_vcpu").as_str(), CODE_RANGE, MSG_CORE_COUNT);
            push_if(&mut found, !(1 <= resource.licensable_cores && resource.licensable_cores <= 100_000), resource_field(index, "/licensable_cores").as_str(), CODE_RANGE, MSG_CORE_COUNT);
            push_if(&mut found, resource.source_max_iops > 1_000_000_000, resource_field(index, "/source_max_iops").as_str(), CODE_RANGE, MSG_SOURCE_IOPS);
            push_if(&mut found, is_negative(resource.hardware_capex_usd), resource_field(index, "/hardware_capex_usd").as_str(), CODE_RANGE, MSG_CAPEX);
            validate_decimal_range(&mut found, resource_field(index, "/depreciation_years").as_str(), resource.depreciation_years, 0, 50, true, MSG_DEPRECIATION);
            push_if(&mut found, nonpositive_option_exec(resource.average_power_kw_override), resource_field(index, "/average_power_kw_override").as_str(), CODE_RANGE, MSG_POWER);
            assert(volume_ids_of(resources@[index as int]) =~= seq![]);
            assert(seen_volumes@ =~= volume_ids_before(resources@, index + 1));
        },
    }
    found
}

impl EditableProject {
    /// Every rule that the project breaks, as issues in a fixed order; the list is
    /// empty exactly when the project is valid.
    #[verifier::rlimit(50)]
    #[verifier::spinoff_prover]
    pub fn validate(&self) -> (r: Vec<ValidationIssue>)
        ensures
            issue_views(r@) == spec_validation_issues(*self),
    {
        let mut issues: Vec<ValidationIssue> = Vec::new();
        assert(issue_views(issues@) =~= seq![]);
        let name_length = self.name.as_str().unicode_len();
        push_if(&mut issues, !(1 <= name_length && name_length <= 100), "/name", CODE_LENGTH, MSG_NAME);
        push_if(&mut issues, optional_longer_than_exec(&self.description, 500), "/description", CODE_LENGTH, MSG_DESCRIPTION);
        push_if(&mut issues, self.resources.len() > MAX_PROJECT_RESOURCES, "/resources", CODE_LIMIT, MSG_RESOURCE_LIMIT);
        push_if(&mut issues, self.settings.project_type == ProjectType::SqlPayg && self.resources.len() != 0, "/resources", CODE_NOT_ALLOWED, MSG_SQL_PAYG_RESOURCES);
        push_if(&mut issues, invalid_snapshot_reference_exec(&self.aws_price_snapshot_id, "aws-"), "/aws_price_snapshot_id", CODE_FORMAT, MSG_SNAPSHOT_ID);
        push_if(&mut issues, invalid_snapshot_reference_exec(&self.azure_price_snapshot_id, "azure-"), "/azure_price_snapshot_id", CODE_FORMAT, MSG_SNAPSHOT_ID);
        assert(issue_views(issues@) =~= spec_head_issues(*self));
        validate_settings(&self.settings, &mut issues);
        let ghost head = issue_views(issues@);

        let mut seen_resources: Vec<u128> = Vec::new();
        let mut seen_volumes: Vec<u128> = Vec::new();
        let ghost ids = resource_ids(self.resources@);
        let mut index: usize = 0;
        assert(seen_volumes@ =~= volume_ids_before(self.resources@, 0));
        assert(seen_resources@ =~= ids.take(0));
        while index < self.resources.len()
            invariant
                index <= self.resources@.len(),
                ids == resource_ids(self.resources@),
                seen_resources@ == ids.take(index as int),
                seen_volumes@ == volume_ids_before(self.resources@, index as int),
                issue_views(issues@) == head + spec_resources_issues(self.settings, self.resources@, index as int),
            decreases self.resources@.len() - index,
        {
            let shared = shared_issues(&self.settings, &self.resources, index, &seen_resources);
            let variant = variant_issues(&self.resources, index, &mut seen_volumes);
            append_issues(&mut issues, shared);
            append_issues(&mut issues, variant);
            proof {
                assert(issue_views(issues@) =~= head + spec_resources_issues(self.settings, self.resources@, index + 1));
            }
            let id = self.resources[index].shared().id;
            seen_resources.push(id);
            assert(ids.take(index + 1) =~= ids.take(index as int).push(id));
            index = index + 1;
        }
        issues
    }
}

proof fn lemma_contains_concat(a: Seq<IssueView>, b: Seq<IssueView>, x: IssueView)
    ensures
        (a + b).contains(x) <==> a.contains(x) || b.contains(x),
{
    if (a + b).contains(x) {
        let k = choose|k: int| 0 <= k < (a + b).len() && (a + b)[k] == x;
        if k < a.len() {
            assert(a[k] == x);
        } else {
            assert(b[k - a.len()] == x);
        }
    }
    if a.contains(x) {
        let k = choose|k: int| 0 <= k < a.len() && a[k] == x;
        assert((a + b)[k] == x);
    }
    if b.contains(x) {
        let k = choose|k: int| 0 <= k < b.len() && b[k] == x;
        assert((a + b)[k + a.len()] == x);
    }
}

proof fn lemma_when_contains(c: bool, pointer: Seq<char>, code: Seq<char>, message: Seq<char>, x: IssueView)
    ensures
        (c && (pointer, code, message) == x) <==> when(c, pointer, code, message).contains(x),
{
    if c {
        assert(when(c, pointer, code, message)[0] == (pointer, code, message));
    }
}

/// The settings issues hold an issue exactly when one of their rules reports it.
proof fn lemma_settings_issue_components(s: ProjectSettings, x: IssueView)
    ensures
        spec_settings_issues(s).contains(x) <==> {
            let aws_project = s.project_type == ProjectType::Ec2 || s.project_type == ProjectType::Ec2Vm
                || s.project_type == ProjectType::Rds;
            ||| (s.currency@ != "USD"@ && ("/settings/currency"@, CODE_UNSUPPORTED@, MSG_CURRENCY@) == x)
            ||| (spec_is_blank(s.azure_region@) && ("/settings/azure_region"@, CODE_REQUIRED@, MSG_AZURE_REGION@) == x)
            ||| (aws_project && aws_region_missing(s.aws_region) && ("/settings/aws_region"@, CODE_REQUIRED@, MSG_AWS_REGION_REQUIRED@) == x)
            ||| (!aws_project && s.aws_region is Some && ("/settings/aws_region"@, CODE_NOT_ALLOWED@, MSG_AWS_REGION_NOT_ALLOWED@) == x)
            ||| (!s.source_compute_discount.spec_is_percent() && ("/settings/source_compute_discount"@, CODE_RANGE@, MSG_DISCOUNT@) == x)
            ||| (!s.source_license_discount.spec_is_percent() && ("/settings/source_license_discount"@, CODE_RANGE@, MSG_DISCOUNT@) == x)
            ||| (!s.source_storage_discount.spec_is_percent() && ("/settings/source_storage_discount"@, CODE_RANGE@, MSG_DISCOUNT@) == x)
            ||| (!s.azure_compute_discount.spec_is_percent() && ("/settings/azure_compute_discount"@, CODE_RANGE@, MSG_DISCOUNT@) == x)
            ||| (!s.azure_license_discount.spec_is_percent() && ("/settings/azure_license_discount"@, CODE_RANGE@, MSG_DISCOUNT@) == x)
            ||| (!s.azure_storage_discount.spec_is_percent() && ("/settings/azure_storage_discount"@, CODE_RANGE@, MSG_DISCOUNT@) == x)
            ||| (!s.selected_parity_adjustment.spec_is_percent() && ("/settings/selected_parity_adjustment"@, CODE_RANGE@, MSG_DISCOUNT@) == x)
            ||| (out_of_range(s.default_annual_hours, 0, 8784, false) && ("/settings/default_annual_hours"@, CODE_RANGE@, MSG_DEFAULT_HOURS@) == x)
            ||| spec_on_prem_settings_issues(s).contains(x)
            ||| spec_sql_payg_settings_issues(s).contains(x)
        },
{
    let aws_project = s.project_type == ProjectType::Ec2 || s.project_type == ProjectType::Ec2Vm
        || s.project_type == ProjectType::Rds;
    let w1 = when(s.currency@ != "USD"@, "/settings/currency"@, CODE_UNSUPPORTED@, MSG_CURRENCY@);
    let w2 = when(spec_is_blank(s.azure_region@), "/settings/azure_region"@, CODE_REQUIRED@, MSG_AZURE_REGION@);
    let w3 = when(aws_project && aws_region_missing(s.aws_region), "/settings/aws_region"@, CODE_REQUIRED@, MSG_AWS_REGION_REQUIRED@);
    let w4 = when(!aws_project && s.aws_region is Some, "/settings/aws_region"@, CODE_NOT_ALLOWED@, MSG_AWS_REGION_NOT_ALLOWED@);
    let w5 = when(!s.source_compute_discount.spec_is_percent(), "/settings/source_compute_discount"@, CODE_RANGE@, MSG_DISCOUNT@);
    let w6 = when(!s.source_license_discount.spec_is_percent(), "/settings/source_license_discount"@, CODE_RANGE@, MSG_DISCOUNT@);
    let w7 = when(!s.source_storage_discount.spec_is_percent(), "/settings/source_storage_discount"@, CODE_RANGE@, MSG_DISCOUNT@);
    let w8 = when(!s.azure_compute_discount.spec_is_percent(), "/settings/azure_compute_discount"@, CODE_RANGE@, MSG_DISCOUNT@);
    let w9 = when(!s.azure_license_discount.spec_is_percent(), "/settings/azure_license_discount"@, CODE_RANGE@, MSG_DISCOUNT@);
    let w10 = when(!s.azure_storage_discount.spec_is_percent(), "/settings/azure_storage_discount"@, CODE_RANGE@, MSG_DISCOUNT@);
    let w11 = when(!s.selected_parity_adjustment.spec_is_percent(), "/settings/selected_parity_adjustment"@, CODE_RANGE@, MSG_DISCOUNT@);
    let w12 = when(out_of_range(s.default_annual_hours, 0, 8784, false), "/settings/default_annual_hours"@, CODE_RANGE@, MSG_DEFAULT_HOURS@);
    let w13 = spec_on_prem_settings_issues(s);
    let w14 = spec_sql_payg_settings_issues(s);
    lemma_when_contains(s.currency@ != "USD"@, "/settings/currency"@, CODE_UNSUPPORTED@, MSG_CURRENCY@, x);
    lemma_when_contains(spec_is_blank(s.azure_region@), "/settings/azure_region"@, CODE_REQUIRED@, MSG_AZURE_REGION@, x);
    lemma_when_contains(aws_project && aws_region_missing(s.aws_region), "/settings/aws_region"@, CODE_REQUIRED@, MSG_AWS_REGION_REQUIRED@, x);
    lemma_when_contains(!aws_project && s.aws_region is Some, "/settings/aws_region"@, CODE_NOT_ALLOWED@, MSG_AWS_REGION_NOT_ALLOWED@, x);
    lemma_when_contains(!s.source_compute_discount.spec_is_percent(), "/settings/source_compute_discount"@, CODE_RANGE@, MSG_DISCOUNT@, x);
    lemma_when_contains(!s.source_license_discount.spec_is_percent(), "/settings/source_license_discount"@, CODE_RANGE@, MSG_DISCOUNT@, x);
    lemma_when_contains(!s.source_storage_discount.spec_is_percent(), "/settings/source_storage_discount"@, CODE_RANGE@, MSG_DISCOUNT@, x);
    lemma_when_contains(!s.azure_compute_discount.spec_is_percent(), "/settings/azure_compute_discount"@, CODE_RANGE@, MSG_DISCOUNT@, x);
    lemma_when_contains(!s.azure_license_discount.spec_is_percent(), "/settings/azure_license_discount"@, CODE_RANGE@, MSG_DISCOUNT@, x);
    lemma_when_contains(!s.azure_storage_discount.spec_is_percent(), "/settings/azure_storage_discount"@, CODE_RANGE@, MSG_DISCOUNT@, x);
    lemma_when_contains(!s.selected_parity_adjustment.spec_is_percent(), "/settings/selected_parity_adjustment"@, CODE_RANGE@, MSG_DISCOUNT@, x);
    lemma_when_contains(out_of_range(s.default_annual_hours, 0, 8784, false), "/settings/default_annual_hours"@, CODE_RANGE@, MSG_DEFAULT_HOURS@, x);
    let s0 = Seq::<IssueView>::empty();
    assert(!s0.contains(x));
    lemma_contains_concat(s0, w1, x);
    lemma_contains_concat(s0 + w1, w2, x);
    lemma_contains_concat(s0 + w1 + w2, w3, x);
    lemma_contains_concat(s0 + w1 + w2 + w3, w4, x);
    lemma_contains_concat(s0 + w1 + w2 + w3 + w4, w5, x);
    lemma_contains_concat(s0 + w1 + w2 + w3 + w4 + w5, w6, x);
    lemma_contains_concat(s0 + w1 + w2 + w3 + w4 + w5 + w6, w7, x);
    lemma_contains_concat(s0 + w1 + w2 + w3 + w4 + w5 + w6 + w7, w8, x);
    lemma_contains_concat(s0 + w1 + w2 + w3 + w4 + w5 + w6 + w7 + w8, w9, x);
    lemma_contains_concat(s0 + w1 + w2 + w3 + w4 + w5 + w6 + w7 + w8 + w9, w10, x);
    lemma_contains_concat(s0 + w1 + w2 + w3 + w4 + w5 + w6 + w7 + w8 + w9 + w10, w11, x);
    lemma_contains_concat(s0 + w1 + w2 + w3 + w4 + w5 + w6 + w7 + w8 + w9 + w10 + w11, w12, x);
    lemma_contains_concat(s0 + w1 + w2 + w3 + w4 + w5 + w6 + w7 + w8 + w9 + w10 + w11 + w12, w13, x);
    lemma_contains_concat(s0 + w1 + w2 + w3 + w4 + w5 + w6 + w7 + w8 + w9 + w10 + w11 + w12 + w13, w14, x);
    assert(spec_settings_issues(s) == s0 + w1 + w2 + w3 + w4 + w5 + w6 + w7 + w8 + w9 + w10 + w11 + w12 + w13 + w14);
}

/// The on-premises and SQL pay-as-you-go rules report no issue on a pointer of
/// 22, 24, 32, 33 or 36 characters.
proof fn lemma_type_rules_pointer_lengths(s: ProjectSettings)
    ensures
        forall|k: int| 0 <= k < spec_on_prem_settings_issues(s).len() ==> {
            let n = (#[trigger] spec_on_prem_settings_issues(s)[k]).0.len();
            n != 22 && n != 24 && n != 32 && n != 33 && n != 36
        },
        forall|k: int| 0 <= k < spec_sql_payg_settings_issues(s).len() ==> {
            let n = (#[trigger] spec_sql_payg_settings_issues(s)[k]).0.len();
            n != 22 && n != 24 && n != 32 && n != 33 && n != 36
        },
{
    reveal_strlit("/settings");
    reveal_strlit("/settings/enterprise_license_sa_usd_per_two_core_pack");
    reveal_strlit("/settings/standard_license_sa_usd_per_two_core_pack");
    reveal_strlit("/settings/remaining_coverage_months");
    reveal_strlit("/settings/electricity_rate_usd_per_kwh");
    reveal_strlit("/settings/sql_payg");
    reveal_strlit("/settings/sql_payg/software_assurance_annual_usd");
    assert("/settings"@.len() == 9);
    assert("/settings/enterprise_license_sa_usd_per_two_core_pack"@.len() == 53);
    assert("/settings/standard_license_sa_usd_per_two_core_pack"@.len() == 51);
    assert("/settings/remaining_coverage_months"@.len() == 35);
    assert("/settings/electricity_rate_usd_per_kwh"@.len() == 38);
    assert("/settings/sql_payg"@.len() == 18);
    assert("/settings/sql_payg/software_assurance_annual_usd"@.len() == 48);
}

proof fn lemma_range_issue_source_compute_discount(s: ProjectSettings, message: Seq<char>)
    ensures
        (!s.source_compute_discount.spec_is_percent() && message == MSG_DISCOUNT@) <==> spec_settings_issues(s).contains(("/settings/source_compute_discount"@, CODE_RANGE@, message)),
{
    let x = ("/settings/source_compute_discount"@, CODE_RANGE@, message);
    reveal_strlit("/settings/selected_parity_adjustment");
    reveal_strlit("/settings/currency");
    reveal_strlit("/settings/azure_region");
    reveal_strlit("/settings/aws_region");
    reveal_strlit("/settings/source_compute_discount");
    reveal_strlit("/settings/source_license_discount");
    reveal_strlit("/settings/source_storage_discount");
    reveal_strlit("/settings/azure_compute_discount");
    reveal_strlit("/settings/azure_license_discount");
    reveal_strlit("/settings/azure_storage_discount");
    reveal_strlit("/settings/default_annual_hours");
    assert("/settings/selected_parity_adjustment"@.len() == 36);
    assert("/settings/currency"@.len() == 18);
    assert("/settings/azure_region"@.len() == 22);
    assert("/settings/aws_region"@.len() == 20);
    assert("/settings/source_compute_discount"@.len() == 33);
    assert("/settings/source_license_discount"@.len() == 33);
    assert("/settings/source_storage_discount"@.len() == 33);
    assert("/settings/azure_compute_discount"@.len() == 32);
    assert("/settings/azure_license_discount"@.len() == 32);
    assert("/settings/azure_storage_discount"@.len() == 32);
    assert("/settings/default_annual_hours"@.len() == 30);
    assert("/settings/source_compute_discount"@[17] == 'c');
    assert("/settings/source_license_discount"@[17] == 'l');
    assert("/settings/source_storage_discount"@[17] == 's');
    lemma_type_rules_pointer_lengths(s);
    lemma_settings_issue_components(s, x);
    if spec_on_prem_settings_issues(s).contains(x) {
        let k = choose|k: int| 0 <= k < spec_on_prem_settings_issues(s).len() && spec_on_prem_settings_issues(s)[k] == x;
        assert(spec_on_prem_settings_issues(s)[k].0.len() == x.0.len());
    }
    if spec_sql_payg_settings_issues(s).contains(x) {
        let k = choose|k: int| 0 <= k < spec_sql_payg_settings_issues(s).len() && spec_sql_payg_settings_issues(s)[k] == x;
        assert(spec_sql_payg_settings_issues(s)[k].0.len() == x.0.len());
    }
}

proof fn lemma_range_issue_source_license_discount(s: ProjectSettings, message: Seq<char>)
    ensures
        (!s.source_license_discount.spec_is_percent() && message == MSG_DISCOUNT@) <==> spec_settings_issues(s).contains(("/settings/source_license_discount"@, CODE_RANGE@, message)),
{
    let x = ("/settings/source_license_discount"@, CODE_RANGE@, message);
    reveal_strlit("/settings/selected_parity_adjustment");
    reveal_strlit("/settings/currency");
    reveal_strlit("/settings/azure_region");
    reveal_strlit("/settings/aws_region");
    reveal_strlit("/settings/source_compute_discount");
    reveal_strlit("/settings/source_license_discount");
    reveal_strlit("/settings/source_storage_discount");
    reveal_strlit("/settings/azure_compute_discount");
    reveal_strlit("/settings/azure_license_discount");
    reveal_strlit("/settings/azure_storage_discount");
    reveal_strlit("/settings/default_annual_hours");
    assert("/settings/selected_parity_adjustment"@.len() == 36);
    assert("/settings/currency"@.len() == 18);
    assert("/settings/azure_region"@.len() == 22);
    assert("/settings/aws_region"@.len() == 20);
    assert("/settings/source_compute_discount"@.len() == 33);
    assert("/settings/source_license_discount"@.len() == 33);
    assert("/settings/source_storage_discount"@.len() == 33);
    assert("/settings/azure_compute_discount"@.len() == 32);
    assert("/settings/azure_license_discount"@.len() == 32);
    assert("/settings/azure_storage_discount"@.len() == 32);
    assert("/settings/default_annual_hours"@.len() == 30);
    assert("/settings/source_compute_discount"@[17] == 'c');
    assert("/settings/source_license_discount"@[17] == 'l');
    assert("/settings/source_storage_discount"@[17] == 's');
    lemma_type_rules_pointer_lengths(s);
    lemma_settings_issue_components(s, x);
    if spec_on_prem_settings_issues(s).contains(x) {
        let k = choose|k: int| 0 <= k < spec_on_prem_settings_issues(s).len() && spec_on_prem_settings_issues(s)[k] == x;
        assert(spec_on_prem_settings_issues(s)[k].0.len() == x.0.len());
    }
    if spec_sql_payg_settings_issues(s).contains(x) {
        let k = choose|k: int| 0 <= k < spec_sql_payg_settings_issues(s).len() && spec_sql_payg_settings_issues(s)[k] == x;
        assert(spec_sql_payg_settings_issues(s)[k].0.len() == x.0.len());
    }
}

proof fn lemma_range_issue_source_storage_discount(s: ProjectSettings, message: Seq<char>)
    ensures
        (!s.source_storage_discount.spec_is_percent() && message == MSG_DISCOUNT@) <==> spec_settings_issues(s).contains(("/settings/source_storage_discount"@, CODE_RANGE@, message)),
{
    let x = ("/settings/source_storage_discount"@, CODE_RANGE@, message);
    reveal_strlit("/settings/selected_parity_adjustment");
    reveal_strlit("/settings/currency");
    reveal_strlit("/settings/azure_region");
    reveal_strlit("/settings/aws_region");
    reveal_strlit("/settings/source_compute_discount");
    reveal_strlit("/settings/source_license_discount");
    reveal_strlit("/settings/source_storage_discount");
    reveal_strlit("/settings/azure_compute_discount");
    reveal_strlit("/settings/azure_license_discount");
    reveal_strlit("/settings/azure_storage_discount");
    reveal_strlit("/settings/default_annual_hours");
    assert("/settings/selected_parity_adjustment"@.len() == 36);
    assert("/settings/currency"@.len() == 18);
    assert("/settings/azure_region"@.len() == 22);
    assert("/settings/aws_region"@.len() == 20);
    assert("/settings/source_compute_discount"@.len() == 33);
    assert("/settings/source_license_discount"@.len() == 33);
    assert("/settings/source_storage_discount"@.len() == 33);
    assert("/settings/azure_compute_discount"@.len() == 32);
    assert("/settings/azure_license_discount"@.len() == 32);
    assert("/settings/azure_storage_discount"@.len() == 32);
    assert("/settings/default_annual_hours"@.len() == 30);
    assert("/settings/source_compute_discount"@[17] == 'c');
    assert("/settings/source_license_discount"@[17] == 'l');
    assert("/settings/source_storage_discount"@[17] == 's');
    lemma_type_rules_pointer_lengths(s);
    lemma_settings_issue_components(s, x);
    if spec_on_prem_settings_issues(s).contains(x) {
        let k = choose|k: int| 0 <= k < spec_on_prem_settings_issues(s).len() && spec_on_prem_settings_issues(s)[k] == x;
        assert(spec_on_prem_settings_issues(s)[k].0.len() == x.0.len());
    }
    if spec_sql_payg_settings_issues(s).contains(x) {
        let k = choose|k: int| 0 <= k < spec_sql_payg_settings_issues(s).len() && spec_sql_payg_settings_issues(s)[k] == x;
        assert(spec_sql_payg_settings_issues(s)[k].0.len() == x.0.len());
    }
}

proof fn lemma_range_issue_azure_compute_discount(s: ProjectSettings, message: Seq<char>)
    ensures
        (!s.azure_compute_discount.spec_is_percent() && message == MSG_DISCOUNT@) <==> spec_settings_issues(s).contains(("/settings/azure_compute_discount"@, CODE_RANGE@, message)),
{
    let x = ("/settings/azure_compute_discount"@, CODE_RANGE@, message);
    reveal_strlit("/settings/selected_parity_adjustment");
    reveal_strlit("/settings/currency");
    reveal_strlit("/settings/azure_region");
    reveal_strlit("/settings/aws_region");
    reveal_strlit("/settings/source_compute_discount");
    reveal_strlit("/settings/source_license_discount");
    reveal_strlit("/settings/source_storage_discount");
    reveal_strlit("/settings/azure_compute_discount");
    reveal_strlit("/settings/azure_license_discount");
    reveal_strlit("/settings/azure_storage_discount");
    reveal_strlit("/settings/default_annual_hours");
    assert("/settings/selected_parity_adjustment"@.len() == 36);
    assert("/settings/currency"@.len() == 18);
    assert("/settings/azure_region"@.len() == 22);
    assert("/settings/aws_region"@.len() == 20);
    assert("/settings/source_compute_discount"@.len() == 33);
    assert("/settings/source_license_discount"@.len() == 33);
    assert("/settings/source_storage_discount"@.len() == 33);
    assert("/settings/azure_compute_discount"@.len() == 32);
    assert("/settings/azure_license_discount"@.len() == 32);
    assert("/settings/azure_storage_discount"@.len() == 32);
    assert("/settings/default_annual_hours"@.len() == 30);
    assert("/settings/azure_compute_discount"@[16] == 'c');
    assert("/settings/azure_license_discount"@[16] == 'l');
    assert("/settings/azure_storage_discount"@[16] == 's');
    lemma_type_rules_pointer_lengths(s);
    lemma_settings_issue_components(s, x);
    if spec_on_prem_settings_issues(s).contains(x) {
        let k = choose|k: int| 0 <= k < spec_on_prem_settings_issues(s).len() && spec_on_prem_settings_issues(s)[k] == x;
        assert(spec_on_prem_settings_issues(s)[k].0.len() == x.0.len());
    }
    if spec_sql_payg_settings_issues(s).contains(x) {
        let k = choose|k: int| 0 <= k < spec_sql_payg_settings_issues(s).len() && spec_sql_payg_settings_issues(s)[k] == x;
        assert(spec_sql_payg_settings_issues(s)[k].0.len() == x.0.len());
    }
}

proof fn lemma_range_issue_azure_license_discount(s: ProjectSettings, message: Seq<char>)
    ensures
        (!s.azure_license_discount.spec_is_percent() && message == MSG_DISCOUNT@) <==> spec_settings_issues(s).contains(("/settings/azure_license_discount"@, CODE_RANGE@, message)),
{
    let x = ("/settings/azure_license_discount"@, CODE_RANGE@, message);
    reveal_strlit("/settings/selected_parity_adjustment");
    reveal_strlit("/settings/currency");
    reveal_strlit("/settings/azure_region");
    reveal_strlit("/settings/aws_region");
    reveal_strlit("/settings/source_compute_discount");
    reveal_strlit("/settings/source_license_discount");
    reveal_strlit("/settings/source_storage_discount");
    reveal_strlit("/settings/azure_compute_discount");
    reveal_strlit("/settings/azure_license_discount");
    reveal_strlit("/settings/azure_storage_discount");
    reveal_strlit("/settings/default_annual_hours");
    assert("/settings/selected_parity_adjustment"@.len() == 36);
    assert("/settings/currency"@.len() == 18);
    assert("/settings/azure_region"@.len() == 22);
    assert("/settings/aws_region"@.len() == 20);
    assert("/settings/source_compute_discount"@.len() == 33);
    assert("/settings/source_license_discount"@.len() == 33);
    assert("/settings/source_storage_discount"@.len() == 33);
    assert("/settings/azure_compute_discount"@.len() == 32);
    assert("/settings/azure_license_discount"@.len() == 32);
    assert("/settings/azure_storage_discount"@.len() == 32);
    assert("/settings/default_annual_hours"@.len() == 30);
    assert("/settings/azure_compute_discount"@[16] == 'c');
    assert("/settings/azure_license_discount"@[16] == 'l');
    assert("/settings/azure_storage_discount"@[16] == 's');
    lemma_type_rules_pointer_lengths(s);
    lemma_settings_issue_components(s, x);
    if spec_on_prem_settings_issues(s).contains(x) {
        let k = choose|k: int| 0 <= k < spec_on_prem_settings_issues(s).len() && spec_on_prem_settings_issues(s)[k] == x;
        assert(spec_on_prem_settings_issues(s)[k].0.len() == x.0.len());
    }
    if spec_sql_payg_settings_issues(s).contains(x) {
        let k = choose|k: int| 0 <= k < spec_sql_payg_settings_issues(s).len() && spec_sql_payg_settings_issues(s)[k] == x;
        assert(spec_sql_payg_settings_issues(s)[k].0.len() == x.0.len());
    }
}

proof fn lemma_range_issue_azure_storage_discount(s: ProjectSettings, message: Seq<char>)
    ensures
        (!s.azure_storage_discount.spec_is_percent() && message == MSG_DISCOUNT@) <==> spec_settings_issues(s).contains(("/settings/azure_storage_discount"@, CODE_RANGE@, message)),
{
    let x = ("/settings/azure_storage_discount"@, CODE_RANGE@, message);
    reveal_strlit("/settings/selected_parity_adjustment");
    reveal_strlit("/settings/currency");
    reveal_strlit("/settings/azure_region");
    reveal_strlit("/settings/aws_region");
    reveal_strlit("/settings/source_compute_discount");
    reveal_strlit("/settings/source_license_discount");
    reveal_strlit("/settings/source_storage_discount");
    reveal_strlit("/settings/azure_compute_discount");
    reveal_strlit("/settings/azure_license_discount");
    reveal_strlit("/settings/azure_storage_discount");
    reveal_strlit("/settings/default_annual_hours");
    assert("/settings/selected_parity_adjustment"@.len() == 36);
    assert("/settings/currency"@.len() == 18);
    assert("/settings/azure_region"@.len() == 22);
    assert("/settings/aws_region"@.len() == 20);
    assert("/settings/source_compute_discount"@.len() == 33);
    assert("/settings/source_license_discount"@.len() == 33);
    assert("/settings/source_storage_discount"@.len() == 33);
    assert("/settings/azure_compute_discount"@.len() == 32);
    assert("/settings/azure_license_discount"@.len() == 32);
    assert("/settings/azure_storage_discount"@.len() == 32);
    assert("/settings/default_annual_hours"@.len() == 30);
    assert("/settings/azure_compute_discount"@[16] == 'c');
    assert("/settings/azure_license_discount"@[16] == 'l');
    assert("/settings/azure_storage_discount"@[16] == 's');
    lemma_type_rules_pointer_lengths(s);
    lemma_settings_issue_components(s, x);
    if spec_on_prem_settings_issues(s).contains(x) {
        let k = choose|k: int| 0 <= k < spec_on_prem_settings_issues(s).len() && spec_on_prem_settings_issues(s)[k] == x;
        assert(spec_on_prem_settings_issues(s)[k].0.len() == x.0.len());
    }
    if spec_sql_payg_settings_issues(s).contains(x) {
        let k = choose|k: int| 0 <= k < spec_sql_payg_settings_issues(s).len() && spec_sql_payg_settings_issues(s)[k] == x;
        assert(spec_sql_payg_settings_issues(s)[k].0.len() == x.0.len());
    }
}

proof fn lemma_range_issue_selected_parity_adjustment(s: ProjectSettings, message: Seq<char>)
    ensures
        (!s.selected_parity_adjustment.spec_is_percent() && message == MSG_DISCOUNT@) <==> spec_settings_issues(s).contains(("/settings/selected_parity_adjustment"@, CODE_RANGE@, message)),
{
    let x = ("/settings/selected_parity_adjustment"@, CODE_RANGE@, message);
    reveal_strlit("/settings/selected_parity_adjustment");
    reveal_strlit("/settings/currency");
    reveal_strlit("/settings/azure_region");
    reveal_strlit("/settings/aws_region");
    reveal_strlit("/settings/source_compute_discount");
    reveal_strlit("/settings/source_license_discount");
    reveal_strlit("/settings/source_storage_discount");
    reveal_strlit("/settings/azure_compute_discount");
    reveal_strlit("/settings/azure_license_discount");
    reveal_strlit("/settings/azure_storage_discount");
    reveal_strlit("/settings/default_annual_hours");
    assert("/settings/selected_parity_adjustment"@.len() == 36);
    assert("/settings/currency"@.len() == 18);
    assert("/settings/azure_region"@.len() == 22);
    assert("/settings/aws_region"@.len() == 20);
    assert("/settings/source_compute_discount"@.len() == 33);
    assert("/settings/source_license_discount"@.len() == 33);
    assert("/settings/source_storage_discount"@.len() == 33);
    assert("/settings/azure_compute_discount"@.len() == 32);
    assert("/settings/azure_license_discount"@.len() == 32);
    assert("/settings/azure_storage_discount"@.len() == 32);
    assert("/settings/default_annual_hours"@.len() == 30);
    lemma_type_rules_pointer_lengths(s);
    lemma_settings_issue_components(s, x);
    if spec_on_prem_settings_issues(s).contains(x) {
        let k = choose|k: int| 0 <= k < spec_on_prem_settings_issues(s).len() && spec_on_prem_settings_issues(s)[k] == x;
        assert(spec_on_prem_settings_issues(s)[k].0.len() == x.0.len());
    }
    if spec_sql_payg_settings_issues(s).contains(x) {
        let k = choose|k: int| 0 <= k < spec_sql_payg_settings_issues(s).len() && spec_sql_payg_settings_issues(s)[k] == x;
        assert(spec_sql_payg_settings_issues(s)[k].0.len() == x.0.len());
    }
}

/// Each discount and the parity adjustment has a range rule of its own: the
/// settings report a range issue on a field's pointer exactly when that field
/// lies outside 0 to 1.
pub proof fn lemma_discount_range_issues(s: ProjectSettings)
    ensures
        !s.source_compute_discount.spec_is_percent() <==> spec_settings_issues(s).contains(
            ("/settings/source_compute_discount"@, CODE_RANGE@, MSG_DISCOUNT@),
        ),
        !s.source_license_discount.spec_is_percent() <==> spec_settings_issues(s).contains(
            ("/settings/source_license_discount"@, CODE_RANGE@, MSG_DISCOUNT@),
        ),
        !s.source_storage_discount.spec_is_percent() <==> spec_settings_issues(s).contains(
            ("/settings/source_storage_discount"@, CODE_RANGE@, MSG_DISCOUNT@),
        ),
        !s.azure_compute_discount.spec_is_percent() <==> spec_settings_issues(s).contains(
            ("/settings/azure_compute_discount"@, CODE_RANGE@, MSG_DISCOUNT@),
        ),
        !s.azure_license_discount.spec_is_percent() <==> spec_settings_issues(s).contains(
            ("/settings/azure_license_discount"@, CODE_RANGE@, MSG_DISCOUNT@),
        ),
        !s.azure_storage_discount.spec_is_percent() <==> spec_settings_issues(s).contains(
            ("/settings/azure_storage_discount"@, CODE_RANGE@, MSG_DISCOUNT@),
        ),
        !s.selected_parity_adjustment.spec_is_percent() <==> spec_settings_issues(s).contains(
            ("/settings/selected_parity_adjustment"@, CODE_RANGE@, MSG_DISCOUNT@),
        ),
{
    lemma_range_issue_source_compute_discount(s, MSG_DISCOUNT@);
    lemma_range_issue_source_license_discount(s, MSG_DISCOUNT@);
    lemma_range_issue_source_storage_discount(s, MSG_DISCOUNT@);
    lemma_range_issue_azure_compute_discount(s, MSG_DISCOUNT@);
    lemma_range_issue_azure_license_discount(s, MSG_DISCOUNT@);
    lemma_range_issue_azure_storage_discount(s, MSG_DISCOUNT@);
    lemma_range_issue_selected_parity_adjustment(s, MSG_DISCOUNT@);
}

/// Some issue of the list has this pointer and this code, whatever its message.
pub open spec fn has_issue(issues: Seq<IssueView>, pointer: Seq<char>, code: Seq<char>) -> bool {
    exists|k: int| 0 <= k < issues.len() && (#[trigger] issues[k]).0 == pointer && issues[k].1 == code
}

proof fn lemma_has_issue(issues: Seq<IssueView>, pointer: Seq<char>, code: Seq<char>, message: Seq<char>)
    requires
        forall|m: Seq<char>| #[trigger] issues.contains((pointer, code, m)) ==> m == message,
    ensures
        has_issue(issues, pointer, code) <==> issues.contains((pointer, code, message)),
{
    if has_issue(issues, pointer, code) {
        let k = choose|k: int| 0 <= k < issues.len() && (#[trigger] issues[k]).0 == pointer && issues[k].1 == code;
        assert(issues.contains((pointer, code, issues[k].2)));
        assert(issues[k] == (pointer, code, message));
    }
    if issues.contains((pointer, code, message)) {
        let k = choose|k: int| 0 <= k < issues.len() && issues[k] == (pointer, code, message);
        assert(issues[k].0 == pointer);
    }
}

/// The range rules stated by pointer and code alone: the settings report an
/// issue with a discount's (or the parity adjustment's) pointer and the range
/// code exactly when that field lies outside 0 to 1, whatever the message.
pub proof fn lemma_discount_range_issue_codes(s: ProjectSettings)
    ensures
        !s.source_compute_discount.spec_is_percent() <==> has_issue(spec_settings_issues(s), "/settings/source_compute_discount"@, CODE_RANGE@),
        !s.source_license_discount.spec_is_percent() <==> has_issue(spec_settings_issues(s), "/settings/source_license_discount"@, CODE_RANGE@),
        !s.source_storage_discount.spec_is_percent() <==> has_issue(spec_settings_issues(s), "/settings/source_storage_discount"@, CODE_RANGE@),
        !s.azure_compute_discount.spec_is_percent() <==> has_issue(spec_settings_issues(s), "/settings/azure_compute_discount"@, CODE_RANGE@),
        !s.azure_license_discount.spec_is_percent() <==> has_issue(spec_settings_issues(s), "/settings/azure_license_discount"@, CODE_RANGE@),
        !s.azure_storage_discount.spec_is_percent() <==> has_issue(spec_settings_issues(s), "/settings/azure_storage_discount"@, CODE_RANGE@),
        !s.selected_parity_adjustment.spec_is_percent() <==> has_issue(spec_settings_issues(s), "/settings/selected_parity_adjustment"@, CODE_RANGE@),
{
    assert forall|m: Seq<char>| #[trigger] spec_settings_issues(s).contains(("/settings/source_compute_discount"@, CODE_RANGE@, m)) implies m
        == MSG_DISCOUNT@ by {
        lemma_range_issue_source_compute_discount(s, m);
    }
    lemma_range_issue_source_compute_discount(s, MSG_DISCOUNT@);
    lemma_has_issue(spec_settings_issues(s), "/settings/source_compute_discount"@, CODE_RANGE@, MSG_DISCOUNT@);
    assert forall|m: Seq<char>| #[trigger] spec_settings_issues(s).contains(("/settings/source_license_discount"@, CODE_RANGE@, m)) implies m
        == MSG_DISCOUNT@ by {
        lemma_range_issue_source_license_discount(s, m);
    }
    lemma_range_issue_source_license_discount(s, MSG_DISCOUNT@);
    lemma_has_issue(spec_settings_issues(s), "/settings/source_license_discount"@, CODE_RANGE@, MSG_DISCOUNT@);
    assert forall|m: Seq<char>| #[trigger] spec_settings_issues(s).contains(("/settings/source_storage_discount"@, CODE_RANGE@, m)) implies m
        == MSG_DISCOUNT@ by {
        lemma_range_issue_source_storage_discount(s, m);
    }
    lemma_range_issue_source_storage_discount(s, MSG_DISCOUNT@);
    lemma_has_issue(spec_settings_issues(s), "/settings/source_storage_discount"@, CODE_RANGE@, MSG_DISCOUNT@);
    assert forall|m: Seq<char>| #[trigger] spec_settings_issues(s).contains(("/settings/azure_compute_discount"@, CODE_RANGE@, m)) implies m
        == MSG_DISCOUNT@ by {
        lemma_range_issue_azure_compute_discount(s, m);
    }
    lemma_range_issue_azure_compute_discount(s, MSG_DISCOUNT@);
    lemma_has_issue(spec_settings_issues(s), "/settings/azure_compute_discount"@, CODE_RANGE@, MSG_DISCOUNT@);
    assert forall|m: Seq<char>| #[trigger] spec_settings_issues(s).contains(("/settings/azure_license_discount"@, CODE_RANGE@, m)) implies m
        == MSG_DISCOUNT@ by {
        lemma_range_issue_azure_license_discount(s, m);
    }
    lemma_range_issue_azure_license_discount(s, MSG_DISCOUNT@);
    lemma_has_issue(spec_settings_issues(s), "/settings/azure_license_discount"@, CODE_RANGE@, MSG_DISCOUNT@);
    assert forall|m: Seq<char>| #[trigger] spec_settings_issues(s).contains(("/settings/azure_storage_discount"@, CODE_RANGE@, m)) implies m
        == MSG_DISCOUNT@ by {
        lemma_range_issue_azure_storage_discount(s, m);
    }
    lemma_range_issue_azure_storage_discount(s, MSG_DISCOUNT@);
    lemma_has_issue(spec_settings_issues(s), "/settings/azure_storage_discount"@, CODE_RANGE@, MSG_DISCOUNT@);
    assert forall|m: Seq<char>| #[trigger] spec_settings_issues(s).contains(("/settings/selected_parity_adjustment"@, CODE_RANGE@, m)) implies m
        == MSG_DISCOUNT@ by {
        lemma_range_issue_selected_parity_adjustment(s, m);
    }
    lemma_range_issue_selected_parity_adjustment(s, MSG_DISCOUNT@);
    lemma_has_issue(spec_settings_issues(s), "/settings/selected_parity_adjustment"@, CODE_RANGE@, MSG_DISCOUNT@);
}

/// Every issue of the list is on a pointer into the resources ("/r...").
pub open spec fn on_resources(issues: Seq<IssueView>) -> bool {
    forall|k: int| 0 <= k < issues.len() ==> (#[trigger] issues[k]).0.len() > 1 && issues[k].0[1] == 'r'
}

proof fn lemma_pointer_prefixes(index: int, j: int, field: Seq<char>)
    ensures
        resource_pointer(index, field).len() > 1 && resource_pointer(index, field)[1] == 'r',
        volume_pointer(index, j, field).len() > 1 && volume_pointer(index, j, field)[1] == 'r',
{
    reveal_strlit("/resources/");
    assert(resource_pointer(index, field)[1] == "/resources/"@[1]);
    assert(volume_pointer(index, j, field)[1] == "/resources/"@[1]);
}

proof fn lemma_on_resources_concat(a: Seq<IssueView>, b: Seq<IssueView>)
    requires
        on_resources(a),
        on_resources(b),
    ensures
        on_resources(a + b),
{
    assert forall|k: int| 0 <= k < (a + b).len() implies (#[trigger] (a + b)[k]).0.len() > 1 && (a + b)[k].0[1] == 'r' by {
        if k < a.len() {
            assert((a + b)[k] == a[k]);
        } else {
            assert((a + b)[k] == b[k - a.len()]);
        }
    }
}

proof fn lemma_on_resources_when(c: bool, pointer: Seq<char>, code: Seq<char>, message: Seq<char>)
    requires
        pointer.len() > 1 && pointer[1] == 'r',
    ensures
        on_resources(when(c, pointer, code, message)),
{
}

proof fn lemma_ebs_volume_issues_on_resources(index: int, j: int, v: EbsVolume, prior: Seq<u128>)
    ensures
        on_resources(spec_ebs_volume_issues(index, j, v, prior)),
{
    lemma_pointer_prefixes(index, j, "/id"@);
    lemma_pointer_prefixes(index, j, "/label"@);
    lemma_pointer_prefixes(index, j, "/aws_volume_id"@);
    lemma_pointer_prefixes(index, j, "/capacity_gb"@);
    lemma_pointer_prefixes(index, j, "/provisioned_iops"@);
    lemma_pointer_prefixes(index, j, "/throughput_mibps"@);
}

proof fn lemma_vm_volume_issues_on_resources(index: int, j: int, v: VmVolume, prior: Seq<u128>)
    ensures
        on_resources(spec_vm_volume_issues(index, j, v, prior)),
{
    lemma_pointer_prefixes(index, j, "/id"@);
    lemma_pointer_prefixes(index, j, "/label"@);
    lemma_pointer_prefixes(index, j, "/aws_volume_id"@);
    lemma_pointer_prefixes(index, j, "/capacity_gb"@);
    lemma_pointer_prefixes(index, j, "/volume_type"@);
    lemma_pointer_prefixes(index, j, "/role"@);
    lemma_pointer_prefixes(index, j, "/provisioned_iops"@);
    lemma_pointer_prefixes(index, j, "/throughput_mibps"@);
}

proof fn lemma_ebs_volumes_on_resources(index: int, volumes: Seq<EbsVolume>, before: Seq<u128>, count: int)
    ensures
        on_resources(spec_ebs_volumes_issues(index, volumes, before, count)),
    decreases count,
{
    if count > 0 {
        lemma_ebs_volumes_on_resources(index, volumes, before, count - 1);
        lemma_ebs_volume_issues_on_resources(
            index,
            count - 1,
            volumes[count - 1],
            before + volumes.map_values(|v: EbsVolume| v.id).take(count - 1),
        );
        lemma_on_resources_concat(
            spec_ebs_volumes_issues(index, volumes, before, count - 1),
            spec_ebs_volume_issues(
                index,
                count - 1,
                volumes[count - 1],
                before + volumes.map_values(|v: EbsVolume| v.id).take(count - 1),
            ),
        );
    }
}

proof fn lemma_vm_volumes_on_resources(index: int, volumes: Seq<VmVolume>, before: Seq<u128>, count: int)
    ensures
        on_resources(spec_vm_volumes_issues(index, volumes, before, count)),
    decreases count,
{
    if count > 0 {
        lemma_vm_volumes_on_resources(index, volumes, before, count - 1);
        lemma_vm_volume_issues_on_resources(
            index,
            count - 1,
            volumes[count - 1],
            before + volumes.map_values(|v: VmVolume| v.id).take(count - 1),
        );
        lemma_on_resources_concat(
            spec_vm_volumes_issues(index, volumes, before, count - 1),
            spec_vm_volume_issues(
                index,
                count - 1,
                volumes[count - 1],
                before + volumes.map_values(|v: VmVolume| v.id).take(count - 1),
            ),
        );
    }
}

proof fn lemma_shared_issues_on_resources(settings: ProjectSettings, resources: Seq<Resource>, index: int)
    ensures
        on_resources(spec_shared_issues(settings, resources, index)),
{
    let r = resources[index];
    let shared = r.spec_shared();
    let w0 = when(r.spec_project_type() != settings.project_type, resource_pointer(index, "/source_type"@), CODE_TYPE_MISMATCH@, MSG_TYPE_MISMATCH@);
    lemma_pointer_prefixes(index, 0, "/source_type"@);
    lemma_on_resources_when(r.spec_project_type() != settings.project_type, resource_pointer(index, "/source_type"@), CODE_TYPE_MISMATCH@, MSG_TYPE_MISMATCH@);
    let w1 = when(resource_ids(resources).take(index).contains(shared.id), resource_pointer(index, "/id"@), CODE_DUPLICATE@, MSG_DUPLICATE_RESOURCE@);
    lemma_pointer_prefixes(index, 0, "/id"@);
    lemma_on_resources_when(resource_ids(resources).take(index).contains(shared.id), resource_pointer(index, "/id"@), CODE_DUPLICATE@, MSG_DUPLICATE_RESOURCE@);
    let w2 = when(!(1 <= shared.workload_name@.len() <= 160), resource_pointer(index, "/workload_name"@), CODE_LENGTH@, MSG_WORKLOAD_NAME@);
    lemma_pointer_prefixes(index, 0, "/workload_name"@);
    lemma_on_resources_when(!(1 <= shared.workload_name@.len() <= 160), resource_pointer(index, "/workload_name"@), CODE_LENGTH@, MSG_WORKLOAD_NAME@);
    let w3 = when(optional_longer_than(shared.server_name, 160), resource_pointer(index, "/server_name"@), CODE_LENGTH@, MSG_SERVER_NAME@);
    lemma_pointer_prefixes(index, 0, "/server_name"@);
    lemma_on_resources_when(optional_longer_than(shared.server_name, 160), resource_pointer(index, "/server_name"@), CODE_LENGTH@, MSG_SERVER_NAME@);
    let w4 = when(!(1 <= shared.quantity <= 10_000), resource_pointer(index, "/quantity"@), CODE_RANGE@, MSG_QUANTITY@);
    lemma_pointer_prefixes(index, 0, "/quantity"@);
    lemma_on_resources_when(!(1 <= shared.quantity <= 10_000), resource_pointer(index, "/quantity"@), CODE_RANGE@, MSG_QUANTITY@);
    let sql_part = match r.spec_sql() {
        Some(sql) => when(out_of_range(sql.sql_data_gb_per_instance, 0, 1_000_000_000, false), resource_pointer(index, "/sql_data_gb_per_instance"@), CODE_RANGE@, MSG_SQL_DATA@),
        None => seq![],
    };
    lemma_pointer_prefixes(index, 0, "/sql_data_gb_per_instance"@);
    match r.spec_sql() {
        Some(sql) => lemma_on_resources_when(out_of_range(sql.sql_data_gb_per_instance, 0, 1_000_000_000, false), resource_pointer(index, "/sql_data_gb_per_instance"@), CODE_RANGE@, MSG_SQL_DATA@),
        None => {},
    }
    let w10 = when(out_of_range(shared.source_ram_gb_per_instance, 0, 1_000_000, true), resource_pointer(index, "/source_ram_gb_per_instance"@), CODE_RANGE@, MSG_RAM@);
    lemma_pointer_prefixes(index, 0, "/source_ram_gb_per_instance"@);
    lemma_on_resources_when(out_of_range(shared.source_ram_gb_per_instance, 0, 1_000_000, true), resource_pointer(index, "/source_ram_gb_per_instance"@), CODE_RANGE@, MSG_RAM@);
    let w11 = when(out_of_range(shared.annual_hours_per_instance, 0, 8_784, false), resource_pointer(index, "/annual_hours_per_instance"@), CODE_RANGE@, MSG_HOURS@);
    lemma_pointer_prefixes(index, 0, "/annual_hours_per_instance"@);
    lemma_on_resources_when(out_of_range(shared.annual_hours_per_instance, 0, 8_784, false), resource_pointer(index, "/annual_hours_per_instance"@), CODE_RANGE@, MSG_HOURS@);
    assert(on_resources(Seq::<IssueView>::empty()));
    lemma_on_resources_concat(Seq::<IssueView>::empty(), w0);
    lemma_on_resources_concat(Seq::<IssueView>::empty() + w0, w1);
    lemma_on_resources_concat(Seq::<IssueView>::empty() + w0 + w1, w2);
    lemma_on_resources_concat(Seq::<IssueView>::empty() + w0 + w1 + w2, w3);
    lemma_on_resources_concat(Seq::<IssueView>::empty() + w0 + w1 + w2 + w3, w4);
    lemma_on_resources_concat(Seq::<IssueView>::empty() + w0 + w1 + w2 + w3 + w4, sql_part);
    lemma_on_resources_concat(Seq::<IssueView>::empty() + w0 + w1 + w2 + w3 + w4 + sql_part, w10);
    lemma_on_resources_concat(Seq::<IssueView>::empty() + w0 + w1 + w2 + w3 + w4 + sql_part + w10, w11);
    assert(spec_shared_issues(settings, resources, index) == Seq::<IssueView>::empty() + w0 + w1 + w2 + w3 + w4 + sql_part + w10 + w11);
}

proof fn lemma_ec2_variant_on_resources(resources: Seq<Resource>, index: int)
    requires
        resources[index] is Ec2,
    ensures
        on_resources(spec_variant_issues(resources, index)),
{
    let r = resources[index]->Ec2_0;
    let before = volume_ids_before(resources, index);
    let w0 = when(spec_is_blank(r.instance_type@), resource_pointer(index, "/instance_type"@), CODE_REQUIRED@, MSG_INSTANCE_TYPE@);
    lemma_pointer_prefixes(index, 0, "/instance_type"@);
    lemma_on_resources_when(spec_is_blank(r.instance_type@), resource_pointer(index, "/instance_type"@), CODE_REQUIRED@, MSG_INSTANCE_TYPE@);
    let w1 = when(!(1 <= r.volumes@.len() <= 50), resource_pointer(index, "/volumes"@), CODE_LIMIT@, MSG_EC2_VOLUMES@);
    lemma_pointer_prefixes(index, 0, "/volumes"@);
    lemma_on_resources_when(!(1 <= r.volumes@.len() <= 50), resource_pointer(index, "/volumes"@), CODE_LIMIT@, MSG_EC2_VOLUMES@);
    let tail = spec_ebs_volumes_issues(index, r.volumes@, before, r.volumes@.len() as int);
    lemma_ebs_volumes_on_resources(index, r.volumes@, before, r.volumes@.len() as int);
    assert(on_resources(Seq::<IssueView>::empty()));
    lemma_on_resources_concat(Seq::<IssueView>::empty(), w0);
    lemma_on_resources_concat(Seq::<IssueView>::empty() + w0, w1);
    lemma_on_resources_concat(Seq::<IssueView>::empty() + w0 + w1, tail);
    assert(spec_variant_issues(resources, index) == Seq::<IssueView>::empty() + w0 + w1 + tail);
}

proof fn lemma_vm_variant_on_resources(resources: Seq<Resource>, index: int)
    requires
        resources[index] is Ec2Vm,
    ensures
        on_resources(spec_variant_issues(resources, index)),
{
    let r = resources[index]->Ec2Vm_0;
    let before = volume_ids_before(resources, index);
    let w0 = when(spec_is_blank(r.instance_type@), resource_pointer(index, "/instance_type"@), CODE_REQUIRED@, MSG_INSTANCE_TYPE@);
    lemma_pointer_prefixes(index, 0, "/instance_type"@);
    lemma_on_resources_when(spec_is_blank(r.instance_type@), resource_pointer(index, "/instance_type"@), CODE_REQUIRED@, MSG_INSTANCE_TYPE@);
    let w1 = when(r.requirements.instance_store_use == VmInstanceStoreUse::Used && nonpositive_or_missing(r.requirements.required_local_temp_disk_gb), resource_pointer(index, "/requirements/required_local_temp_disk_gb"@), CODE_REQUIRED@, MSG_TEMP_DISK@);
    lemma_pointer_prefixes(index, 0, "/requirements/required_local_temp_disk_gb"@);
    lemma_on_resources_when(r.requirements.instance_store_use == VmInstanceStoreUse::Used && nonpositive_or_missing(r.requirements.required_local_temp_disk_gb), resource_pointer(index, "/requirements/required_local_temp_disk_gb"@), CODE_REQUIRED@, MSG_TEMP_DISK@);
    let w2 = when(r.requirements.instance_store_use == VmInstanceStoreUse::Used && r.requirements.ephemeral_data_loss_acceptable is None, resource_pointer(index, "/requirements/ephemeral_data_loss_acceptable"@), CODE_REQUIRED@, MSG_DATA_LOSS@);
    lemma_pointer_prefixes(index, 0, "/requirements/ephemeral_data_loss_acceptable"@);
    lemma_on_resources_when(r.requirements.instance_store_use == VmInstanceStoreUse::Used && r.requirements.ephemeral_data_loss_acceptable is None, resource_pointer(index, "/requirements/ephemeral_data_loss_acceptable"@), CODE_REQUIRED@, MSG_DATA_LOSS@);
    let w3 = when(invalid_arm_sku(r.requirements.requested_target_arm_sku), resource_pointer(index, "/requirements/requested_target_arm_sku"@), CODE_FORMAT@, MSG_ARM_SKU@);
    lemma_pointer_prefixes(index, 0, "/requirements/requested_target_arm_sku"@);
    lemma_on_resources_when(invalid_arm_sku(r.requirements.requested_target_arm_sku), resource_pointer(index, "/requirements/requested_target_arm_sku"@), CODE_FORMAT@, MSG_ARM_SKU@);
    let w4 = when(!(1 <= r.volumes@.len() <= 50), resource_pointer(index, "/volumes"@), CODE_LIMIT@, MSG_VM_VOLUMES@);
    lemma_pointer_prefixes(index, 0, "/volumes"@);
    lemma_on_resources_when(!(1 <= r.volumes@.len() <= 50), resource_pointer(index, "/volumes"@), CODE_LIMIT@, MSG_VM_VOLUMES@);
    let w5 = when(os_disk_count(r.volumes@) != 1, resource_pointer(index, "/volumes"@), CODE_OS_DISK@, MSG_OS_DISK@);
    lemma_pointer_prefixes(index, 0, "/volumes"@);
    lemma_on_resources_when(os_disk_count(r.volumes@) != 1, resource_pointer(index, "/volumes"@), CODE_OS_DISK@, MSG_OS_DISK@);
    let tail = spec_vm_volumes_issues(index, r.volumes@, before, r.volumes@.len() as int);
    lemma_vm_volumes_on_resources(index, r.volumes@, before, r.volumes@.len() as int);
    assert(on_resources(Seq::<IssueView>::empty()));
    lemma_on_resources_concat(Seq::<IssueView>::empty(), w0);
    lemma_on_resources_concat(Seq::<IssueView>::empty() + w0, w1);
    lemma_on_resources_concat(Seq::<IssueView>::empty() + w0 + w1, w2);
    lemma_on_resources_concat(Seq::<IssueView>::empty() + w0 + w1 + w2, w3);
    lemma_on_resources_concat(Seq::<IssueView>::empty() + w0 + w1 + w2 + w3, w4);
    lemma_on_resources_concat(Seq::<IssueView>::empty() + w0 + w1 + w2 + w3 + w4, w5);
    lemma_on_resources_concat(Seq::<IssueView>::empty() + w0 + w1 + w2 + w3 + w4 + w5, tail);
    assert(spec_variant_issues(resources, index) == Seq::<IssueView>::empty() + w0 + w1 + w2 + w3 + w4 + w5 + tail);
}

proof fn lemma_rds_variant_on_resources(resources: Seq<Resource>, index: int)
    requires
        resources[index] is Rds,
    ensures
        on_resources(spec_variant_issues(resources, index)),
{
    let r = resources[index]->Rds_0;
    let before = volume_ids_before(resources, index);
    let w0 = when(spec_is_blank(r.instance_type@), resource_pointer(index, "/instance_type"@), CODE_REQUIRED@, MSG_RDS_SELECTION@);
    lemma_pointer_prefixes(index, 0, "/instance_type"@);
    lemma_on_resources_when(spec_is_blank(r.instance_type@), resource_pointer(index, "/instance_type"@), CODE_REQUIRED@, MSG_RDS_SELECTION@);
    let w1 = when(spec_is_blank(r.commercial_term@), resource_pointer(index, "/commercial_term"@), CODE_REQUIRED@, MSG_RDS_SELECTION@);
    lemma_pointer_prefixes(index, 0, "/commercial_term"@);
    lemma_on_resources_when(spec_is_blank(r.commercial_term@), resource_pointer(index, "/commercial_term"@), CODE_REQUIRED@, MSG_RDS_SELECTION@);
    let w2 = when(spec_is_blank(r.storage_class@), resource_pointer(index, "/storage_class"@), CODE_REQUIRED@, MSG_RDS_SELECTION@);
    lemma_pointer_prefixes(index, 0, "/storage_class"@);
    lemma_on_resources_when(spec_is_blank(r.storage_class@), resource_pointer(index, "/storage_class"@), CODE_REQUIRED@, MSG_RDS_SELECTION@);
    let w3 = when(r.source_max_iops > 1_000_000_000, resource_pointer(index, "/source_max_iops"@), CODE_RANGE@, MSG_SOURCE_IOPS@);
    lemma_pointer_prefixes(index, 0, "/source_max_iops"@);
    lemma_on_resources_when(r.source_max_iops > 1_000_000_000, resource_pointer(index, "/source_max_iops"@), CODE_RANGE@, MSG_SOURCE_IOPS@);
    assert(on_resources(Seq::<IssueView>::empty()));
    lemma_on_resources_concat(Seq::<IssueView>::empty(), w0);
    lemma_on_resources_concat(Seq::<IssueView>::empty() + w0, w1);
    lemma_on_resources_concat(Seq::<IssueView>::empty() + w0 + w1, w2);
    lemma_on_resources_concat(Seq::<IssueView>::empty() + w0 + w1 + w2, w3);
    assert(spec_variant_issues(resources, index) == Seq::<IssueView>::empty() + w0 + w1 + w2 + w3);
}

proof fn lemma_on_prem_variant_on_resources(resources: Seq<Resource>, index: int)
    requires
        resources[index] is OnPrem,
    ensures
        on_resources(spec_variant_issues(resources, index)),
{
    let r = resources[index]->OnPrem_0;
    let before = volume_ids_before(resources, index);
    let w0 = when(!(1 <= r.source_vcpu <= 100_000), resource_pointer(index, "/source_vcpu"@), CODE_RANGE@, MSG_CORE_COUNT@);
    lemma_pointer_prefixes(index, 0, "/source_vcpu"@);
    lemma_on_resources_when(!(1 <= r.source_vcpu <= 100_000), resource_pointer(index, "/source_vcpu"@), CODE_RANGE@, MSG_CORE_COUNT@);
    let w1 = when(!(1 <= r.licensable_cores <= 100_000), resource_pointer(index, "/licensable_cores"@), CODE_RANGE@, MSG_CORE_COUNT@);
    lemma_pointer_prefixes(index, 0, "/licensable_cores"@);
    lemma_on_resources_when(!(1 <= r.licensable_cores <= 100_000), resource_pointer(index, "/licensable_cores"@), CODE_RANGE@, MSG_CORE_COUNT@);
    let w2 = when(r.source_max_iops > 1_000_000_000, resource_pointer(index, "/source_max_iops"@), CODE_RANGE@, MSG_SOURCE_IOPS@);
    lemma_pointer_prefixes(index, 0, "/source_max_iops"@);
    lemma_on_resources_when(r.source_max_iops > 1_000_000_000, resource_pointer(index, "/source_max_iops"@), CODE_RANGE@, MSG_SOURCE_IOPS@);
    let w3 = when(r.hardware_capex_usd.units() < 0, resource_pointer(index, "/hardware_capex_usd"@), CODE_RANGE@, MSG_CAPEX@);
    lemma_pointer_prefixes(index, 0, "/hardware_capex_usd"@);
    lemma_on_resources_when(r.hardware_capex_usd.units() < 0, resource_pointer(index, "/hardware_capex_usd"@), CODE_RANGE@, MSG_CAPEX@);
    let w4 = when(out_of_range(r.depreciation_years, 0, 50, true), resource_pointer(index, "/depreciation_years"@), CODE_RANGE@, MSG_DEPRECIATION@);
    lemma_pointer_prefixes(index, 0, "/depreciation_years"@);
    lemma_on_resources_when(out_of_range(r.depreciation_years, 0, 50, true), resource_pointer(index, "/depreciation_years"@), CODE_RANGE@, MSG_DEPRECIATION@);
    let w5 = when(nonpositive_option(r.average_power_kw_override), resource_pointer(index, "/average_power_kw_override"@), CODE_RANGE@, MSG_POWER@);
    lemma_pointer_prefixes(index, 0, "/average_power_kw_override"@);
    lemma_on_resources_when(nonpositive_option(r.average_power_kw_override), resource_pointer(index, "/average_power_kw_override"@), CODE_RANGE@, MSG_POWER@);
    assert(on_resources(Seq::<IssueView>::empty()));
    lemma_on_resources_concat(Seq::<IssueView>::empty(), w0);
    lemma_on_resources_concat(Seq::<IssueView>::empty() + w0, w1);
    lemma_on_resources_concat(Seq::<IssueView>::empty() + w0 + w1, w2);
    lemma_on_resources_concat(Seq::<IssueView>::empty() + w0 + w1 + w2, w3);
    lemma_on_resources_concat(Seq::<IssueView>::empty() + w0 + w1 + w2 + w3, w4);
    lemma_on_resources_concat(Seq::<IssueView>::empty() + w0 + w1 + w2 + w3 + w4, w5);
    assert(spec_variant_issues(resources, index) == Seq::<IssueView>::empty() + w0 + w1 + w2 + w3 + w4 + w5);
}

proof fn lemma_variant_issues_on_resources(resources: Seq<Resource>, index: int)
    ensures
        on_resources(spec_variant_issues(resources, index)),
{
    match resources[index] {
        Resource::Ec2(_) => lemma_ec2_variant_on_resources(resources, index),
        Resource::Ec2Vm(_) => lemma_vm_variant_on_resources(resources, index),
        Resource::Rds(_) => lemma_rds_variant_on_resources(resources, index),
        Resource::OnPrem(_) => lemma_on_prem_variant_on_resources(resources, index),
    }
}

proof fn lemma_resource_issues_on_resources(settings: ProjectSettings, resources: Seq<Resource>, index: int)
    ensures
        on_resources(spec_resource_issues(settings, resources, index)),
{
    lemma_shared_issues_on_resources(settings, resources, index);
    lemma_variant_issues_on_resources(resources, index);
    lemma_on_resources_concat(spec_shared_issues(settings, resources, index), spec_variant_issues(resources, index));
}

proof fn lemma_resources_issues_on_resources(settings: ProjectSettings, resources: Seq<Resource>, count: int)
    ensures
        on_resources(spec_resources_issues(settings, resources, count)),
    decreases count,
{
    if count > 0 {
        lemma_resources_issues_on_resources(settings, resources, count - 1);
        lemma_resource_issues_on_resources(settings, resources, count - 1);
        lemma_on_resources_concat(
            spec_resources_issues(settings, resources, count - 1),
            spec_resource_issues(settings, resources, count - 1),
        );
    }
}

proof fn lemma_head_issue_components(p: EditableProject, x: IssueView)
    ensures
        spec_head_issues(p).contains(x) <==> {
            ||| (!(1 <= p.name@.len() <= 100) && ("/name"@, CODE_LENGTH@, MSG_NAME@) == x)
            ||| (optional_longer_than(p.description, 500) && ("/description"@, CODE_LENGTH@, MSG_DESCRIPTION@) == x)
            ||| (p.resources@.len() > 100 && ("/resources"@, CODE_LIMIT@, MSG_RESOURCE_LIMIT@) == x)
            ||| (p.settings.project_type == ProjectType::SqlPayg && p.resources@.len() != 0 && ("/resources"@, CODE_NOT_ALLOWED@, MSG_SQL_PAYG_RESOURCES@) == x)
            ||| (invalid_snapshot_reference(p.aws_price_snapshot_id, aws_prefix()) && ("/aws_price_snapshot_id"@, CODE_FORMAT@, MSG_SNAPSHOT_ID@) == x)
            ||| (invalid_snapshot_reference(p.azure_price_snapshot_id, azure_prefix()) && ("/azure_price_snapshot_id"@, CODE_FORMAT@, MSG_SNAPSHOT_ID@) == x)
        },
{
    let w0 = when(!(1 <= p.name@.len() <= 100), "/name"@, CODE_LENGTH@, MSG_NAME@);
    lemma_when_contains(!(1 <= p.name@.len() <= 100), "/name"@, CODE_LENGTH@, MSG_NAME@, x);
    let w1 = when(optional_longer_than(p.description, 500), "/description"@, CODE_LENGTH@, MSG_DESCRIPTION@);
    lemma_when_contains(optional_longer_than(p.description, 500), "/description"@, CODE_LENGTH@, MSG_DESCRIPTION@, x);
    let w2 = when(p.resources@.len() > 100, "/resources"@, CODE_LIMIT@, MSG_RESOURCE_LIMIT@);
    lemma_when_contains(p.resources@.len() > 100, "/resources"@, CODE_LIMIT@, MSG_RESOURCE_LIMIT@, x);
    let w3 = when(p.settings.project_type == ProjectType::SqlPayg && p.resources@.len() != 0, "/resources"@, CODE_NOT_ALLOWED@, MSG_SQL_PAYG_RESOURCES@);
    lemma_when_contains(p.settings.project_type == ProjectType::SqlPayg && p.resources@.len() != 0, "/resources"@, CODE_NOT_ALLOWED@, MSG_SQL_PAYG_RESOURCES@, x);
    let w4 = when(invalid_snapshot_reference(p.aws_price_snapshot_id, aws_prefix()), "/aws_price_snapshot_id"@, CODE_FORMAT@, MSG_SNAPSHOT_ID@);
    lemma_when_contains(invalid_snapshot_reference(p.aws_price_snapshot_id, aws_prefix()), "/aws_price_snapshot_id"@, CODE_FORMAT@, MSG_SNAPSHOT_ID@, x);
    let w5 = when(invalid_snapshot_reference(p.azure_price_snapshot_id, azure_prefix()), "/azure_price_snapshot_id"@, CODE_FORMAT@, MSG_SNAPSHOT_ID@);
    lemma_when_contains(invalid_snapshot_reference(p.azure_price_snapshot_id, azure_prefix()), "/azure_price_snapshot_id"@, CODE_FORMAT@, MSG_SNAPSHOT_ID@, x);
    assert(!Seq::<IssueView>::empty().contains(x));
    lemma_contains_concat(Seq::<IssueView>::empty(), w0, x);
    lemma_contains_concat(Seq::<IssueView>::empty() + w0, w1, x);
    lemma_contains_concat(Seq::<IssueView>::empty() + w0 + w1, w2, x);
    lemma_contains_concat(Seq::<IssueView>::empty() + w0 + w1 + w2, w3, x);
    lemma_contains_concat(Seq::<IssueView>::empty() + w0 + w1 + w2 + w3, w4, x);
    lemma_contains_concat(Seq::<IssueView>::empty() + w0 + w1 + w2 + w3 + w4, w5, x);
    assert(spec_head_issues(p) == Seq::<IssueView>::empty() + w0 + w1 + w2 + w3 + w4 + w5);
}

proof fn lemma_aws_snapshot_issue(p: EditableProject, message: Seq<char>)
    ensures
        (invalid_snapshot_reference(p.aws_price_snapshot_id, aws_prefix()) && message == MSG_SNAPSHOT_ID@)
            <==> spec_validation_issues(p).contains(("/aws_price_snapshot_id"@, CODE_FORMAT@, message)),
{
    let x = ("/aws_price_snapshot_id"@, CODE_FORMAT@, message);
    reveal_strlit("/aws_price_snapshot_id");
    assert("/aws_price_snapshot_id"@.len() == 22);
    assert("/aws_price_snapshot_id"@[1] == 'a');
    reveal_strlit("/name");
    assert("/name"@.len() == 5);
    reveal_strlit("/description");
    assert("/description"@.len() == 12);
    reveal_strlit("/resources");
    assert("/resources"@.len() == 10);
    reveal_strlit("/azure_price_snapshot_id");
    assert("/azure_price_snapshot_id"@.len() == 24);
    reveal_strlit("/settings/selected_parity_adjustment");
    assert("/settings/selected_parity_adjustment"@.len() == 36);
    reveal_strlit("/settings/currency");
    assert("/settings/currency"@.len() == 18);
    reveal_strlit("/settings/azure_region");
    assert("/settings/azure_region"@.len() == 22);
    reveal_strlit("/settings/aws_region");
    assert("/settings/aws_region"@.len() == 20);
    reveal_strlit("/settings/source_compute_discount");
    assert("/settings/source_compute_discount"@.len() == 33);
    reveal_strlit("/settings/source_license_discount");
    assert("/settings/source_license_discount"@.len() == 33);
    reveal_strlit("/settings/source_storage_discount");
    assert("/settings/source_storage_discount"@.len() == 33);
    reveal_strlit("/settings/azure_compute_discount");
    assert("/settings/azure_compute_discount"@.len() == 32);
    reveal_strlit("/settings/azure_license_discount");
    assert("/settings/azure_license_discount"@.len() == 32);
    reveal_strlit("/settings/azure_storage_discount");
    assert("/settings/azure_storage_discount"@.len() == 32);
    reveal_strlit("/settings/default_annual_hours");
    assert("/settings/default_annual_hours"@.len() == 30);
    assert("/settings/azure_region"@[1] == 's');
    lemma_head_issue_components(p, x);
    lemma_settings_issue_components(p.settings, x);
    lemma_type_rules_pointer_lengths(p.settings);
    if spec_on_prem_settings_issues(p.settings).contains(x) {
        let k = choose|k: int| 0 <= k < spec_on_prem_settings_issues(p.settings).len() && spec_on_prem_settings_issues(p.settings)[k] == x;
        assert(spec_on_prem_settings_issues(p.settings)[k].0.len() == x.0.len());
    }
    if spec_sql_payg_settings_issues(p.settings).contains(x) {
        let k = choose|k: int| 0 <= k < spec_sql_payg_settings_issues(p.settings).len() && spec_sql_payg_settings_issues(p.settings)[k] == x;
        assert(spec_sql_payg_settings_issues(p.settings)[k].0.len() == x.0.len());
    }
    let resources_issues = spec_resources_issues(p.settings, p.resources@, p.resources@.len() as int);
    lemma_resources_issues_on_resources(p.settings, p.resources@, p.resources@.len() as int);
    if resources_issues.contains(x) {
        let k = choose|k: int| 0 <= k < resources_issues.len() && resources_issues[k] == x;
        assert(resources_issues[k].0[1] == x.0[1]);
    }
    lemma_contains_concat(spec_head_issues(p), spec_settings_issues(p.settings), x);
    lemma_contains_concat(spec_head_issues(p) + spec_settings_issues(p.settings), resources_issues, x);
}

proof fn lemma_azure_snapshot_issue(p: EditableProject, message: Seq<char>)
    ensures
        (invalid_snapshot_reference(p.azure_price_snapshot_id, azure_prefix()) && message == MSG_SNAPSHOT_ID@)
            <==> spec_validation_issues(p).contains(("/azure_price_snapshot_id"@, CODE_FORMAT@, message)),
{
    let x = ("/azure_price_snapshot_id"@, CODE_FORMAT@, message);
    reveal_strlit("/azure_price_snapshot_id");
    assert("/azure_price_snapshot_id"@.len() == 24);
    assert("/azure_price_snapshot_id"@[1] == 'a');
    reveal_strlit("/name");
    assert("/name"@.len() == 5);
    reveal_strlit("/description");
    assert("/description"@.len() == 12);
    reveal_strlit("/resources");
    assert("/resources"@.len() == 10);
    reveal_strlit("/aws_price_snapshot_id");
    assert("/aws_price_snapshot_id"@.len() == 22);
    reveal_strlit("/settings/selected_parity_adjustment");
    assert("/settings/selected_parity_adjustment"@.len() == 36);
    reveal_strlit("/settings/currency");
    assert("/settings/currency"@.len() == 18);
    reveal_strlit("/settings/azure_region");
    assert("/settings/azure_region"@.len() == 22);
    reveal_strlit("/settings/aws_region");
    assert("/settings/aws_region"@.len() == 20);
    reveal_strlit("/settings/source_compute_discount");
    assert("/settings/source_compute_discount"@.len() == 33);
    reveal_strlit("/settings/source_license_discount");
    assert("/settings/source_license_discount"@.len() == 33);
    reveal_strlit("/settings/source_storage_discount");
    assert("/settings/source_storage_discount"@.len() == 33);
    reveal_strlit("/settings/azure_compute_discount");
    assert("/settings/azure_compute_discount"@.len() == 32);
    reveal_strlit("/settings/azure_license_discount");
    assert("/settings/azure_license_discount"@.len() == 32);
    reveal_strlit("/settings/azure_storage_discount");
    assert("/settings/azure_storage_discount"@.len() == 32);
    reveal_strlit("/settings/default_annual_hours");
    assert("/settings/default_annual_hours"@.len() == 30);
    assert("/settings/azure_region"@[1] == 's');
    lemma_head_issue_components(p, x);
    lemma_settings_issue_components(p.settings, x);
    lemma_type_rules_pointer_lengths(p.settings);
    if spec_on_prem_settings_issues(p.settings).contains(x) {
        let k = choose|k: int| 0 <= k < spec_on_prem_settings_issues(p.settings).len() && spec_on_prem_settings_issues(p.settings)[k] == x;
        assert(spec_on_prem_settings_issues(p.settings)[k].0.len() == x.0.len());
    }
    if spec_sql_payg_settings_issues(p.settings).contains(x) {
        let k = choose|k: int| 0 <= k < spec_sql_payg_settings_issues(p.settings).len() && spec_sql_payg_settings_issues(p.settings)[k] == x;
        assert(spec_sql_payg_settings_issues(p.settings)[k].0.len() == x.0.len());
    }
    let resources_issues = spec_resources_issues(p.settings, p.resources@, p.resources@.len() as int);
    lemma_resources_issues_on_resources(p.settings, p.resources@, p.resources@.len() as int);
    if resources_issues.contains(x) {
        let k = choose|k: int| 0 <= k < resources_issues.len() && resources_issues[k] == x;
        assert(resources_issues[k].0[1] == x.0[1]);
    }
    lemma_contains_concat(spec_head_issues(p), spec_settings_issues(p.settings), x);
    lemma_contains_concat(spec_head_issues(p) + spec_settings_issues(p.settings), resources_issues, x);
}

/// A snapshot reference is checked by its own rule: validation reports the
/// format issue on a snapshot reference's pointer exactly when that reference
/// is present and not a snapshot ID of its provider.
pub proof fn lemma_snapshot_reference_issues(p: EditableProject)
    ensures
        invalid_snapshot_reference(p.aws_price_snapshot_id, aws_prefix()) <==> spec_validation_issues(p).contains(
            ("/aws_price_snapshot_id"@, CODE_FORMAT@, MSG_SNAPSHOT_ID@),
        ),
        invalid_snapshot_reference(p.azure_price_snapshot_id, azure_prefix()) <==> spec_validation_issues(p).contains(
            ("/azure_price_snapshot_id"@, CODE_FORMAT@, MSG_SNAPSHOT_ID@),
        ),
{
    lemma_aws_snapshot_issue(p, MSG_SNAPSHOT_ID@);
    lemma_azure_snapshot_issue(p, MSG_SNAPSHOT_ID@);
}

/// The snapshot reference rule stated by pointer and code alone: validation
/// reports an issue with a snapshot reference's pointer and the format code
/// exactly when that reference is present and not a snapshot ID of its provider,
/// whatever the message.
pub proof fn lemma_snapshot_reference_issue_codes(p: EditableProject)
    ensures
        invalid_snapshot_reference(p.aws_price_snapshot_id, aws_prefix()) <==> has_issue(
            spec_validation_issues(p),
            "/aws_price_snapshot_id"@,
            CODE_FORMAT@,
        ),
        invalid_snapshot_reference(p.azure_price_snapshot_id, azure_prefix()) <==> has_issue(
            spec_validation_issues(p),
            "/azure_price_snapshot_id"@,
            CODE_FORMAT@,
        ),
{
    assert forall|m: Seq<char>| #[trigger] spec_validation_issues(p).contains(("/aws_price_snapshot_id"@, CODE_FORMAT@, m))
        implies m == MSG_SNAPSHOT_ID@ by {
        lemma_aws_snapshot_issue(p, m);
    }
    assert forall|m: Seq<char>| #[trigger] spec_validation_issues(p).contains(("/azure_price_snapshot_id"@, CODE_FORMAT@, m))
        implies m == MSG_SNAPSHOT_ID@ by {
        lemma_azure_snapshot_issue(p, m);
    }
    lemma_aws_snapshot_issue(p, MSG_SNAPSHOT_ID@);
    lemma_azure_snapshot_issue(p, MSG_SNAPSHOT_ID@);
    lemma_has_issue(spec_validation_issues(p), "/aws_price_snapshot_id"@, CODE_FORMAT@, MSG_SNAPSHOT_ID@);
    lemma_has_issue(spec_validation_issues(p), "/azure_price_snapshot_id"@, CODE_FORMAT@, MSG_SNAPSHOT_ID@);
}

} // verus!
