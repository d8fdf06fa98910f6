use vstd::prelude::*;

use crate::decimal::DecimalValue;
use crate::text::{has_prefix, spec_has_prefix};
use vstd::string::StringSliceAdditionalSpecFns;

verus! {

#[derive(Clone, Copy, Debug, PartialEq, Eq, Structural)]
pub enum ProjectType {
    Ec2,
    Ec2Vm,
    Rds,
    OnPrem,
    SqlPayg,
}

#[derive(Clone, Copy, Debug, PartialEq, Eq, Structural)]
pub enum SqlEdition {
    Standard,
    Enterprise,
}

#[derive(Clone, Copy, Debug, PartialEq, Eq, Structural)]
pub enum LicenseBasis {
    LicenseIncluded,
    Byol,
}

#[derive(Clone, Copy, Debug, PartialEq, Eq, Structural)]
pub enum PurchaseOption {
    Payg,
    Ahb,
    OneYear,
    AhbOneYear,
    ThreeYear,
    AhbThreeYear,
    SavingsOneYear,
    AhbSavingsOneYear,
}

#[derive(Clone, Copy, Debug, PartialEq, Eq, Structural)]
pub enum VmPurchaseOption {
    Payg,
    Ahb,
    OneYear,
    AhbOneYear,
    ThreeYear,
    AhbThreeYear,
    SavingsOneYear,
    AhbSavingsOneYear,
    SavingsThreeYear,
    AhbSavingsThreeYear,
}

impl VmPurchaseOption {
    /// The wire name of the option.
    pub open spec fn spec_label(self) -> Seq<char> {
        match self {
            VmPurchaseOption::Payg => "payg"@,
            VmPurchaseOption::Ahb => "ahb"@,
            VmPurchaseOption::OneYear => "one-year"@,
            VmPurchaseOption::AhbOneYear => "ahbone-year"@,
            VmPurchaseOption::ThreeYear => "three-year"@,
            VmPurchaseOption::AhbThreeYear => "ahbthree-year"@,
            VmPurchaseOption::SavingsOneYear => "sv-one-year"@,
            VmPurchaseOption::AhbSavingsOneYear => "ahbsv-one-year"@,
            VmPurchaseOption::SavingsThreeYear => "sv-three-year"@,
            VmPurchaseOption::AhbSavingsThreeYear => "ahbsv-three-year"@,
        }
    }

    /// The options that apply Azure Hybrid Benefit.
    pub open spec fn spec_uses_ahb(self) -> bool {
        match self {
            VmPurchaseOption::Ahb
            | VmPurchaseOption::AhbOneYear
            | VmPurchaseOption::AhbThreeYear
            | VmPurchaseOption::AhbSavingsOneYear
            | VmPurchaseOption::AhbSavingsThreeYear => true,
            _ => false,
        }
    }

    pub fn as_str(self) -> (r: &'static str)
        ensures
            r@ == self.spec_label(),
    {
        match self {
            VmPurchaseOption::Payg => "payg",
            VmPurchaseOption::Ahb => "ahb",
            VmPurchaseOption::OneYear => "one-year",
            VmPurchaseOption::AhbOneYear => "ahbone-year",
            VmPurchaseOption::ThreeYear => "three-year",
            VmPurchaseOption::AhbThreeYear => "ahbthree-year",
            VmPurchaseOption::SavingsOneYear => "sv-one-year",
            VmPurchaseOption::AhbSavingsOneYear => "ahbsv-one-year",
            VmPurchaseOption::SavingsThreeYear => "sv-three-year",
            VmPurchaseOption::AhbSavingsThreeYear => "ahbsv-three-year",
        }
    }

    pub fn uses_ahb(self) -> (r: bool)
        ensures
            r == self.spec_uses_ahb(),
    {
        match self {
            VmPurchaseOption::Ahb
            | VmPurchaseOption::AhbOneYear
            | VmPurchaseOption::AhbThreeYear
            | VmPurchaseOption::AhbSavingsOneYear
            | VmPurchaseOption::AhbSavingsThreeYear => true,
            _ => false,
        }
    }
}

/// Fields every workload resource carries, including the non-SQL VM variant.
#[derive(Clone, Debug)]
pub struct SharedResource {
    pub id: u128,
    pub workload_name: String,
    pub server_name: Option<String>,
    pub quantity: u32,
    pub source_ram_gb_per_instance: DecimalValue,
    pub annual_hours_per_instance: DecimalValue,
}

/// SQL-only inputs, absent from the VM workload.
#[derive(Clone, Debug)]
pub struct SqlWorkload {
    pub sql_edition: SqlEdition,
    pub license_basis: LicenseBasis,
    pub sql_data_gb_per_instance: DecimalValue,
    pub mi_purchase_option: PurchaseOption,
}

#[derive(Clone, Debug)]
pub enum Resource {
    Ec2(Ec2Resource),
    Ec2Vm(Ec2VmResource),
    Rds(RdsResource),
    OnPrem(OnPremResource),
}

impl Resource {
    pub open spec fn spec_shared(&self) -> SharedResource {
        match self {
            Resource::Ec2(r) => r.shared,
            Resource::Ec2Vm(r) => r.shared,
            Resource::Rds(r) => r.shared,
            Resource::OnPrem(r) => r.shared,
        }
    }

    pub open spec fn spec_sql(&self) -> Option<SqlWorkload> {
        match self {
            Resource::Ec2(r) => Some(r.sql),
            Resource::Ec2Vm(_) => None,
            Resource::Rds(r) => Some(r.sql),
            Resource::OnPrem(r) => Some(r.sql),
        }
    }

    pub open spec fn spec_project_type(&self) -> ProjectType {
        match self {
            Resource::Ec2(_) => ProjectType::Ec2,
            Resource::Ec2Vm(_) => ProjectType::Ec2Vm,
            Resource::Rds(_) => ProjectType::Rds,
            Resource::OnPrem(_) => ProjectType::OnPrem,
        }
    }

    pub fn shared(&self) -> (r: &SharedResource)
        ensures
            *r == self.spec_shared(),
    {
        match self {
            Resource::Ec2(resource) => &resource.shared,
            Resource::Ec2Vm(resource) => &resource.shared,
            Resource::Rds(resource) => &resource.shared,
            Resource::OnPrem(resource) => &resource.shared,
        }
    }

    /// `None` for the non-SQL VM workload.
    pub fn sql(&self) -> (r: Option<&SqlWorkload>)
        ensures
            match self.spec_sql() {
                Some(s) => r matches Some(x) && *x == s,
                None => r is None,
            },
    {
        match self {
            Resource::Ec2(resource) => Some(&resource.sql),
            Resource::Rds(resource) => Some(&resource.sql),
            Resource::OnPrem(resource) => Some(&resource.sql),
            Resource::Ec2Vm(_) => None,
        }
    }

    pub fn project_type(&self) -> (r: ProjectType)
        ensures
            r == self.spec_project_type(),
    {
        match self {
            Resource::Ec2(_) => ProjectType::Ec2,
            Resource::Ec2Vm(_) => ProjectType::Ec2Vm,
            Resource::Rds(_) => ProjectType::Rds,
            Resource::OnPrem(_) => ProjectType::OnPrem,
        }
    }
}

#[derive(Clone, Debug)]
pub struct Ec2Resource {
    pub shared: SharedResource,
    pub sql: SqlWorkload,
    pub instance_type: String,
    pub volumes: Vec<EbsVolume>,
}

/// AWS EC2 Windows virtual machine without SQL Server.
#[derive(Clone, Debug)]
pub struct Ec2VmResource {
    pub shared: SharedResource,
    pub instance_type: String,
    pub vm_purchase_option: VmPurchaseOption,
    pub requirements: Ec2VmRequirements,
    pub volumes: Vec<VmVolume>,
}

#[derive(Clone, Debug)]
pub struct Ec2VmRequirements {
    pub burst_policy: VmBurstPolicy,
    pub instance_store_use: VmInstanceStoreUse,
    pub required_local_temp_disk_gb: Option<DecimalValue>,
    pub ephemeral_data_loss_acceptable: Option<bool>,
    pub high_frequency_requirement: VmHighFrequencyRequirement,
    pub requested_target_arm_sku: Option<String>,
}

/// The bytes of "t3.", the burstable EC2 family.
pub open spec fn burstable_prefix() -> Seq<u8> {
    seq![0x74u8, 0x33u8, 0x2eu8]
}

/// The bytes of "z1d.", the high-frequency EC2 family.
pub open spec fn high_frequency_prefix() -> Seq<u8> {
    seq![0x7au8, 0x31u8, 0x64u8, 0x2eu8]
}

impl Ec2VmRequirements {
    pub open spec fn spec_default() -> Ec2VmRequirements {
        Ec2VmRequirements {
            burst_policy: VmBurstPolicy::NotApplicable,
            instance_store_use: VmInstanceStoreUse::NotUsed,
            required_local_temp_disk_gb: None,
            ephemeral_data_loss_acceptable: None,
            high_frequency_requirement: VmHighFrequencyRequirement::NotApplicable,
            requested_target_arm_sku: None,
        }
    }

    /// The default requirements, with the burst policy confirmed for `t3.` instances
    /// and capacity fit accepted for `z1d.` instances.
    pub fn defaults_for(instance_type: &str) -> (r: Ec2VmRequirements)
        ensures
            r.burst_policy == (if spec_has_prefix(instance_type.spec_bytes(), burstable_prefix()) {
                VmBurstPolicy::ConfirmedBurstCompatible
            } else {
                VmBurstPolicy::NotApplicable
            }),
            r.high_frequency_requirement == (if spec_has_prefix(instance_type.spec_bytes(), high_frequency_prefix()) {
                VmHighFrequencyRequirement::CapacityFitAccepted
            } else {
                VmHighFrequencyRequirement::NotApplicable
            }),
            r.instance_store_use == VmInstanceStoreUse::NotUsed,
            r.required_local_temp_disk_gb is None,
            r.ephemeral_data_loss_acceptable is None,
            r.requested_target_arm_sku is None,
    {
        let bytes = instance_type.as_bytes();
        let t3: [u8; 3] = [0x74, 0x33, 0x2e];
        let z1d: [u8; 4] = [0x7a, 0x31, 0x64, 0x2e];
        assert(t3@ =~= burstable_prefix());
        assert(z1d@ =~= high_frequency_prefix());
        let mut r = Ec2VmRequirements::default();
        if has_prefix(bytes, t3.as_slice()) {
            r.burst_policy = VmBurstPolicy::ConfirmedBurstCompatible;
        }
        if has_prefix(bytes, z1d.as_slice()) {
            r.high_frequency_requirement = VmHighFrequencyRequirement::CapacityFitAccepted;
        }
        r
    }
}

impl Default for Ec2VmRequirements {
    fn default() -> (r: Ec2VmRequirements)
        ensures
            r == Ec2VmRequirements::spec_default(),
    {
        Ec2VmRequirements {
            burst_policy: VmBurstPolicy::NotApplicable,
            instance_store_use: VmInstanceStoreUse::NotUsed,
            required_local_temp_disk_gb: None,
            ephemeral_data_loss_acceptable: None,
            high_frequency_requirement: VmHighFrequencyRequirement::NotApplicable,
            requested_target_arm_sku: None,
        }
    }
}

#[derive(Clone, Copy, Debug, PartialEq, Eq, Structural)]
pub enum VmBurstPolicy {
    ConfirmedBurstCompatible,
    RequiresSustainedCpu,
    Unknown,
    NotApplicable,
}

#[derive(Clone, Copy, Debug, PartialEq, Eq, Structural)]
pub enum VmInstanceStoreUse {
    Unknown,
    NotUsed,
    Used,
}

#[derive(Clone, Copy, Debug, PartialEq, Eq, Structural)]
pub enum VmHighFrequencyRequirement {
    Required,
    Unknown,
    CapacityFitAccepted,
    NotApplicable,
}

/// A persistent EBS volume on a VM workload, mapped one-to-one to a target managed disk.
#[derive(Clone, Debug)]
pub struct VmVolume {
    pub id: u128,
    pub label: String,
    pub aws_volume_id: Option<String>,
    pub volume_type: EbsVolumeType,
    pub role: VmDiskRole,
    pub capacity_gb: DecimalValue,
    pub provisioned_iops: Option<u64>,
    pub throughput_mibps: Option<DecimalValue>,
}

#[derive(Clone, Copy, Debug, PartialEq, Eq, Structural)]
pub enum VmDiskRole {
    Os,
    Data,
    Unknown,
}

#[derive(Clone, Debug)]
pub struct EbsVolume {
    pub id: u128,
    pub label: String,
    pub aws_volume_id: Option<String>,
    pub volume_type: EbsVolumeType,
    pub capacity_gb: DecimalValue,
    pub provisioned_iops: Option<u64>,
    pub throughput_mibps: Option<DecimalValue>,
}

#[derive(Clone, Copy, Debug, PartialEq, Eq, Structural)]
pub enum EbsVolumeType {
    Gp3,
    Io2,
    Ephemeral,
}

#[derive(Clone, Debug)]
pub struct RdsResource {
    pub shared: SharedResource,
    pub sql: SqlWorkload,
    pub instance_type: String,
    pub deployment: RdsDeployment,
    pub commercial_term: String,
    pub storage_class: String,
    pub source_max_iops: u64,
}

#[derive(Clone, Copy, Debug, PartialEq, Eq, Structural)]
pub enum RdsDeployment {
    SingleAz,
    MultiAz,
}

#[derive(Clone, Debug)]
pub struct OnPremResource {
    pub shared: SharedResource,
    pub sql: SqlWorkload,
    pub source_vcpu: u32,
    pub licensable_cores: u32,
    pub source_max_iops: u64,
    pub hardware_capex_usd: DecimalValue,
    pub depreciation_years: DecimalValue,
    pub average_power_kw_override: Option<DecimalValue>,
}

fn duplicate_opt_text(text: &Option<String>) -> (r: Option<String>)
    ensures
        r == *text,
{
    match text {
        Some(s) => Some(s.clone()),
        None => None,
    }
}

impl SharedResource {
    /// A field-for-field copy.
    pub fn duplicate(&self) -> (r: SharedResource)
        ensures
            r == *self,
    {
        SharedResource {
            id: self.id,
            workload_name: self.workload_name.clone(),
            server_name: duplicate_opt_text(&self.server_name),
            quantity: self.quantity,
            source_ram_gb_per_instance: self.source_ram_gb_per_instance,
            annual_hours_per_instance: self.annual_hours_per_instance,
        }
    }
}

impl SqlWorkload {
    /// A field-for-field copy.
    pub fn duplicate(&self) -> (r: SqlWorkload)
        ensures
            r == *self,
    {
        SqlWorkload {
            sql_edition: self.sql_edition,
            license_basis: self.license_basis,
            sql_data_gb_per_instance: self.sql_data_gb_per_instance,
            mi_purchase_option: self.mi_purchase_option,
        }
    }
}

impl EbsVolume {
    /// A field-for-field copy.
    pub fn duplicate(&self) -> (r: EbsVolume)
        ensures
            r == *self,
    {
        EbsVolume {
            id: self.id,
            label: self.label.clone(),
            aws_volume_id: duplicate_opt_text(&self.aws_volume_id),
            volume_type: self.volume_type,
            capacity_gb: self.capacity_gb,
            provisioned_iops: self.provisioned_iops,
            throughput_mibps: self.throughput_mibps,
        }
    }
}

impl VmVolume {
    /// A field-for-field copy.
    pub fn duplicate(&self) -> (r: VmVolume)
        ensures
            r == *self,
    {
        VmVolume {
            id: self.id,
            label: self.label.clone(),
            aws_volume_id: duplicate_opt_text(&self.aws_volume_id),
            volume_type: self.volume_type,
            role: self.role,
            capacity_gb: self.capacity_gb,
            provisioned_iops: self.provisioned_iops,
            throughput_mibps: self.throughput_mibps,
        }
    }
}

impl Ec2VmRequirements {
    /// A field-for-field copy.
    pub fn duplicate(&self) -> (r: Ec2VmRequirements)
        ensures
            r == *self,
    {
        Ec2VmRequirements {
            burst_policy: self.burst_policy,
            instance_store_use: self.instance_store_use,
            required_local_temp_disk_gb: self.required_local_temp_disk_gb,
            ephemeral_data_loss_acceptable: self.ephemeral_data_loss_acceptable,
            high_frequency_requirement: self.high_frequency_requirement,
            requested_target_arm_sku: duplicate_opt_text(&self.requested_target_arm_sku),
        }
    }
}

fn duplicate_ebs_volumes(volumes: &Vec<EbsVolume>) -> (r: Vec<EbsVolume>)
    ensures
        r@ == volumes@,
{
    let mut out: Vec<EbsVolume> = Vec::new();
    let mut i: usize = 0;
    while i < volumes.len()
        invariant
            i <= volumes.len(),
            out@ == volumes@.take(i as int),
        decreases volumes.len() - i,
    {
        out.push(volumes[i].duplicate());
        i = i + 1;
        assert(out@ =~= volumes@.take(i as int));
    }
    assert(volumes@.take(i as int) =~= volumes@);
    out
}

fn duplicate_vm_volumes(volumes: &Vec<VmVolume>) -> (r: Vec<VmVolume>)
    ensures
        r@ == volumes@,
{
    let mut out: Vec<VmVolume> = Vec::new();
    let mut i: usize = 0;
    while i < volumes.len()
        invariant
            i <= volumes.len(),
            out@ == volumes@.take(i as int),
        decreases volumes.len() - i,
    {
        out.push(volumes[i].duplicate());
        i = i + 1;
        assert(out@ =~= volumes@.take(i as int));
    }
    assert(volumes@.take(i as int) =~= volumes@);
    out
}

/// Two resources hold the same values, their volume lists compared element by element.
pub open spec fn same_resource(a: Resource, b: Resource) -> bool {
    match (a, b) {
        (Resource::Ec2(x), Resource::Ec2(y)) => x.shared == y.shared && x.sql == y.sql && x.instance_type
            == y.instance_type && x.volumes@ == y.volumes@,
        (Resource::Ec2Vm(x), Resource::Ec2Vm(y)) => x.shared == y.shared && x.instance_type == y.instance_type
            && x.vm_purchase_option == y.vm_purchase_option && x.requirements == y.requirements && x.volumes@
            == y.volumes@,
        (Resource::Rds(x), Resource::Rds(y)) => x == y,
        (Resource::OnPrem(x), Resource::OnPrem(y)) => x == y,
        _ => false,
    }
}

/// Two resource lists hold the same resources in the same order.
pub open spec fn same_resources(a: Seq<Resource>, b: Seq<Resource>) -> bool {
    a.len() == b.len() && forall|i: int| 0 <= i < a.len() ==> same_resource(#[trigger] a[i], b[i])
}

impl Resource {
    /// A field-for-field copy.
    pub fn duplicate(&self) -> (r: Resource)
        ensures
            same_resource(r, *self),
    {
        match self {
            Resource::Ec2(x) => Resource::Ec2(Ec2Resource {
                shared: x.shared.duplicate(),
                sql: x.sql.duplicate(),
                instance_type: x.instance_type.clone(),
                volumes: duplicate_ebs_volumes(&x.volumes),
            }),
            Resource::Ec2Vm(x) => Resource::Ec2Vm(Ec2VmResource {
                shared: x.shared.duplicate(),
                instance_type: x.instance_type.clone(),
                vm_purchase_option: x.vm_purchase_option,
                requirements: x.requirements.duplicate(),
                volumes: duplicate_vm_volumes(&x.volumes),
            }),
            Resource::Rds(x) => Resource::Rds(RdsResource {
                shared: x.shared.duplicate(),
                sql: x.sql.duplicate(),
                instance_type: x.instance_type.clone(),
                deployment: x.deployment,
                commercial_term: x.commercial_term.clone(),
                storage_class: x.storage_class.clone(),
                source_max_iops: x.source_max_iops,
            }),
            Resource::OnPrem(x) => Resource::OnPrem(OnPremResource {
                shared: x.shared.duplicate(),
                sql: x.sql.duplicate(),
                source_vcpu: x.source_vcpu,
                licensable_cores: x.licensable_cores,
                source_max_iops: x.source_max_iops,
                hardware_capex_usd: x.hardware_capex_usd,
                depreciation_years: x.depreciation_years,
                average_power_kw_override: x.average_power_kw_override,
            }),
        }
    }
}

/// A copy of a resource list, element for element.
pub fn duplicate_resources(resources: &Vec<Resource>) -> (r: Vec<Resource>)
    ensures
        same_resources(r@, resources@),
{
    let mut out: Vec<Resource> = Vec::new();
    let mut i: usize = 0;
    while i < resources.len()
        invariant
            i <= resources.len(),
            out@.len() == i,
            forall|j: int| 0 <= j < i ==> same_resource(#[trigger] out@[j], resources@[j]),
        decreases resources.len() - i,
    {
        out.push(resources[i].duplicate());
        i = i + 1;
    }
    out
}

} // verus!
