use vstd::prelude::*;

use crate::decimal::{
    add_of, add_opt, decimal_add, decimal_div, decimal_mul, decimal_sub, div_of, div_opt, exact_ratio, int_units,
    lemma_integer_representable, lemma_unit_value, lemma_zero_representable, max_mantissa, max_of, max_opt, max_units, mul_of, mul_opt, representable, sub_of,
    sub_opt, DecimalValue,
};
use vstd::arithmetic::div_mod::{lemma_div_multiples_vanish, lemma_fundamental_div_mod, lemma_mod_multiples_basic};
use crate::project::ProjectSettings;
use crate::resource::{
    EbsVolume, EbsVolumeType, Ec2Resource, Ec2VmResource, LicenseBasis, OnPremResource, RdsResource, SqlEdition,
    VmVolume,
};

verus! {

/// Annual source costs. Every amount is in USD per year.
#[derive(Clone, Copy, Debug, PartialEq)]
pub struct SourceCostBreakdown {
    pub compute_gross: DecimalValue,
    pub compute_net: DecimalValue,
    pub license_gross: DecimalValue,
    pub license_net: DecimalValue,
    pub storage_gross: DecimalValue,
    pub storage_net: DecimalValue,
    pub hardware_annual: DecimalValue,
    pub electricity_annual: DecimalValue,
    pub total: DecimalValue,
}

#[derive(Clone, Copy, Debug, PartialEq)]
pub struct OnPremExplanation {
    pub estimated_power_kw: DecimalValue,
    pub effective_power_kw: DecimalValue,
    pub power_override_applied: bool,
    pub annual_kwh: DecimalValue,
    pub electricity_monthly_average: DecimalValue,
    pub license_pack_count: u32,
}

#[derive(Clone, Copy, Debug, PartialEq)]
pub struct OnPremCostResult {
    pub costs: SourceCostBreakdown,
    pub explanation: OnPremExplanation,
}

/// Annual Azure costs before the parity adjustment.
#[derive(Clone, Copy, Debug, PartialEq)]
pub struct AzureCostBreakdown {
    pub compute_gross: DecimalValue,
    pub additional_ram_gb: DecimalValue,
    pub additional_ram_gross: DecimalValue,
    pub compute_plus_ram_net: DecimalValue,
    pub license_gross: DecimalValue,
    pub license_net: DecimalValue,
    pub storage_gross: DecimalValue,
    pub storage_net: DecimalValue,
    pub total_before_parity: DecimalValue,
}

#[derive(Clone, Copy, Debug, PartialEq)]
pub struct SavingsBreakdown {
    pub compute_savings: DecimalValue,
    pub license_savings: DecimalValue,
    pub storage_savings: DecimalValue,
    pub total_savings: DecimalValue,
    pub required_adjustment: DecimalValue,
    pub selected_adjustment: DecimalValue,
    pub azure_after_selected_parity: DecimalValue,
    pub difference: DecimalValue,
}

#[derive(Clone, Copy, Debug)]
pub struct Ec2Rate {
    pub source_vcpu: u32,
    pub catalog_memory_gb: DecimalValue,
    pub compute_hourly: DecimalValue,
    pub standard_license_hourly: Option<DecimalValue>,
    pub enterprise_license_hourly: Option<DecimalValue>,
}

#[derive(Clone, Debug)]
pub struct EbsRate {
    pub volume_type: EbsVolumeType,
    pub capacity_monthly_per_gb: DecimalValue,
    pub included_iops: u64,
    pub iops_monthly_per_unit: Option<DecimalValue>,
    pub iops_tiers: Vec<IopsPriceTier>,
    pub included_throughput_mibps: DecimalValue,
    pub throughput_monthly_per_mibps: Option<DecimalValue>,
}

/// One tier of a tiered IOPS price: the IOPS up to `up_to_inclusive` (no bound on
/// the last tier) cost `monthly_per_iops` each.
#[derive(Clone, Copy, Debug)]
pub struct IopsPriceTier {
    pub up_to_inclusive: Option<u64>,
    pub monthly_per_iops: DecimalValue,
}

#[derive(Clone, Copy, Debug)]
pub struct RdsRate {
    pub source_vcpu: u32,
    pub catalog_memory_gb: DecimalValue,
    pub effective_compute_hourly: DecimalValue,
    pub storage_monthly_per_gb: DecimalValue,
    pub standard_license_core_hourly: DecimalValue,
    pub enterprise_license_core_hourly: DecimalValue,
}

#[derive(Clone, Copy, Debug)]
pub struct AzureRate {
    pub compute_hourly: DecimalValue,
    pub license_hourly: DecimalValue,
    pub storage_monthly_per_gb: DecimalValue,
    pub additional_memory_per_gb_hourly: DecimalValue,
}

#[derive(Clone, Copy, Debug)]
pub struct AzureManagedDiskRateSet {
    pub capacity_monthly: DecimalValue,
    pub additional_iops_monthly_per_unit: Option<DecimalValue>,
    pub additional_throughput_monthly_per_mbps: Option<DecimalValue>,
}

/// The managed disk chosen for a VM: a fixed performance tier, or a capacity with
/// the extra IOPS and throughput that are billed on top of it.
#[derive(Clone, Debug)]
pub struct SelectedManagedDisk {
    pub tier_key: Option<String>,
    pub capacity_gb: DecimalValue,
    pub billed_additional_iops: u64,
    pub billed_additional_throughput_mbps: DecimalValue,
}

#[derive(Clone, Copy, Debug, PartialEq, Eq, Structural)]
pub enum CostError {
    MissingSourceLicenseRate,
    MissingEbsRate(EbsVolumeType),
    MissingProvisionedIops,
    InvalidIopsTiers,
    MissingAzureManagedDiskRate,
    InvalidAzureVmRateComponents,
    MissingOnPremLicenseSettings,
    MissingElectricityRate,
    NegativeRate,
}

impl CostError {
    /// The error's message as text.
    pub open spec fn spec_message(&self) -> Seq<char> {
        match self {
            CostError::MissingSourceLicenseRate => "a required source SQL license rate is unavailable"@,
            CostError::MissingEbsRate(EbsVolumeType::Gp3) => "a required EBS rate is unavailable for Gp3"@,
            CostError::MissingEbsRate(EbsVolumeType::Io2) => "a required EBS rate is unavailable for Io2"@,
            CostError::MissingEbsRate(EbsVolumeType::Ephemeral) => "a required EBS rate is unavailable for Ephemeral"@,
            CostError::MissingProvisionedIops => "persistent EBS volumes require an explicit provisioned IOPS value"@,
            CostError::InvalidIopsTiers => "the EBS IOPS tier schedule is invalid or incomplete"@,
            CostError::MissingAzureManagedDiskRate => "a required Azure managed-disk price dimension is unavailable"@,
            CostError::InvalidAzureVmRateComponents => "the Azure VM license rate exceeds its total hourly rate"@,
            CostError::MissingOnPremLicenseSettings => "on-premises License + SA settings are incomplete"@,
            CostError::MissingElectricityRate => "on-premises electricity settings are incomplete"@,
            CostError::NegativeRate => "a price rate must not be negative"@,
        }
    }

    /// The error's message.
    pub fn message(&self) -> (r: &'static str)
        ensures
            r@ == self.spec_message(),
    {
        match self {
            CostError::MissingSourceLicenseRate => "a required source SQL license rate is unavailable",
            CostError::MissingEbsRate(EbsVolumeType::Gp3) => "a required EBS rate is unavailable for Gp3",
            CostError::MissingEbsRate(EbsVolumeType::Io2) => "a required EBS rate is unavailable for Io2",
            CostError::MissingEbsRate(EbsVolumeType::Ephemeral) => "a required EBS rate is unavailable for Ephemeral",
            CostError::MissingProvisionedIops => "persistent EBS volumes require an explicit provisioned IOPS value",
            CostError::InvalidIopsTiers => "the EBS IOPS tier schedule is invalid or incomplete",
            CostError::MissingAzureManagedDiskRate => "a required Azure managed-disk price dimension is unavailable",
            CostError::InvalidAzureVmRateComponents => "the Azure VM license rate exceeds its total hourly rate",
            CostError::MissingOnPremLicenseSettings => "on-premises License + SA settings are incomplete",
            CostError::MissingElectricityRate => "on-premises electricity settings are incomplete",
            CostError::NegativeRate => "a price rate must not be negative",
        }
    }
}

/// The result of a calculation that can fail with an error, and `None` where
/// an intermediate amount is beyond what the decimal type holds (the
/// calculation cannot be carried out).
pub type Outcome<T> = Option<Result<T, CostError>>;

pub const AZURE_MI_STORAGE_UNIT_GB: u32 = 32;

// ---------------------------------------------------------------------------
// The formulas.
// ---------------------------------------------------------------------------

pub open spec fn dec(v: int) -> DecimalValue {
    DecimalValue::integer_value(v)
}

pub open spec fn negative(v: DecimalValue) -> bool {
    v.units() < 0
}

/// `gross * (1 - discount)`.
pub open spec fn discounted(gross: Option<DecimalValue>, discount: DecimalValue) -> Option<DecimalValue> {
    mul_of(gross, decimal_sub(dec(1), discount))
}

/// `a * b * c`, left to right.
pub open spec fn mul3(a: Option<DecimalValue>, b: Option<DecimalValue>, c: Option<DecimalValue>) -> Option<DecimalValue> {
    mul_of(mul_of(a, b), c)
}

/// The source breakdown; the total is compute, license and storage net plus electricity.
pub open spec fn source_costs_of(
    compute_gross: Option<DecimalValue>,
    compute_net: Option<DecimalValue>,
    license_gross: Option<DecimalValue>,
    license_net: Option<DecimalValue>,
    storage_gross: Option<DecimalValue>,
    storage_net: Option<DecimalValue>,
    hardware_annual: Option<DecimalValue>,
    electricity_annual: Option<DecimalValue>,
) -> Option<SourceCostBreakdown> {
    let total = add_of(add_of(add_of(compute_net, license_net), storage_net), electricity_annual);
    if compute_gross is Some && license_gross is Some && storage_gross is Some && hardware_annual is Some
        && total is Some {
        Some(
            SourceCostBreakdown {
                compute_gross: compute_gross.unwrap(),
                compute_net: compute_net.unwrap(),
                license_gross: license_gross.unwrap(),
                license_net: license_net.unwrap(),
                storage_gross: storage_gross.unwrap(),
                storage_net: storage_net.unwrap(),
                hardware_annual: hardware_annual.unwrap(),
                electricity_annual: electricity_annual.unwrap(),
                total: total.unwrap(),
            },
        )
    } else {
        None
    }
}

/// Prices IOPS tier by tier, from tier `k` on, with `remaining` IOPS left above
/// `previous` and `total` charged so far.
pub open spec fn tiered_from(
    tiers: Seq<IopsPriceTier>,
    k: int,
    previous: u64,
    remaining: u64,
    total: DecimalValue,
) -> Outcome<DecimalValue>
    decreases tiers.len() - k,
{
    if k < 0 || k >= tiers.len() {
        Some(Err(CostError::InvalidIopsTiers))
    } else {
        let tier = tiers[k];
        if negative(tier.monthly_per_iops) {
            Some(Err(CostError::NegativeRate))
        } else {
            let units: Result<u64, CostError> = match tier.up_to_inclusive {
                Some(limit) => if limit > previous {
                    Ok(if remaining <= limit - previous { remaining } else { (limit - previous) as u64 })
                } else {
                    Err(CostError::InvalidIopsTiers)
                },
                None => Ok(remaining),
            };
            match units {
                Err(e) => Some(Err(e)),
                Ok(units) => match add_of(Some(total), decimal_mul(dec(units as int), tier.monthly_per_iops)) {
                    None => None,
                    Some(new_total) => {
                        let rest = (remaining - units) as u64;
                        if rest == 0 {
                            Some(Ok(new_total))
                        } else {
                            match tier.up_to_inclusive {
                                Some(limit) => tiered_from(tiers, k + 1, limit, rest, new_total),
                                None => Some(Err(CostError::InvalidIopsTiers)),
                            }
                        }
                    },
                },
            }
        }
    }
}

/// The monthly price of `iops` billable IOPS under a tier schedule.
pub open spec fn spec_tiered_iops_cost(iops: u64, tiers: Seq<IopsPriceTier>) -> Outcome<DecimalValue> {
    if iops == 0 {
        Some(Ok(dec(0)))
    } else {
        tiered_from(tiers, 0, 0, iops, dec(0))
    }
}

/// A price computed from a rate that must not be negative.
pub open spec fn priced(rate: DecimalValue, amount: Option<DecimalValue>) -> Outcome<DecimalValue> {
    if negative(rate) {
        Some(Err(CostError::NegativeRate))
    } else {
        match amount {
            Some(v) => Some(Ok(v)),
            None => None,
        }
    }
}

/// The monthly price of a volume: capacity, IOPS above the included IOPS, and
/// throughput above the included throughput.
pub open spec fn spec_volume_monthly(
    volume_type: EbsVolumeType,
    capacity_gb: DecimalValue,
    provisioned_iops: Option<u64>,
    throughput_mibps: Option<DecimalValue>,
    rate: EbsRate,
) -> Outcome<DecimalValue> {
    if volume_type == EbsVolumeType::Ephemeral {
        Some(Ok(dec(0)))
    } else if negative(rate.capacity_monthly_per_gb) {
        Some(Err(CostError::NegativeRate))
    } else {
        match provisioned_iops {
            None => Some(Err(CostError::MissingProvisionedIops)),
            Some(iops) => match decimal_mul(capacity_gb, rate.capacity_monthly_per_gb) {
                None => None,
                Some(capacity) => {
                    let billable = if iops >= rate.included_iops { (iops - rate.included_iops) as u64 } else { 0u64 };
                    let iops_cost: Outcome<DecimalValue> = if rate.volume_type == EbsVolumeType::Io2 {
                        spec_tiered_iops_cost(billable, rate.iops_tiers@)
                    } else {
                        match rate.iops_monthly_per_unit {
                            Some(iops_rate) => priced(iops_rate, decimal_mul(dec(billable as int), iops_rate)),
                            None => if billable == 0 {
                                Some(Ok(dec(0)))
                            } else {
                                Some(Err(CostError::MissingEbsRate(rate.volume_type)))
                            },
                        }
                    };
                    match iops_cost {
                        None => None,
                        Some(Err(e)) => Some(Err(e)),
                        Some(Ok(iops_amount)) => {
                            let throughput = match throughput_mibps {
                                None => Some(dec(0)),
                                Some(t) => max_of(decimal_sub(t, rate.included_throughput_mibps), Some(dec(0))),
                            };
                            match throughput {
                                None => None,
                                Some(tp) => {
                                    let throughput_cost: Outcome<DecimalValue> = match rate.throughput_monthly_per_mibps {
                                        Some(throughput_rate) => priced(throughput_rate, decimal_mul(tp, throughput_rate)),
                                        None => if rate.volume_type == EbsVolumeType::Io2 || tp.units() == 0 {
                                            Some(Ok(dec(0)))
                                        } else {
                                            Some(Err(CostError::MissingEbsRate(rate.volume_type)))
                                        },
                                    };
                                    match throughput_cost {
                                        None => None,
                                        Some(Err(e)) => Some(Err(e)),
                                        Some(Ok(tc)) => match add_of(add_of(Some(capacity), Some(iops_amount)), Some(tc)) {
                                            Some(total) => Some(Ok(total)),
                                            None => None,
                                        },
                                    }
                                },
                            }
                        },
                    }
                },
            },
        }
    }
}

/// The index of the first rate for the volume type.
pub open spec fn first_rate_index(rates: Seq<EbsRate>, volume_type: EbsVolumeType) -> Option<int>
    decreases rates.len(),
{
    if rates.len() == 0 {
        None
    } else {
        match first_rate_index(rates.drop_last(), volume_type) {
            Some(i) => Some(i),
            None => if rates.last().volume_type == volume_type {
                Some(rates.len() - 1)
            } else {
                None
            },
        }
    }
}

/// The monthly price of all persistent EBS volumes, summed in order; ephemeral
/// volumes cost nothing.
pub open spec fn ebs_storage_monthly(volumes: Seq<EbsVolume>, rates: Seq<EbsRate>) -> Outcome<DecimalValue>
    decreases volumes.len(),
{
    if volumes.len() == 0 {
        Some(Ok(dec(0)))
    } else {
        match ebs_storage_monthly(volumes.drop_last(), rates) {
            None => None,
            Some(Err(e)) => Some(Err(e)),
            Some(Ok(total)) => {
                let v = volumes.last();
                if v.volume_type == EbsVolumeType::Ephemeral {
                    Some(Ok(total))
                } else {
                    match first_rate_index(rates, v.volume_type) {
                        None => Some(Err(CostError::MissingEbsRate(v.volume_type))),
                        Some(k) => match spec_volume_monthly(
                            v.volume_type,
                            v.capacity_gb,
                            v.provisioned_iops,
                            v.throughput_mibps,
                            rates[k],
                        ) {
                            None => None,
                            Some(Err(e)) => Some(Err(e)),
                            Some(Ok(m)) => match decimal_add(total, m) {
                                Some(sum) => Some(Ok(sum)),
                                None => None,
                            },
                        },
                    }
                }
            },
        }
    }
}

/// As `ebs_storage_monthly`, for the volumes of a VM.
pub open spec fn vm_storage_monthly(volumes: Seq<VmVolume>, rates: Seq<EbsRate>) -> Outcome<DecimalValue>
    decreases volumes.len(),
{
    if volumes.len() == 0 {
        Some(Ok(dec(0)))
    } else {
        match vm_storage_monthly(volumes.drop_last(), rates) {
            None => None,
            Some(Err(e)) => Some(Err(e)),
            Some(Ok(total)) => {
                let v = volumes.last();
                if v.volume_type == EbsVolumeType::Ephemeral {
                    Some(Ok(total))
                } else {
                    match first_rate_index(rates, v.volume_type) {
                        None => Some(Err(CostError::MissingEbsRate(v.volume_type))),
                        Some(k) => match spec_volume_monthly(
                            v.volume_type,
                            v.capacity_gb,
                            v.provisioned_iops,
                            v.throughput_mibps,
                            rates[k],
                        ) {
                            None => None,
                            Some(Err(e)) => Some(Err(e)),
                            Some(Ok(m)) => match decimal_add(total, m) {
                                Some(sum) => Some(Ok(sum)),
                                None => None,
                            },
                        },
                    }
                }
            },
        }
    }
}

/// The hourly SQL license rate of an EC2 source: nothing for BYOL, else the
/// edition's rate, which must be known and not negative.
pub open spec fn spec_source_license_hourly(
    basis: LicenseBasis,
    edition: SqlEdition,
    standard: Option<DecimalValue>,
    enterprise: Option<DecimalValue>,
) -> Result<DecimalValue, CostError> {
    if basis == LicenseBasis::Byol {
        Ok(dec(0))
    } else {
        let rate = match edition {
            SqlEdition::Standard => standard,
            SqlEdition::Enterprise => enterprise,
        };
        match rate {
            None => Err(CostError::MissingSourceLicenseRate),
            Some(r) => if negative(r) {
                Err(CostError::NegativeRate)
            } else {
                Ok(r)
            },
        }
    }
}

/// Storage priced monthly, then per year and per instance, with the discount.
pub open spec fn annual_storage(
    quantity: u32,
    monthly: DecimalValue,
    discount: DecimalValue,
) -> (Option<DecimalValue>, Option<DecimalValue>) {
    let gross = mul3(Some(dec(quantity as int)), Some(dec(12)), Some(monthly));
    (gross, discounted(gross, discount))
}

/// The annual costs of an EC2 SQL Server source: compute and SQL license per
/// instance-hour, persistent EBS storage per month, each with its discount.
pub open spec fn spec_ec2_source(
    resource: Ec2Resource,
    rate: Ec2Rate,
    ebs_rates: Seq<EbsRate>,
    settings: ProjectSettings,
) -> Outcome<SourceCostBreakdown> {
    if negative(rate.compute_hourly) {
        Some(Err(CostError::NegativeRate))
    } else {
        let quantity = Some(dec(resource.shared.quantity as int));
        let hours = Some(resource.shared.annual_hours_per_instance);
        let compute_gross = mul3(quantity, hours, Some(rate.compute_hourly));
        let compute_net = discounted(compute_gross, settings.source_compute_discount);
        if compute_net is None {
            None
        } else {
            match spec_source_license_hourly(
                resource.sql.license_basis,
                resource.sql.sql_edition,
                rate.standard_license_hourly,
                rate.enterprise_license_hourly,
            ) {
                Err(e) => Some(Err(e)),
                Ok(license_hourly) => {
                    let license_gross = mul3(quantity, hours, Some(license_hourly));
                    let license_net = discounted(license_gross, settings.source_license_discount);
                    if license_net is None {
                        None
                    } else {
                        match ebs_storage_monthly(resource.volumes@, ebs_rates) {
                            None => None,
                            Some(Err(e)) => Some(Err(e)),
                            Some(Ok(monthly)) => {
                                let storage = annual_storage(resource.shared.quantity, monthly, settings.source_storage_discount);
                                match source_costs_of(
                                    compute_gross,
                                    compute_net,
                                    license_gross,
                                    license_net,
                                    storage.0,
                                    storage.1,
                                    Some(dec(0)),
                                    Some(dec(0)),
                                ) {
                                    Some(b) => Some(Ok(b)),
                                    None => None,
                                }
                            },
                        }
                    }
                },
            }
        }
    }
}

/// The annual costs of an EC2 VM source: compute and storage, no SQL license.
pub open spec fn spec_ec2_vm_source(
    resource: Ec2VmResource,
    rate: Ec2Rate,
    ebs_rates: Seq<EbsRate>,
    settings: ProjectSettings,
) -> Outcome<SourceCostBreakdown> {
    if negative(rate.compute_hourly) {
        Some(Err(CostError::NegativeRate))
    } else {
        let quantity = Some(dec(resource.shared.quantity as int));
        let hours = Some(resource.shared.annual_hours_per_instance);
        let compute_gross = mul3(quantity, hours, Some(rate.compute_hourly));
        let compute_net = discounted(compute_gross, settings.source_compute_discount);
        if compute_net is None {
            None
        } else {
            match vm_storage_monthly(resource.volumes@, ebs_rates) {
                None => None,
                Some(Err(e)) => Some(Err(e)),
                Some(Ok(monthly)) => {
                    let storage = annual_storage(resource.shared.quantity, monthly, settings.source_storage_discount);
                    match source_costs_of(
                        compute_gross,
                        compute_net,
                        Some(dec(0)),
                        Some(dec(0)),
                        storage.0,
                        storage.1,
                        Some(dec(0)),
                        Some(dec(0)),
                    ) {
                        Some(b) => Some(Ok(b)),
                        None => None,
                    }
                },
            }
        }
    }
}

/// The largest provisioned IOPS of the persistent volumes so far (0 when there
/// is none); every persistent volume must state its IOPS.
pub open spec fn spec_source_max_iops(volumes: Seq<EbsVolume>) -> Result<u64, CostError>
    decreases volumes.len(),
{
    if volumes.len() == 0 {
        Ok(0)
    } else {
        match spec_source_max_iops(volumes.drop_last()) {
            Err(e) => Err(e),
            Ok(maximum) => {
                let v = volumes.last();
                if v.volume_type == EbsVolumeType::Ephemeral {
                    Ok(maximum)
                } else {
                    match v.provisioned_iops {
                        None => Err(CostError::MissingProvisionedIops),
                        Some(iops) => Ok(if maximum >= iops { maximum } else { iops }),
                    }
                }
            },
        }
    }
}

/// The monthly price of a managed disk: the fixed price of its tier, or its
/// capacity, extra IOPS and extra throughput at their rates.
pub open spec fn spec_managed_disk_monthly(disk: SelectedManagedDisk, rate: AzureManagedDiskRateSet) -> Outcome<DecimalValue> {
    if negative(rate.capacity_monthly) {
        Some(Err(CostError::NegativeRate))
    } else if disk.tier_key is Some {
        Some(Ok(rate.capacity_monthly))
    } else {
        match (rate.additional_iops_monthly_per_unit, rate.additional_throughput_monthly_per_mbps) {
            (Some(iops_rate), Some(throughput_rate)) => if negative(iops_rate) || negative(throughput_rate) {
                Some(Err(CostError::NegativeRate))
            } else {
                match add_of(
                    add_of(
                        decimal_mul(disk.capacity_gb, rate.capacity_monthly),
                        decimal_mul(dec(disk.billed_additional_iops as int), iops_rate),
                    ),
                    decimal_mul(disk.billed_additional_throughput_mbps, throughput_rate),
                ) {
                    Some(v) => Some(Ok(v)),
                    None => None,
                }
            },
            _ => Some(Err(CostError::MissingAzureManagedDiskRate)),
        }
    }
}

/// The annual costs of an RDS SQL Server source: compute per instance-hour, the
/// SQL license per vCPU-hour (nothing for BYOL), and storage per GB-month.
/// The deployment (single or multi-AZ) does not enter: the rate already prices it.
pub open spec fn spec_rds_source(resource: RdsResource, rate: RdsRate, settings: ProjectSettings) -> Outcome<SourceCostBreakdown> {
    if negative(rate.effective_compute_hourly) || negative(rate.storage_monthly_per_gb) {
        Some(Err(CostError::NegativeRate))
    } else {
        let quantity = Some(dec(resource.shared.quantity as int));
        let hours = Some(resource.shared.annual_hours_per_instance);
        let compute_gross = mul3(quantity, hours, Some(rate.effective_compute_hourly));
        let compute_net = discounted(compute_gross, settings.source_compute_discount);
        let core_rate = match resource.sql.sql_edition {
            SqlEdition::Standard => rate.standard_license_core_hourly,
            SqlEdition::Enterprise => rate.enterprise_license_core_hourly,
        };
        if compute_net is None {
            None
        } else if negative(core_rate) {
            Some(Err(CostError::NegativeRate))
        } else {
            let license_gross = if resource.sql.license_basis == LicenseBasis::Byol {
                Some(dec(0))
            } else {
                mul_of(mul3(quantity, hours, Some(dec(rate.source_vcpu as int))), Some(core_rate))
            };
            let license_net = discounted(license_gross, settings.source_license_discount);
            let storage_gross = mul_of(
                mul3(quantity, Some(resource.sql.sql_data_gb_per_instance), Some(dec(12))),
                Some(rate.storage_monthly_per_gb),
            );
            let storage_net = discounted(storage_gross, settings.source_storage_discount);
            match source_costs_of(
                compute_gross,
                compute_net,
                license_gross,
                license_net,
                storage_gross,
                storage_net,
                Some(dec(0)),
                Some(dec(0)),
            ) {
                Some(b) => Some(Ok(b)),
                None => None,
            }
        }
    }
}

/// Estimated average power draw in kW: 0.1 + 0.0125 per vCPU + 0.000375 per GB of
/// RAM + 0.01 per TiB of SQL data.
pub open spec fn spec_estimated_power_kw(resource: OnPremResource) -> Option<DecimalValue> {
    add_of(
        add_of(
            add_of(
                Some(DecimalValue::literal(100, 3)),
                mul_of(Some(DecimalValue::literal(125, 4)), Some(dec(resource.source_vcpu as int))),
            ),
            mul_of(Some(DecimalValue::literal(375, 6)), Some(resource.shared.source_ram_gb_per_instance)),
        ),
        div_of(
            mul_of(Some(DecimalValue::literal(10, 3)), Some(resource.sql.sql_data_gb_per_instance)),
            Some(dec(1024)),
        ),
    )
}

/// License + SA is bought in two-core packs, for at least four cores.
pub open spec fn spec_license_pack_count(licensable_cores: u32) -> u32 {
    let billable: int = if licensable_cores >= 4 { licensable_cores as int } else { 4 };
    ((billable + 1) / 2) as u32
}

/// The annual costs of an on-premises source: hardware depreciation (never
/// discounted), License + SA packs over the remaining coverage, and electricity;
/// no storage charge.
pub open spec fn spec_on_prem_source(resource: OnPremResource, settings: ProjectSettings) -> Outcome<OnPremCostResult> {
    let license_price = match resource.sql.sql_edition {
        SqlEdition::Standard => settings.standard_license_sa_usd_per_two_core_pack,
        SqlEdition::Enterprise => settings.enterprise_license_sa_usd_per_two_core_pack,
    };
    match (license_price, settings.remaining_coverage_months) {
        (Some(price), Some(months)) => match settings.electricity_rate_usd_per_kwh {
            None => Some(Err(CostError::MissingElectricityRate)),
            Some(electricity_rate) => if negative(price) || negative(electricity_rate) {
                Some(Err(CostError::NegativeRate))
            } else {
                let quantity = Some(dec(resource.shared.quantity as int));
                let hours = Some(resource.shared.annual_hours_per_instance);
                let estimated = spec_estimated_power_kw(resource);
                let effective = match resource.average_power_kw_override {
                    Some(p) => if estimated is Some { Some(p) } else { None },
                    None => estimated,
                };
                let annual_kwh = mul3(quantity, hours, effective);
                let electricity_annual = mul_of(annual_kwh, Some(electricity_rate));
                let hardware_annual = div_of(mul_of(quantity, Some(resource.hardware_capex_usd)), Some(resource.depreciation_years));
                let packs = spec_license_pack_count(resource.licensable_cores);
                let license_gross = div_of(
                    mul_of(mul3(quantity, Some(dec(packs as int)), Some(price)), Some(dec(12))),
                    Some(dec(months as int)),
                );
                let license_net = discounted(license_gross, settings.source_license_discount);
                let costs = source_costs_of(
                    hardware_annual,
                    hardware_annual,
                    license_gross,
                    license_net,
                    Some(dec(0)),
                    Some(dec(0)),
                    hardware_annual,
                    electricity_annual,
                );
                let monthly = div_of(electricity_annual, Some(dec(12)));
                match (costs, monthly) {
                    (Some(c), Some(m)) => Some(
                        Ok(
                            OnPremCostResult {
                                costs: c,
                                explanation: OnPremExplanation {
                                    estimated_power_kw: estimated.unwrap(),
                                    effective_power_kw: effective.unwrap(),
                                    power_override_applied: resource.average_power_kw_override is Some,
                                    annual_kwh: annual_kwh.unwrap(),
                                    electricity_monthly_average: m,
                                    license_pack_count: packs,
                                },
                            },
                        ),
                    ),
                    _ => None,
                }
            },
        },
        _ => Some(Err(CostError::MissingOnPremLicenseSettings)),
    }
}

/// Storage billed beyond the 32 GB that a managed instance includes.
pub open spec fn spec_billable_storage(configured: DecimalValue) -> Option<DecimalValue> {
    max_of(decimal_sub(configured, dec(AZURE_MI_STORAGE_UNIT_GB as int)), Some(dec(0)))
}

/// Storage configured in whole 32 GB units, at least one.
pub open spec fn spec_configured_storage(required: DecimalValue) -> Option<DecimalValue> {
    match decimal_div(required, dec(AZURE_MI_STORAGE_UNIT_GB as int)) {
        Some(units) => mul_of(max_of(Some(units.ceiling()), Some(dec(1))), Some(dec(AZURE_MI_STORAGE_UNIT_GB as int))),
        None => None,
    }
}

pub open spec fn azure_costs_of(
    compute_gross: Option<DecimalValue>,
    additional_ram_gb: Option<DecimalValue>,
    additional_ram_gross: Option<DecimalValue>,
    compute_plus_ram_net: Option<DecimalValue>,
    license_gross: Option<DecimalValue>,
    license_net: Option<DecimalValue>,
    storage_gross: Option<DecimalValue>,
    storage_net: Option<DecimalValue>,
) -> Option<AzureCostBreakdown> {
    let total = add_of(add_of(compute_plus_ram_net, license_net), storage_net);
    if compute_gross is Some && additional_ram_gb is Some && additional_ram_gross is Some && license_gross is Some
        && storage_gross is Some && total is Some {
        Some(
            AzureCostBreakdown {
                compute_gross: compute_gross.unwrap(),
                additional_ram_gb: additional_ram_gb.unwrap(),
                additional_ram_gross: additional_ram_gross.unwrap(),
                compute_plus_ram_net: compute_plus_ram_net.unwrap(),
                license_gross: license_gross.unwrap(),
                license_net: license_net.unwrap(),
                storage_gross: storage_gross.unwrap(),
                storage_net: storage_net.unwrap(),
                total_before_parity: total.unwrap(),
            },
        )
    } else {
        None
    }
}

/// The annual costs of a managed-instance target: compute, the memory beyond
/// what the configuration includes (charged once, before the compute discount),
/// the license, and the storage beyond the included 32 GB.
pub open spec fn spec_azure(
    quantity: u32,
    annual_hours: DecimalValue,
    azure_storage_gb_per_instance: DecimalValue,
    included_memory_gb: DecimalValue,
    selected_memory_gb: DecimalValue,
    rate: AzureRate,
    settings: ProjectSettings,
) -> Outcome<AzureCostBreakdown> {
    if negative(rate.compute_hourly) || negative(rate.license_hourly) || negative(rate.storage_monthly_per_gb)
        || negative(rate.additional_memory_per_gb_hourly) {
        Some(Err(CostError::NegativeRate))
    } else {
        let q = Some(dec(quantity as int));
        let h = Some(annual_hours);
        let compute_gross = mul3(q, h, Some(rate.compute_hourly));
        let additional_ram_gb = max_of(decimal_sub(selected_memory_gb, included_memory_gb), Some(dec(0)));
        let additional_ram_gross = mul_of(mul3(q, h, additional_ram_gb), Some(rate.additional_memory_per_gb_hourly));
        let compute_plus_ram_net = discounted(add_of(compute_gross, additional_ram_gross), settings.azure_compute_discount);
        let license_gross = mul3(q, h, Some(rate.license_hourly));
        let license_net = discounted(license_gross, settings.azure_license_discount);
        let billable = spec_billable_storage(azure_storage_gb_per_instance);
        let storage_gross = mul_of(mul3(q, billable, Some(dec(12))), Some(rate.storage_monthly_per_gb));
        let storage_net = discounted(storage_gross, settings.azure_storage_discount);
        match azure_costs_of(
            compute_gross,
            additional_ram_gb,
            additional_ram_gross,
            compute_plus_ram_net,
            license_gross,
            license_net,
            storage_gross,
            storage_net,
        ) {
            Some(b) => Some(Ok(b)),
            None => None,
        }
    }
}

/// The annual costs of a VM target: the hourly rate split into compute and
/// license (the license may not exceed the total), and managed disks per month.
pub open spec fn spec_azure_vm(
    quantity: u32,
    annual_hours: DecimalValue,
    vm_total_hourly_rate: DecimalValue,
    vm_license_hourly_rate: DecimalValue,
    managed_disk_monthly_per_instance: DecimalValue,
    settings: ProjectSettings,
) -> Outcome<AzureCostBreakdown> {
    if negative(vm_total_hourly_rate) || negative(vm_license_hourly_rate) || negative(managed_disk_monthly_per_instance) {
        Some(Err(CostError::NegativeRate))
    } else if vm_license_hourly_rate.units() > vm_total_hourly_rate.units() {
        Some(Err(CostError::InvalidAzureVmRateComponents))
    } else {
        let q = Some(dec(quantity as int));
        let h = Some(annual_hours);
        let compute_hourly = decimal_sub(vm_total_hourly_rate, vm_license_hourly_rate);
        let compute_gross = mul3(q, h, compute_hourly);
        let compute_net = discounted(compute_gross, settings.azure_compute_discount);
        let license_gross = mul3(q, h, Some(vm_license_hourly_rate));
        let license_net = discounted(license_gross, settings.azure_license_discount);
        let storage_gross = mul3(q, Some(dec(12)), Some(managed_disk_monthly_per_instance));
        let storage_net = discounted(storage_gross, settings.azure_storage_discount);
        match azure_costs_of(
            compute_gross,
            Some(dec(0)),
            Some(dec(0)),
            compute_net,
            license_gross,
            license_net,
            storage_gross,
            storage_net,
        ) {
            Some(b) => Some(Ok(b)),
            None => None,
        }
    }
}

/// Savings per category, and the parity adjustment: the discount on Azure that
/// would make it cost what the source costs (none when Azure costs nothing).
pub open spec fn spec_savings(
    source: SourceCostBreakdown,
    azure: AzureCostBreakdown,
    selected_adjustment: DecimalValue,
) -> Option<SavingsBreakdown> {
    let required = if azure.total_before_parity.units() == 0 {
        Some(dec(0))
    } else {
        sub_of(Some(dec(1)), decimal_div(source.total, azure.total_before_parity))
    };
    let after = mul_of(Some(azure.total_before_parity), decimal_sub(dec(1), selected_adjustment));
    let compute = decimal_sub(source.compute_net, azure.compute_plus_ram_net);
    let license = decimal_sub(source.license_net, azure.license_net);
    let storage = decimal_sub(source.storage_net, azure.storage_net);
    let total = decimal_sub(source.total, azure.total_before_parity);
    let difference = sub_of(after, Some(source.total));
    if required is Some && compute is Some && license is Some && storage is Some && total is Some && difference is Some {
        Some(
            SavingsBreakdown {
                compute_savings: compute.unwrap(),
                license_savings: license.unwrap(),
                storage_savings: storage.unwrap(),
                total_savings: total.unwrap(),
                required_adjustment: required.unwrap(),
                selected_adjustment,
                azure_after_selected_parity: after.unwrap(),
                difference: difference.unwrap(),
            },
        )
    } else {
        None
    }
}

// ---------------------------------------------------------------------------
// Helpers.
// ---------------------------------------------------------------------------

fn validate_rate(value: DecimalValue) -> (r: Result<(), CostError>)
    ensures
        r is Err <==> negative(value),
        r is Err ==> r == Err::<(), CostError>(CostError::NegativeRate),
{
    if value.lt(&DecimalValue::zero()) {
        Err(CostError::NegativeRate)
    } else {
        Ok(())
    }
}

fn apply_discount(gross: Option<DecimalValue>, discount: DecimalValue) -> (r: Option<DecimalValue>)
    ensures
        r == discounted(gross, discount),
{
    mul_opt(gross, DecimalValue::one().checked_sub(discount))
}

fn mul3_opt(a: Option<DecimalValue>, b: Option<DecimalValue>, c: Option<DecimalValue>) -> (r: Option<DecimalValue>)
    ensures
        r == mul3(a, b, c),
{
    mul_opt(mul_opt(a, b), c)
}

fn tiered_iops_cost(iops: u64, tiers: &Vec<IopsPriceTier>) -> (r: Outcome<DecimalValue>)
    ensures
        r == spec_tiered_iops_cost(iops, tiers@),
{
    if iops == 0 {
        return Some(Ok(DecimalValue::zero()));
    }
    let mut previous_limit: u64 = 0;
    let mut remaining: u64 = iops;
    let mut total = DecimalValue::zero();
    let mut k: usize = 0;
    while k < tiers.len()
        invariant
            k <= tiers@.len(),
            spec_tiered_iops_cost(iops, tiers@) == tiered_from(tiers@, k as int, previous_limit, remaining, total),
        decreases tiers@.len() - k,
    {
        let tier = tiers[k];
        if tier.monthly_per_iops.lt(&DecimalValue::zero()) {
            return Some(Err(CostError::NegativeRate));
        }
        let units: u64 = match tier.up_to_inclusive {
            Some(limit) => {
                if limit > previous_limit {
                    let span = limit - previous_limit;
                    if remaining <= span {
                        remaining
                    } else {
                        span
                    }
                } else {
                    return Some(Err(CostError::InvalidIopsTiers));
                }
            },
            None => remaining,
        };
        match add_opt(Some(total), DecimalValue::from_u64(units).checked_mul(tier.monthly_per_iops)) {
            None => {
                return None;
            },
            Some(t) => {
                total = t;
            },
        }
        remaining = remaining - units;
        if remaining == 0 {
            return Some(Ok(total));
        }
        match tier.up_to_inclusive {
            Some(limit) => {
                previous_limit = limit;
            },
            None => {
                return Some(Err(CostError::InvalidIopsTiers));
            },
        }
        k = k + 1;
    }
    Some(Err(CostError::InvalidIopsTiers))
}

fn priced_exec(rate: DecimalValue, amount: Option<DecimalValue>) -> (r: Outcome<DecimalValue>)
    ensures
        r == priced(rate, amount),
{
    if rate.lt(&DecimalValue::zero()) {
        return Some(Err(CostError::NegativeRate));
    }
    match amount {
        Some(v) => Some(Ok(v)),
        None => None,
    }
}

fn volume_monthly(
    volume_type: EbsVolumeType,
    capacity_gb: DecimalValue,
    provisioned_iops: Option<u64>,
    throughput_mibps: Option<DecimalValue>,
    rate: &EbsRate,
) -> (r: Outcome<DecimalValue>)
    ensures
        r == spec_volume_monthly(volume_type, capacity_gb, provisioned_iops, throughput_mibps, *rate),
{
    if volume_type == EbsVolumeType::Ephemeral {
        return Some(Ok(DecimalValue::zero()));
    }
    if rate.capacity_monthly_per_gb.lt(&DecimalValue::zero()) {
        return Some(Err(CostError::NegativeRate));
    }
    let iops = match provisioned_iops {
        Some(iops) => iops,
        None => {
            return Some(Err(CostError::MissingProvisionedIops));
        },
    };
    let capacity = match capacity_gb.checked_mul(rate.capacity_monthly_per_gb) {
        Some(c) => c,
        None => {
            return None;
        },
    };
    let billable: u64 = if iops >= rate.included_iops { iops - rate.included_iops } else { 0 };
    let iops_cost = if rate.volume_type == EbsVolumeType::Io2 {
        tiered_iops_cost(billable, &rate.iops_tiers)
    } else {
        match rate.iops_monthly_per_unit {
            Some(iops_rate) => priced_exec(iops_rate, DecimalValue::from_u64(billable).checked_mul(iops_rate)),
            None => if billable == 0 {
                Some(Ok(DecimalValue::zero()))
            } else {
                Some(Err(CostError::MissingEbsRate(rate.volume_type)))
            },
        }
    };
    let iops_amount = match iops_cost {
        None => {
            return None;
        },
        Some(Err(e)) => {
            return Some(Err(e));
        },
        Some(Ok(v)) => v,
    };
    let throughput = match throughput_mibps {
        None => Some(DecimalValue::zero()),
        Some(t) => max_opt(t.checked_sub(rate.included_throughput_mibps), Some(DecimalValue::zero())),
    };
    let tp = match throughput {
        None => {
            return None;
        },
        Some(tp) => tp,
    };
    let throughput_cost = match rate.throughput_monthly_per_mibps {
        Some(throughput_rate) => priced_exec(throughput_rate, tp.checked_mul(throughput_rate)),
        None => if rate.volume_type == EbsVolumeType::Io2 || tp.is_zero() {
            Some(Ok(DecimalValue::zero()))
        } else {
            Some(Err(CostError::MissingEbsRate(rate.volume_type)))
        },
    };
    let tc = match throughput_cost {
        None => {
            return None;
        },
        Some(Err(e)) => {
            return Some(Err(e));
        },
        Some(Ok(v)) => v,
    };
    match add_opt(add_opt(Some(capacity), Some(iops_amount)), Some(tc)) {
        Some(total) => Some(Ok(total)),
        None => None,
    }
}

fn source_costs_opt(
    compute_gross: Option<DecimalValue>,
    compute_net: Option<DecimalValue>,
    license_gross: Option<DecimalValue>,
    license_net: Option<DecimalValue>,
    storage_gross: Option<DecimalValue>,
    storage_net: Option<DecimalValue>,
    hardware_annual: Option<DecimalValue>,
    electricity_annual: Option<DecimalValue>,
) -> (r: Option<SourceCostBreakdown>)
    ensures
        r == source_costs_of(
            compute_gross,
            compute_net,
            license_gross,
            license_net,
            storage_gross,
            storage_net,
            hardware_annual,
            electricity_annual,
        ),
{
    let total = add_opt(add_opt(add_opt(compute_net, license_net), storage_net), electricity_annual);
    match (compute_gross, compute_net, license_gross, license_net, storage_gross, storage_net, hardware_annual) {
        (Some(cg), Some(cn), Some(lg), Some(ln), Some(sg), Some(sn), Some(hw)) => match (electricity_annual, total) {
            (Some(el), Some(t)) => Some(
                SourceCostBreakdown {
                    compute_gross: cg,
                    compute_net: cn,
                    license_gross: lg,
                    license_net: ln,
                    storage_gross: sg,
                    storage_net: sn,
                    hardware_annual: hw,
                    electricity_annual: el,
                    total: t,
                },
            ),
            _ => None,
        },
        _ => None,
    }
}

/// The source breakdown of the given amounts; the total is compute, license and
/// storage net plus electricity.
pub fn source_costs(
    compute_gross: DecimalValue,
    compute_net: DecimalValue,
    license_gross: DecimalValue,
    license_net: DecimalValue,
    storage_gross: DecimalValue,
    storage_net: DecimalValue,
    hardware_annual: DecimalValue,
    electricity_annual: DecimalValue,
) -> (r: SourceCostBreakdown)
    requires
        add_of(add_of(add_of(Some(compute_net), Some(license_net)), Some(storage_net)), Some(electricity_annual)) is Some,
    ensures
        Some(r) == source_costs_of(
            Some(compute_gross),
            Some(compute_net),
            Some(license_gross),
            Some(license_net),
            Some(storage_gross),
            Some(storage_net),
            Some(hardware_annual),
            Some(electricity_annual),
        ),
{
    source_costs_opt(
        Some(compute_gross),
        Some(compute_net),
        Some(license_gross),
        Some(license_net),
        Some(storage_gross),
        Some(storage_net),
        Some(hardware_annual),
        Some(electricity_annual),
    ).unwrap()
}

fn first_rate(rates: &[EbsRate], volume_type: EbsVolumeType) -> (r: Option<usize>)
    ensures
        match first_rate_index(rates@, volume_type) {
            Some(k) => 0 <= k < rates@.len() && r == Some(k as usize),
            None => r is None,
        },
{
    let mut found: Option<usize> = None;
    let mut i: usize = 0;
    assert(rates@.subrange(0, 0) =~= Seq::<EbsRate>::empty());
    while i < rates.len()
        invariant
            i <= rates@.len(),
            match first_rate_index(rates@.subrange(0, i as int), volume_type) {
                Some(k) => 0 <= k < i && found == Some(k as usize),
                None => found is None,
            },
        decreases rates@.len() - i,
    {
        let ghost prefix = rates@.subrange(0, i + 1);
        assert(prefix.drop_last() =~= rates@.subrange(0, i as int));
        assert(prefix.last() == rates@[i as int]);
        if found.is_none() && rates[i].volume_type == volume_type {
            found = Some(i);
        }
        i = i + 1;
    }
    assert(rates@.subrange(0, rates@.len() as int) =~= rates@);
    found
}

fn ebs_storage(volumes: &Vec<EbsVolume>, rates: &[EbsRate]) -> (r: Outcome<DecimalValue>)
    ensures
        r == ebs_storage_monthly(volumes@, rates@),
{
    let mut total = DecimalValue::zero();
    let mut i: usize = 0;
    assert(volumes@.subrange(0, 0) =~= Seq::<EbsVolume>::empty());
    while i < volumes.len()
        invariant
            i <= volumes@.len(),
            ebs_storage_monthly(volumes@.subrange(0, i as int), rates@) == Some(Ok::<DecimalValue, CostError>(total)),
        decreases volumes@.len() - i,
    {
        let volume = &volumes[i];
        let ghost prefix = volumes@.subrange(0, i + 1);
        assert(prefix.drop_last() =~= volumes@.subrange(0, i as int));
        assert(prefix.last() == volumes@[i as int]);
        if volume.volume_type != EbsVolumeType::Ephemeral {
            let k = match first_rate(rates, volume.volume_type) {
                Some(k) => k,
                None => {
                    assert(ebs_storage_monthly(volumes@, rates@) == Some(Err::<DecimalValue, CostError>(CostError::MissingEbsRate(volume.volume_type)))) by {
                        lemma_ebs_storage_stops(volumes@, rates@, i as int + 1);
                    }
                    return Some(Err(CostError::MissingEbsRate(volume.volume_type)));
                },
            };
            let outcome = match volume_monthly(
                volume.volume_type,
                volume.capacity_gb,
                volume.provisioned_iops,
                volume.throughput_mibps,
                &rates[k],
            ) {
                None => None,
                Some(Err(e)) => Some(Err(e)),
                Some(Ok(m)) => match total.checked_add(m) {
                    Some(sum) => Some(Ok(sum)),
                    None => None,
                },
            };
            match outcome {
                Some(Ok(sum)) => {
                    total = sum;
                },
                _ => {
                    proof {
                        assert(ebs_storage_monthly(prefix, rates@) == outcome);
                        lemma_ebs_storage_stops(volumes@, rates@, i as int + 1);
                    }
                    return outcome;
                },
            }
        }
        i = i + 1;
    }
    assert(volumes@.subrange(0, volumes@.len() as int) =~= volumes@);
    Some(Ok(total))
}

/// Once the sum fails over a prefix, it fails the same way over the whole list.
proof fn lemma_ebs_storage_stops(volumes: Seq<EbsVolume>, rates: Seq<EbsRate>, n: int)
    requires
        0 <= n <= volumes.len(),
        !(ebs_storage_monthly(volumes.subrange(0, n), rates) matches Some(Ok(_))),
    ensures
        ebs_storage_monthly(volumes, rates) == ebs_storage_monthly(volumes.subrange(0, n), rates),
    decreases volumes.len() - n,
{
    if n == volumes.len() {
        assert(volumes.subrange(0, n) =~= volumes);
    } else {
        let next = volumes.subrange(0, n + 1);
        assert(next.drop_last() =~= volumes.subrange(0, n));
        lemma_ebs_storage_stops(volumes, rates, n + 1);
    }
}

fn vm_storage(volumes: &Vec<VmVolume>, rates: &[EbsRate]) -> (r: Outcome<DecimalValue>)
    ensures
        r == vm_storage_monthly(volumes@, rates@),
{
    let mut total = DecimalValue::zero();
    let mut i: usize = 0;
    assert(volumes@.subrange(0, 0) =~= Seq::<VmVolume>::empty());
    while i < volumes.len()
        invariant
            i <= volumes@.len(),
            vm_storage_monthly(volumes@.subrange(0, i as int), rates@) == Some(Ok::<DecimalValue, CostError>(total)),
        decreases volumes@.len() - i,
    {
        let volume = &volumes[i];
        let ghost prefix = volumes@.subrange(0, i + 1);
        assert(prefix.drop_last() =~= volumes@.subrange(0, i as int));
        assert(prefix.last() == volumes@[i as int]);
        if volume.volume_type != EbsVolumeType::Ephemeral {
            let k = match first_rate(rates, volume.volume_type) {
                Some(k) => k,
                None => {
                    assert(vm_storage_monthly(volumes@, rates@) == Some(Err::<DecimalValue, CostError>(CostError::MissingEbsRate(volume.volume_type)))) by {
                        lemma_vm_storage_stops(volumes@, rates@, i as int + 1);
                    }
                    return Some(Err(CostError::MissingEbsRate(volume.volume_type)));
                },
            };
            let outcome = match volume_monthly(
                volume.volume_type,
                volume.capacity_gb,
                volume.provisioned_iops,
                volume.throughput_mibps,
                &rates[k],
            ) {
                None => None,
                Some(Err(e)) => Some(Err(e)),
                Some(Ok(m)) => match total.checked_add(m) {
                    Some(sum) => Some(Ok(sum)),
                    None => None,
                },
            };
            match outcome {
                Some(Ok(sum)) => {
                    total = sum;
                },
                _ => {
                    proof {
                        assert(vm_storage_monthly(prefix, rates@) == outcome);
                        lemma_vm_storage_stops(volumes@, rates@, i as int + 1);
                    }
                    return outcome;
                },
            }
        }
        i = i + 1;
    }
    assert(volumes@.subrange(0, volumes@.len() as int) =~= volumes@);
    Some(Ok(total))
}

proof fn lemma_vm_storage_stops(volumes: Seq<VmVolume>, rates: Seq<EbsRate>, n: int)
    requires
        0 <= n <= volumes.len(),
        !(vm_storage_monthly(volumes.subrange(0, n), rates) matches Some(Ok(_))),
    ensures
        vm_storage_monthly(volumes, rates) == vm_storage_monthly(volumes.subrange(0, n), rates),
    decreases volumes.len() - n,
{
    if n == volumes.len() {
        assert(volumes.subrange(0, n) =~= volumes);
    } else {
        let next = volumes.subrange(0, n + 1);
        assert(next.drop_last() =~= volumes.subrange(0, n));
        lemma_vm_storage_stops(volumes, rates, n + 1);
    }
}

fn source_license_hourly(
    basis: LicenseBasis,
    edition: SqlEdition,
    standard: Option<DecimalValue>,
    enterprise: Option<DecimalValue>,
) -> (r: Result<DecimalValue, CostError>)
    ensures
        r == spec_source_license_hourly(basis, edition, standard, enterprise),
{
    if basis == LicenseBasis::Byol {
        return Ok(DecimalValue::zero());
    }
    let rate = match edition {
        SqlEdition::Standard => standard,
        SqlEdition::Enterprise => enterprise,
    };
    match rate {
        None => Err(CostError::MissingSourceLicenseRate),
        Some(r) => match validate_rate(r) {
            Err(e) => Err(e),
            Ok(()) => Ok(r),
        },
    }
}

fn annual_storage_exec(quantity: u32, monthly: DecimalValue, discount: DecimalValue) -> (r: (Option<DecimalValue>, Option<DecimalValue>))
    ensures
        r == annual_storage(quantity, monthly, discount),
{
    let gross = mul3_opt(Some(DecimalValue::from_u32(quantity)), Some(DecimalValue::from_u32(12)), Some(monthly));
    (gross, apply_discount(gross, discount))
}

/// The annual costs of an EC2 SQL Server source; `None` where an amount is
/// beyond what the decimal type holds.
pub fn calculate_ec2_source_checked(
    resource: &Ec2Resource,
    rate: Ec2Rate,
    ebs_rates: &[EbsRate],
    settings: &ProjectSettings,
) -> (r: Outcome<SourceCostBreakdown>)
    ensures
        r == spec_ec2_source(*resource, rate, ebs_rates@, *settings),
{
    if validate_rate(rate.compute_hourly).is_err() {
        return Some(Err(CostError::NegativeRate));
    }
    let quantity = Some(DecimalValue::from_u32(resource.shared.quantity));
    let hours = Some(resource.shared.annual_hours_per_instance);
    let compute_gross = mul3_opt(quantity, hours, Some(rate.compute_hourly));
    let compute_net = apply_discount(compute_gross, settings.source_compute_discount);
    if compute_net.is_none() {
        return None;
    }
    let license_hourly = match source_license_hourly(
        resource.sql.license_basis,
        resource.sql.sql_edition,
        rate.standard_license_hourly,
        rate.enterprise_license_hourly,
    ) {
        Err(e) => {
            return Some(Err(e));
        },
        Ok(v) => v,
    };
    let license_gross = mul3_opt(quantity, hours, Some(license_hourly));
    let license_net = apply_discount(license_gross, settings.source_license_discount);
    if license_net.is_none() {
        return None;
    }
    let monthly = match ebs_storage(&resource.volumes, ebs_rates) {
        None => {
            return None;
        },
        Some(Err(e)) => {
            return Some(Err(e));
        },
        Some(Ok(m)) => m,
    };
    let (storage_gross, storage_net) = annual_storage_exec(resource.shared.quantity, monthly, settings.source_storage_discount);
    match source_costs_opt(
        compute_gross,
        compute_net,
        license_gross,
        license_net,
        storage_gross,
        storage_net,
        Some(DecimalValue::zero()),
        Some(DecimalValue::zero()),
    ) {
        Some(b) => Some(Ok(b)),
        None => None,
    }
}

/// The annual costs of an EC2 SQL Server source.
pub fn calculate_ec2_source(
    resource: &Ec2Resource,
    rate: Ec2Rate,
    ebs_rates: &[EbsRate],
    settings: &ProjectSettings,
) -> (r: Result<SourceCostBreakdown, CostError>)
    requires
        spec_ec2_source(*resource, rate, ebs_rates@, *settings) is Some,
    ensures
        Some(r) == spec_ec2_source(*resource, rate, ebs_rates@, *settings),
{
    calculate_ec2_source_checked(resource, rate, ebs_rates, settings).unwrap()
}

/// The annual costs of an EC2 VM source; `None` where an amount is beyond what
/// the decimal type holds.
pub fn calculate_ec2_vm_source_checked(
    resource: &Ec2VmResource,
    rate: Ec2Rate,
    ebs_rates: &[EbsRate],
    settings: &ProjectSettings,
) -> (r: Outcome<SourceCostBreakdown>)
    ensures
        r == spec_ec2_vm_source(*resource, rate, ebs_rates@, *settings),
{
    if validate_rate(rate.compute_hourly).is_err() {
        return Some(Err(CostError::NegativeRate));
    }
    let quantity = Some(DecimalValue::from_u32(resource.shared.quantity));
    let hours = Some(resource.shared.annual_hours_per_instance);
    let compute_gross = mul3_opt(quantity, hours, Some(rate.compute_hourly));
    let compute_net = apply_discount(compute_gross, settings.source_compute_discount);
    if compute_net.is_none() {
        return None;
    }
    let monthly = match vm_storage(&resource.volumes, ebs_rates) {
        None => {
            return None;
        },
        Some(Err(e)) => {
            return Some(Err(e));
        },
        Some(Ok(m)) => m,
    };
    let (storage_gross, storage_net) = annual_storage_exec(resource.shared.quantity, monthly, settings.source_storage_discount);
    match source_costs_opt(
        compute_gross,
        compute_net,
        Some(DecimalValue::zero()),
        Some(DecimalValue::zero()),
        storage_gross,
        storage_net,
        Some(DecimalValue::zero()),
        Some(DecimalValue::zero()),
    ) {
        Some(b) => Some(Ok(b)),
        None => None,
    }
}

/// The annual costs of an EC2 VM source.
pub fn calculate_ec2_vm_source(
    resource: &Ec2VmResource,
    rate: Ec2Rate,
    ebs_rates: &[EbsRate],
    settings: &ProjectSettings,
) -> (r: Result<SourceCostBreakdown, CostError>)
    requires
        spec_ec2_vm_source(*resource, rate, ebs_rates@, *settings) is Some,
    ensures
        Some(r) == spec_ec2_vm_source(*resource, rate, ebs_rates@, *settings),
{
    calculate_ec2_vm_source_checked(resource, rate, ebs_rates, settings).unwrap()
}

/// The monthly price of an EBS volume; `None` where an amount is beyond what the
/// decimal type holds.
pub fn calculate_ebs_volume_monthly_checked(volume: &EbsVolume, rate: &EbsRate) -> (r: Outcome<DecimalValue>)
    ensures
        r == spec_volume_monthly(volume.volume_type, volume.capacity_gb, volume.provisioned_iops, volume.throughput_mibps, *rate),
{
    volume_monthly(volume.volume_type, volume.capacity_gb, volume.provisioned_iops, volume.throughput_mibps, rate)
}

/// The monthly price of an EBS volume.
pub fn calculate_ebs_volume_monthly(volume: &EbsVolume, rate: &EbsRate) -> (r: Result<DecimalValue, CostError>)
    requires
        spec_volume_monthly(volume.volume_type, volume.capacity_gb, volume.provisioned_iops, volume.throughput_mibps, *rate) is Some,
    ensures
        Some(r) == spec_volume_monthly(volume.volume_type, volume.capacity_gb, volume.provisioned_iops, volume.throughput_mibps, *rate),
{
    calculate_ebs_volume_monthly_checked(volume, rate).unwrap()
}

/// The monthly price of a VM volume; `None` where an amount is beyond what the
/// decimal type holds.
pub fn calculate_vm_volume_monthly_checked(volume: &VmVolume, rate: &EbsRate) -> (r: Outcome<DecimalValue>)
    ensures
        r == spec_volume_monthly(volume.volume_type, volume.capacity_gb, volume.provisioned_iops, volume.throughput_mibps, *rate),
{
    volume_monthly(volume.volume_type, volume.capacity_gb, volume.provisioned_iops, volume.throughput_mibps, rate)
}

/// The monthly price of a VM volume.
pub fn calculate_vm_volume_monthly(volume: &VmVolume, rate: &EbsRate) -> (r: Result<DecimalValue, CostError>)
    requires
        spec_volume_monthly(volume.volume_type, volume.capacity_gb, volume.provisioned_iops, volume.throughput_mibps, *rate) is Some,
    ensures
        Some(r) == spec_volume_monthly(volume.volume_type, volume.capacity_gb, volume.provisioned_iops, volume.throughput_mibps, *rate),
{
    calculate_vm_volume_monthly_checked(volume, rate).unwrap()
}

/// The largest provisioned IOPS among the persistent volumes (not their sum).
pub fn source_max_iops(resource: &Ec2Resource) -> (r: Result<u64, CostError>)
    ensures
        r == spec_source_max_iops(resource.volumes@),
{
    let ghost volumes = resource.volumes@;
    let mut maximum: u64 = 0;
    let mut i: usize = 0;
    assert(volumes.subrange(0, 0) =~= Seq::<EbsVolume>::empty());
    while i < resource.volumes.len()
        invariant
            volumes == resource.volumes@,
            i <= volumes.len(),
            spec_source_max_iops(volumes.subrange(0, i as int)) == Ok::<u64, CostError>(maximum),
        decreases volumes.len() - i,
    {
        let volume = &resource.volumes[i];
        let ghost prefix = volumes.subrange(0, i + 1);
        assert(prefix.drop_last() =~= volumes.subrange(0, i as int));
        assert(prefix.last() == volumes[i as int]);
        if volume.volume_type != EbsVolumeType::Ephemeral {
            match volume.provisioned_iops {
                None => {
                    proof {
                        lemma_max_iops_stops(volumes, i as int + 1);
                    }
                    return Err(CostError::MissingProvisionedIops);
                },
                Some(iops) => {
                    if iops > maximum {
                        maximum = iops;
                    }
                },
            }
        }
        i = i + 1;
    }
    assert(volumes.subrange(0, volumes.len() as int) =~= volumes);
    Ok(maximum)
}

proof fn lemma_max_iops_stops(volumes: Seq<EbsVolume>, n: int)
    requires
        0 <= n <= volumes.len(),
        spec_source_max_iops(volumes.subrange(0, n)) is Err,
    ensures
        spec_source_max_iops(volumes) == spec_source_max_iops(volumes.subrange(0, n)),
    decreases volumes.len() - n,
{
    if n == volumes.len() {
        assert(volumes.subrange(0, n) =~= volumes);
    } else {
        let next = volumes.subrange(0, n + 1);
        assert(next.drop_last() =~= volumes.subrange(0, n));
        lemma_max_iops_stops(volumes, n + 1);
    }
}

/// The monthly price of a managed disk; `None` where an amount is beyond what the
/// decimal type holds.
pub fn calculate_azure_managed_disk_monthly_checked(disk: &SelectedManagedDisk, rate: AzureManagedDiskRateSet) -> (r: Outcome<DecimalValue>)
    ensures
        r == spec_managed_disk_monthly(*disk, rate),
{
    if validate_rate(rate.capacity_monthly).is_err() {
        return Some(Err(CostError::NegativeRate));
    }
    if disk.tier_key.is_some() {
        return Some(Ok(rate.capacity_monthly));
    }
    let iops_rate = match rate.additional_iops_monthly_per_unit {
        Some(v) => v,
        None => {
            return Some(Err(CostError::MissingAzureManagedDiskRate));
        },
    };
    let throughput_rate = match rate.additional_throughput_monthly_per_mbps {
        Some(v) => v,
        None => {
            return Some(Err(CostError::MissingAzureManagedDiskRate));
        },
    };
    if validate_rate(iops_rate).is_err() || validate_rate(throughput_rate).is_err() {
        return Some(Err(CostError::NegativeRate));
    }
    match add_opt(
        add_opt(
            disk.capacity_gb.checked_mul(rate.capacity_monthly),
            DecimalValue::from_u64(disk.billed_additional_iops).checked_mul(iops_rate),
        ),
        disk.billed_additional_throughput_mbps.checked_mul(throughput_rate),
    ) {
        Some(v) => Some(Ok(v)),
        None => None,
    }
}

/// The monthly price of a managed disk.
pub fn calculate_azure_managed_disk_monthly(disk: &SelectedManagedDisk, rate: AzureManagedDiskRateSet) -> (r: Result<DecimalValue, CostError>)
    requires
        spec_managed_disk_monthly(*disk, rate) is Some,
    ensures
        Some(r) == spec_managed_disk_monthly(*disk, rate),
{
    calculate_azure_managed_disk_monthly_checked(disk, rate).unwrap()
}

/// The annual costs of an RDS SQL Server source; `None` where an amount is
/// beyond what the decimal type holds.
pub fn calculate_rds_source_checked(resource: &RdsResource, rate: RdsRate, settings: &ProjectSettings) -> (r: Outcome<SourceCostBreakdown>)
    ensures
        r == spec_rds_source(*resource, rate, *settings),
{
    if validate_rate(rate.effective_compute_hourly).is_err() || validate_rate(rate.storage_monthly_per_gb).is_err() {
        return Some(Err(CostError::NegativeRate));
    }
    let quantity = Some(DecimalValue::from_u32(resource.shared.quantity));
    let hours = Some(resource.shared.annual_hours_per_instance);
    let compute_gross = mul3_opt(quantity, hours, Some(rate.effective_compute_hourly));
    let compute_net = apply_discount(compute_gross, settings.source_compute_discount);
    if compute_net.is_none() {
        return None;
    }
    let core_rate = match resource.sql.sql_edition {
        SqlEdition::Standard => rate.standard_license_core_hourly,
        SqlEdition::Enterprise => rate.enterprise_license_core_hourly,
    };
    if validate_rate(core_rate).is_err() {
        return Some(Err(CostError::NegativeRate));
    }
    let license_gross = if resource.sql.license_basis == LicenseBasis::Byol {
        Some(DecimalValue::zero())
    } else {
        mul_opt(mul3_opt(quantity, hours, Some(DecimalValue::from_u32(rate.source_vcpu))), Some(core_rate))
    };
    let license_net = apply_discount(license_gross, settings.source_license_discount);
    let storage_gross = mul_opt(
        mul3_opt(quantity, Some(resource.sql.sql_data_gb_per_instance), Some(DecimalValue::from_u32(12))),
        Some(rate.storage_monthly_per_gb),
    );
    let storage_net = apply_discount(storage_gross, settings.source_storage_discount);
    match source_costs_opt(
        compute_gross,
        compute_net,
        license_gross,
        license_net,
        storage_gross,
        storage_net,
        Some(DecimalValue::zero()),
        Some(DecimalValue::zero()),
    ) {
        Some(b) => Some(Ok(b)),
        None => None,
    }
}

/// The annual costs of an RDS SQL Server source.
pub fn calculate_rds_source(resource: &RdsResource, rate: RdsRate, settings: &ProjectSettings) -> (r: Result<SourceCostBreakdown, CostError>)
    requires
        spec_rds_source(*resource, rate, *settings) is Some,
    ensures
        Some(r) == spec_rds_source(*resource, rate, *settings),
{
    calculate_rds_source_checked(resource, rate, settings).unwrap()
}

fn estimated_power_kw(resource: &OnPremResource) -> (r: Option<DecimalValue>)
    ensures
        r == spec_estimated_power_kw(*resource),
{
    add_opt(
        add_opt(
            add_opt(
                Some(DecimalValue::new(100, 3)),
                mul_opt(Some(DecimalValue::new(125, 4)), Some(DecimalValue::from_u32(resource.source_vcpu))),
            ),
            mul_opt(Some(DecimalValue::new(375, 6)), Some(resource.shared.source_ram_gb_per_instance)),
        ),
        div_opt(
            mul_opt(Some(DecimalValue::new(10, 3)), Some(resource.sql.sql_data_gb_per_instance)),
            Some(DecimalValue::from_u32(1024)),
        ),
    )
}

/// The number of two-core License + SA packs, for at least four cores.
pub fn license_pack_count(licensable_cores: u32) -> (r: u32)
    ensures
        r == spec_license_pack_count(licensable_cores),
{
    let billable: u32 = if licensable_cores >= 4 { licensable_cores } else { 4 };
    billable / 2 + billable % 2
}

/// The annual costs of an on-premises source; `None` where an amount is beyond
/// what the decimal type holds.
pub fn calculate_on_prem_source_checked(resource: &OnPremResource, settings: &ProjectSettings) -> (r: Outcome<OnPremCostResult>)
    ensures
        r == spec_on_prem_source(*resource, *settings),
{
    let license_price = match resource.sql.sql_edition {
        SqlEdition::Standard => settings.standard_license_sa_usd_per_two_core_pack,
        SqlEdition::Enterprise => settings.enterprise_license_sa_usd_per_two_core_pack,
    };
    let price = match license_price {
        Some(p) => p,
        None => {
            return Some(Err(CostError::MissingOnPremLicenseSettings));
        },
    };
    let months = match settings.remaining_coverage_months {
        Some(m) => m,
        None => {
            return Some(Err(CostError::MissingOnPremLicenseSettings));
        },
    };
    let electricity_rate = match settings.electricity_rate_usd_per_kwh {
        Some(e) => e,
        None => {
            return Some(Err(CostError::MissingElectricityRate));
        },
    };
    if validate_rate(price).is_err() || validate_rate(electricity_rate).is_err() {
        return Some(Err(CostError::NegativeRate));
    }
    let quantity = Some(DecimalValue::from_u32(resource.shared.quantity));
    let hours = Some(resource.shared.annual_hours_per_instance);
    let estimated = estimated_power_kw(resource);
    let effective = match resource.average_power_kw_override {
        Some(p) => if estimated.is_some() {
            Some(p)
        } else {
            None
        },
        None => estimated,
    };
    let annual_kwh = mul3_opt(quantity, hours, effective);
    let electricity_annual = mul_opt(annual_kwh, Some(electricity_rate));
    let hardware_annual = div_opt(mul_opt(quantity, Some(resource.hardware_capex_usd)), Some(resource.depreciation_years));
    let packs = license_pack_count(resource.licensable_cores);
    let license_gross = div_opt(
        mul_opt(mul3_opt(quantity, Some(DecimalValue::from_u32(packs)), Some(price)), Some(DecimalValue::from_u32(12))),
        Some(DecimalValue::from_u32(months as u32)),
    );
    let license_net = apply_discount(license_gross, settings.source_license_discount);
    let costs = source_costs_opt(
        hardware_annual,
        hardware_annual,
        license_gross,
        license_net,
        Some(DecimalValue::zero()),
        Some(DecimalValue::zero()),
        hardware_annual,
        electricity_annual,
    );
    let monthly = div_opt(electricity_annual, Some(DecimalValue::from_u32(12)));
    match (costs, monthly, estimated, effective, annual_kwh) {
        (Some(c), Some(m), Some(est), Some(eff), Some(kwh)) => Some(
            Ok(
                OnPremCostResult {
                    costs: c,
                    explanation: OnPremExplanation {
                        estimated_power_kw: est,
                        effective_power_kw: eff,
                        power_override_applied: resource.average_power_kw_override.is_some(),
                        annual_kwh: kwh,
                        electricity_monthly_average: m,
                        license_pack_count: packs,
                    },
                },
            ),
        ),
        _ => None,
    }
}

/// The annual costs of an on-premises source.
pub fn calculate_on_prem_source(resource: &OnPremResource, settings: &ProjectSettings) -> (r: Result<OnPremCostResult, CostError>)
    requires
        spec_on_prem_source(*resource, *settings) is Some,
    ensures
        Some(r) == spec_on_prem_source(*resource, *settings),
{
    calculate_on_prem_source_checked(resource, settings).unwrap()
}

fn billable_storage(configured: DecimalValue) -> (r: Option<DecimalValue>)
    ensures
        r == spec_billable_storage(configured),
{
    max_opt(configured.checked_sub(DecimalValue::from_u32(AZURE_MI_STORAGE_UNIT_GB)), Some(DecimalValue::zero()))
}

/// `configured` is the least multiple of 32 GB that is at least `required` and
/// at least 32 GB (amounts in units).
pub open spec fn least_storage_multiple(configured: int, required: int) -> bool {
    let unit = int_units(AZURE_MI_STORAGE_UNIT_GB as int);
    &&& configured % unit == 0
    &&& configured >= required
    &&& configured >= unit
    &&& (configured == unit || configured - unit < required)
}

/// The required storage over 32 GB is a decimal held exactly, and one more unit
/// of 32 GB still fits the decimal range.
pub open spec fn storage_units_exact(required: DecimalValue) -> bool {
    &&& exact_ratio(required.units() * int_units(1), int_units(AZURE_MI_STORAGE_UNIT_GB as int))
    &&& required.units() + int_units(AZURE_MI_STORAGE_UNIT_GB as int) <= max_units()
}

/// The arithmetic of the configured storage: `q` units of 32 GB are required,
/// `k` whole units (the ceiling of `q`, at least one) are configured.
proof fn lemma_storage_multiple(required: int, q: int, ceiling: int, k: int, configured: int, unit: int)
    requires
        unit == 10000000000000000000000000000,
        q * (32 * unit) == required * unit,
        ceiling >= q,
        ceiling - unit < q,
        (k * unit == ceiling && ceiling >= unit) || (k == 1 && ceiling < unit),
        configured * unit == (k * unit) * (32 * unit),
        required + 32 * unit <= max_mantissa() * unit,
    ensures
        configured == (32 * k) * unit,
        -max_mantissa() <= 32 * k <= max_mantissa(),
        configured >= required,
        configured >= 32 * unit,
        configured == 32 * unit || configured - 32 * unit < required,
{
    let top = max_mantissa();
    assert(q * 32 == required) by (nonlinear_arith)
        requires
            q * (32 * unit) == required * unit,
            unit > 0,
    ;
    assert(configured == (32 * k) * unit) by (nonlinear_arith)
        requires
            configured * unit == (k * unit) * (32 * unit),
            unit > 0,
    ;
    assert(k >= 1) by (nonlinear_arith)
        requires
            (k * unit == ceiling && ceiling >= unit) || k == 1,
            unit > 0,
    ;
    assert(32 * k <= top) by (nonlinear_arith)
        requires
            (k * unit == ceiling && ceiling - unit < q) || k == 1,
            q * 32 == required,
            required + 32 * unit <= top * unit,
            unit > 0,
            top > 32,
    ;
    assert(configured >= required && configured >= 32 * unit) by (nonlinear_arith)
        requires
            configured == (32 * k) * unit,
            (k * unit == ceiling && ceiling >= unit) || (k == 1 && ceiling < unit),
            ceiling >= q,
            q * 32 == required,
            unit > 0,
    ;
    assert(configured == 32 * unit || configured - 32 * unit < required) by (nonlinear_arith)
        requires
            configured == (32 * k) * unit,
            (k * unit == ceiling && ceiling >= unit) || k == 1,
            ceiling - unit < q,
            q * 32 == required,
            unit > 0,
    ;
}

/// The storage configured for a required size: whole 32 GB units, at least one;
/// `None` where it is beyond what the decimal type holds. Where the required size
/// over 32 GB is exact, it is the least multiple of 32 GB not below the required
/// size, and at least 32 GB.
pub fn azure_mi_configured_storage_gb_checked(required_storage_gb: DecimalValue) -> (r: Option<DecimalValue>)
    ensures
        r == spec_configured_storage(required_storage_gb),
        storage_units_exact(required_storage_gb) ==> (r matches Some(c) && least_storage_multiple(
            c.units(),
            required_storage_gb.units(),
        )),
{
    let unit = DecimalValue::from_u32(AZURE_MI_STORAGE_UNIT_GB);
    match required_storage_gb.checked_div(unit) {
        Some(units) => {
            let whole = units.ceil();
            let one = DecimalValue::one();
            let count = whole.max(one);
            let r = count.checked_mul(unit);
            proof {
                if storage_units_exact(required_storage_gb) {
                    lemma_unit_value();
                    let u = int_units(1);
                    units.lemma_valid_representable();
                    units.lemma_ceiling();
                    whole.lemma_units();
                    count.lemma_units();
                    assert(int_units(32) == 32 * u);
                    let k = count.spec_mantissa();
                    assert(count.units() == k * u);
                    assert((k * u == whole.units() && whole.units() >= u) || (k == 1 && whole.units() < u));
                    let cu = count.units();
                    let n = cu * (32 * u);
                    let m = (32 * k) * u;
                    assert(n == u * m) by (nonlinear_arith)
                        requires
                            n == cu * (32 * u),
                            cu == k * u,
                            m == (32 * k) * u,
                    ;
                    lemma_mod_multiples_basic(m, u);
                    lemma_div_multiples_vanish(m, u);
                    assert(m * u == u * m) by (nonlinear_arith);
                    if k != 1 {
                        assert(whole.units() - u < units.units());
                    }
                    assert(32 * k <= max_mantissa()) by (nonlinear_arith)
                        requires
                            (k * u == whole.units() && whole.units() - u < units.units()) || k == 1,
                            units.units() * (32 * u) == required_storage_gb.units() * u,
                            required_storage_gb.units() + 32 * u <= max_mantissa() * u,
                            u > 0,
                            max_mantissa() > 32,
                    ;
                    assert(32 * k >= -max_mantissa()) by (nonlinear_arith)
                        requires
                            (k * u == whole.units() && whole.units() >= u) || k == 1,
                            u > 0,
                    ;
                    lemma_integer_representable(32 * k);
                    assert(exact_ratio(n, u));
                    let c = r.unwrap();
                    lemma_storage_multiple(required_storage_gb.units(), units.units(), whole.units(), k, c.units(), u);
                    lemma_mod_multiples_basic(k, 32 * u);
                    assert((32 * k) * u == k * (32 * u)) by (nonlinear_arith);
                }
            }
            r
        },
        None => None,
    }
}

/// The storage configured for a required size: whole 32 GB units, at least one.
pub fn azure_mi_configured_storage_gb(required_storage_gb: DecimalValue) -> (r: DecimalValue)
    requires
        spec_configured_storage(required_storage_gb) is Some,
    ensures
        Some(r) == spec_configured_storage(required_storage_gb),
        storage_units_exact(required_storage_gb) ==> least_storage_multiple(r.units(), required_storage_gb.units()),
{
    azure_mi_configured_storage_gb_checked(required_storage_gb).unwrap()
}

/// The storage billed beyond the included 32 GB; `None` where it is beyond what
/// the decimal type holds.
pub fn azure_mi_billable_storage_gb_checked(configured_storage_gb: DecimalValue) -> (r: Option<DecimalValue>)
    ensures
        r == spec_billable_storage(configured_storage_gb),
{
    billable_storage(configured_storage_gb)
}

/// The storage billed beyond the included 32 GB.
pub fn azure_mi_billable_storage_gb(configured_storage_gb: DecimalValue) -> (r: DecimalValue)
    requires
        spec_billable_storage(configured_storage_gb) is Some,
    ensures
        Some(r) == spec_billable_storage(configured_storage_gb),
{
    billable_storage(configured_storage_gb).unwrap()
}

fn azure_costs_opt(
    compute_gross: Option<DecimalValue>,
    additional_ram_gb: Option<DecimalValue>,
    additional_ram_gross: Option<DecimalValue>,
    compute_plus_ram_net: Option<DecimalValue>,
    license_gross: Option<DecimalValue>,
    license_net: Option<DecimalValue>,
    storage_gross: Option<DecimalValue>,
    storage_net: Option<DecimalValue>,
) -> (r: Outcome<AzureCostBreakdown>)
    ensures
        r == match azure_costs_of(
            compute_gross,
            additional_ram_gb,
            additional_ram_gross,
            compute_plus_ram_net,
            license_gross,
            license_net,
            storage_gross,
            storage_net,
        ) {
            Some(b) => Some(Ok::<AzureCostBreakdown, CostError>(b)),
            None => None,
        },
{
    let total = add_opt(add_opt(compute_plus_ram_net, license_net), storage_net);
    match (compute_gross, additional_ram_gb, additional_ram_gross, compute_plus_ram_net, license_gross, license_net) {
        (Some(cg), Some(ram), Some(ram_gross), Some(cprn), Some(lg), Some(ln)) => match (storage_gross, storage_net, total) {
            (Some(sg), Some(sn), Some(t)) => Some(
                Ok(
                    AzureCostBreakdown {
                        compute_gross: cg,
                        additional_ram_gb: ram,
                        additional_ram_gross: ram_gross,
                        compute_plus_ram_net: cprn,
                        license_gross: lg,
                        license_net: ln,
                        storage_gross: sg,
                        storage_net: sn,
                        total_before_parity: t,
                    },
                ),
            ),
            _ => None,
        },
        _ => None,
    }
}

/// The annual costs of a managed-instance target; `None` where an amount is
/// beyond what the decimal type holds.
pub fn calculate_azure_checked(
    quantity: u32,
    annual_hours: DecimalValue,
    azure_storage_gb_per_instance: DecimalValue,
    included_memory_gb: DecimalValue,
    selected_memory_gb: DecimalValue,
    rate: AzureRate,
    settings: &ProjectSettings,
) -> (r: Outcome<AzureCostBreakdown>)
    ensures
        r == spec_azure(
            quantity,
            annual_hours,
            azure_storage_gb_per_instance,
            included_memory_gb,
            selected_memory_gb,
            rate,
            *settings,
        ),
{
    if validate_rate(rate.compute_hourly).is_err() || validate_rate(rate.license_hourly).is_err()
        || validate_rate(rate.storage_monthly_per_gb).is_err() || validate_rate(rate.additional_memory_per_gb_hourly).is_err() {
        return Some(Err(CostError::NegativeRate));
    }
    let q = Some(DecimalValue::from_u32(quantity));
    let h = Some(annual_hours);
    let compute_gross = mul3_opt(q, h, Some(rate.compute_hourly));
    let additional_ram_gb = max_opt(selected_memory_gb.checked_sub(included_memory_gb), Some(DecimalValue::zero()));
    let additional_ram_gross = mul_opt(mul3_opt(q, h, additional_ram_gb), Some(rate.additional_memory_per_gb_hourly));
    let compute_plus_ram_net = apply_discount(add_opt(compute_gross, additional_ram_gross), settings.azure_compute_discount);
    let license_gross = mul3_opt(q, h, Some(rate.license_hourly));
    let license_net = apply_discount(license_gross, settings.azure_license_discount);
    let billable = billable_storage(azure_storage_gb_per_instance);
    let storage_gross = mul_opt(mul3_opt(q, billable, Some(DecimalValue::from_u32(12))), Some(rate.storage_monthly_per_gb));
    let storage_net = apply_discount(storage_gross, settings.azure_storage_discount);
    azure_costs_opt(
        compute_gross,
        additional_ram_gb,
        additional_ram_gross,
        compute_plus_ram_net,
        license_gross,
        license_net,
        storage_gross,
        storage_net,
    )
}

/// The annual costs of a managed-instance target.
pub fn calculate_azure(
    quantity: u32,
    annual_hours: DecimalValue,
    azure_storage_gb_per_instance: DecimalValue,
    included_memory_gb: DecimalValue,
    selected_memory_gb: DecimalValue,
    rate: AzureRate,
    settings: &ProjectSettings,
) -> (r: Result<AzureCostBreakdown, CostError>)
    requires
        spec_azure(
            quantity,
            annual_hours,
            azure_storage_gb_per_instance,
            included_memory_gb,
            selected_memory_gb,
            rate,
            *settings,
        ) is Some,
    ensures
        Some(r) == spec_azure(
            quantity,
            annual_hours,
            azure_storage_gb_per_instance,
            included_memory_gb,
            selected_memory_gb,
            rate,
            *settings,
        ),
{
    calculate_azure_checked(
        quantity,
        annual_hours,
        azure_storage_gb_per_instance,
        included_memory_gb,
        selected_memory_gb,
        rate,
        settings,
    ).unwrap()
}

/// The annual costs of a VM target; `None` where an amount is beyond what the
/// decimal type holds.
pub fn calculate_azure_vm_checked(
    quantity: u32,
    annual_hours: DecimalValue,
    vm_total_hourly_rate: DecimalValue,
    vm_license_hourly_rate: DecimalValue,
    managed_disk_monthly_per_instance: DecimalValue,
    settings: &ProjectSettings,
) -> (r: Outcome<AzureCostBreakdown>)
    ensures
        r == spec_azure_vm(
            quantity,
            annual_hours,
            vm_total_hourly_rate,
            vm_license_hourly_rate,
            managed_disk_monthly_per_instance,
            *settings,
        ),
{
    if validate_rate(vm_total_hourly_rate).is_err() || validate_rate(vm_license_hourly_rate).is_err()
        || validate_rate(managed_disk_monthly_per_instance).is_err() {
        return Some(Err(CostError::NegativeRate));
    }
    if vm_total_hourly_rate.lt(&vm_license_hourly_rate) {
        return Some(Err(CostError::InvalidAzureVmRateComponents));
    }
    let q = Some(DecimalValue::from_u32(quantity));
    let h = Some(annual_hours);
    let compute_hourly = vm_total_hourly_rate.checked_sub(vm_license_hourly_rate);
    let compute_gross = mul3_opt(q, h, compute_hourly);
    let compute_net = apply_discount(compute_gross, settings.azure_compute_discount);
    let license_gross = mul3_opt(q, h, Some(vm_license_hourly_rate));
    let license_net = apply_discount(license_gross, settings.azure_license_discount);
    let storage_gross = mul3_opt(q, Some(DecimalValue::from_u32(12)), Some(managed_disk_monthly_per_instance));
    let storage_net = apply_discount(storage_gross, settings.azure_storage_discount);
    azure_costs_opt(
        compute_gross,
        Some(DecimalValue::zero()),
        Some(DecimalValue::zero()),
        compute_net,
        license_gross,
        license_net,
        storage_gross,
        storage_net,
    )
}

/// The annual costs of a VM target.
pub fn calculate_azure_vm(
    quantity: u32,
    annual_hours: DecimalValue,
    vm_total_hourly_rate: DecimalValue,
    vm_license_hourly_rate: DecimalValue,
    managed_disk_monthly_per_instance: DecimalValue,
    settings: &ProjectSettings,
) -> (r: Result<AzureCostBreakdown, CostError>)
    requires
        spec_azure_vm(
            quantity,
            annual_hours,
            vm_total_hourly_rate,
            vm_license_hourly_rate,
            managed_disk_monthly_per_instance,
            *settings,
        ) is Some,
    ensures
        Some(r) == spec_azure_vm(
            quantity,
            annual_hours,
            vm_total_hourly_rate,
            vm_license_hourly_rate,
            managed_disk_monthly_per_instance,
            *settings,
        ),
{
    calculate_azure_vm_checked(
        quantity,
        annual_hours,
        vm_total_hourly_rate,
        vm_license_hourly_rate,
        managed_disk_monthly_per_instance,
        settings,
    ).unwrap()
}

/// The source total over the Azure total, in units: the quotient the parity
/// adjustment is one less.
pub open spec fn parity_ratio(source: SourceCostBreakdown, azure: AzureCostBreakdown) -> int {
    (source.total.units() * int_units(1)) / azure.total_before_parity.units()
}

/// The source total over the Azure total is a decimal held exactly, and so is one
/// less it: the parity adjustment then carries no rounding.
pub open spec fn parity_exact(source: SourceCostBreakdown, azure: AzureCostBreakdown) -> bool {
    &&& exact_ratio(source.total.units() * int_units(1), azure.total_before_parity.units())
    &&& representable(int_units(1) - parity_ratio(source, azure))
}

/// From `q * d == n` for a divisor of `n`, `q` is the quotient.
proof fn lemma_exact_quotient(n: int, d: int, q: int)
    requires
        d != 0,
        n % d == 0,
        q * d == n,
    ensures
        q == n / d,
{
    lemma_fundamental_div_mod(n, d);
    let t = n / d;
    assert(q == t) by (nonlinear_arith)
        requires
            d != 0,
            q * d == n,
            n == d * t,
    ;
}

/// Savings and the parity adjustment; `None` where an amount is beyond what the
/// decimal type holds. Where the ratio of the totals is exact, the required
/// adjustment is one less it, and selecting it brings Azure to the source total
/// with no difference left.
pub fn calculate_savings_checked(
    source: &SourceCostBreakdown,
    azure: &AzureCostBreakdown,
    selected_adjustment: DecimalValue,
) -> (r: Option<SavingsBreakdown>)
    ensures
        r == spec_savings(*source, *azure, selected_adjustment),
        azure.total_before_parity.units() == 0 ==> (r matches Some(v) ==> v.required_adjustment.units() == 0),
        parity_exact(*source, *azure) ==> (r matches Some(v) ==> v.required_adjustment.units() == int_units(1)
            - parity_ratio(*source, *azure)),
        representable(source.compute_net.units() - azure.compute_plus_ram_net.units()) ==> (r matches Some(v)
            ==> v.compute_savings.units() == source.compute_net.units() - azure.compute_plus_ram_net.units()),
        representable(source.license_net.units() - azure.license_net.units()) ==> (r matches Some(v)
            ==> v.license_savings.units() == source.license_net.units() - azure.license_net.units()),
        representable(source.storage_net.units() - azure.storage_net.units()) ==> (r matches Some(v)
            ==> v.storage_savings.units() == source.storage_net.units() - azure.storage_net.units()),
        representable(source.total.units() - azure.total_before_parity.units()) ==> (r matches Some(v)
            ==> v.total_savings.units() == source.total.units() - azure.total_before_parity.units()),
        parity_exact(*source, *azure) && selected_adjustment.units() == int_units(1) - parity_ratio(
            *source,
            *azure,
        ) ==> (r matches Some(v) ==> v.azure_after_selected_parity.units() == source.total.units()
            && v.difference.units() == 0),
{
    let one = DecimalValue::one();
    let azure_total = azure.total_before_parity;
    let zero_azure = azure_total.is_zero();
    let quotient = if zero_azure {
        None
    } else {
        source.total.checked_div(azure_total)
    };
    let required = if zero_azure {
        Some(DecimalValue::zero())
    } else {
        match quotient {
            Some(q) => one.checked_sub(q),
            None => None,
        }
    };
    let rest = one.checked_sub(selected_adjustment);
    let after = match rest {
        Some(x) => azure_total.checked_mul(x),
        None => None,
    };
    let compute = source.compute_net.checked_sub(azure.compute_plus_ram_net);
    let license = source.license_net.checked_sub(azure.license_net);
    let storage = source.storage_net.checked_sub(azure.storage_net);
    let total = source.total.checked_sub(azure_total);
    let difference = match after {
        Some(a) => a.checked_sub(source.total),
        None => None,
    };
    proof {
        let n = source.total.units() * int_units(1);
        let d = azure_total.units();
        if parity_exact(*source, *azure) && quotient is Some {
            let q = quotient.unwrap();
            lemma_exact_quotient(n, d, q.units());
            if selected_adjustment.units() == int_units(1) - parity_ratio(*source, *azure) {
                q.lemma_valid_representable();
                source.total.lemma_valid_representable();
                lemma_unit_value();
                let unit = int_units(1);
                let x = rest.unwrap();
                assert(x.units() == q.units());
                assert(d * q.units() == unit * source.total.units()) by (nonlinear_arith)
                    requires
                        q.units() * d == n,
                        n == source.total.units() * unit,
                ;
                lemma_mod_multiples_basic(source.total.units(), unit);
                lemma_div_multiples_vanish(source.total.units(), unit);
                assert(source.total.units() * unit == unit * source.total.units()) by (nonlinear_arith);
                assert(exact_ratio(d * x.units(), unit));
                let a = after.unwrap();
                assert(a.units() == source.total.units()) by (nonlinear_arith)
                    requires
                        a.units() * unit == d * x.units(),
                        d * x.units() == unit * source.total.units(),
                        unit > 0,
                ;
                lemma_zero_representable();
            }
        }
    }
    match (required, compute, license, storage, total, difference, after) {
        (Some(req), Some(c), Some(l), Some(s), Some(t), Some(d), Some(a)) => Some(
            SavingsBreakdown {
                compute_savings: c,
                license_savings: l,
                storage_savings: s,
                total_savings: t,
                required_adjustment: req,
                selected_adjustment,
                azure_after_selected_parity: a,
                difference: d,
            },
        ),
        _ => None,
    }
}

/// Savings and the parity adjustment.
pub fn calculate_savings(
    source: &SourceCostBreakdown,
    azure: &AzureCostBreakdown,
    selected_adjustment: DecimalValue,
) -> (r: SavingsBreakdown)
    requires
        spec_savings(*source, *azure, selected_adjustment) is Some,
    ensures
        Some(r) == spec_savings(*source, *azure, selected_adjustment),
        azure.total_before_parity.units() == 0 ==> r.required_adjustment.units() == 0,
        parity_exact(*source, *azure) ==> r.required_adjustment.units() == int_units(1) - parity_ratio(*source, *azure),
        parity_exact(*source, *azure) && selected_adjustment.units() == int_units(1) - parity_ratio(*source, *azure)
            ==> r.azure_after_selected_parity.units() == source.total.units() && r.difference.units() == 0,
{
    calculate_savings_checked(source, azure, selected_adjustment).unwrap()
}

// ---------------------------------------------------------------------------
// Laws.
// ---------------------------------------------------------------------------

/// The IOPS of an EC2 source is the largest provisioned IOPS of its persistent
/// volumes, not their sum: it bounds every persistent volume and is one of them
/// (or 0 without any); it is refused exactly when a persistent volume states none.
pub proof fn lemma_source_max_iops(volumes: Seq<EbsVolume>)
    ensures
        spec_source_max_iops(volumes) is Err <==> exists|k: int|
            0 <= k < volumes.len() && (#[trigger] volumes[k]).volume_type != EbsVolumeType::Ephemeral
                && volumes[k].provisioned_iops is None,
        spec_source_max_iops(volumes) matches Ok(m) ==> {
            &&& forall|k: int|
                0 <= k < volumes.len() && (#[trigger] volumes[k]).volume_type != EbsVolumeType::Ephemeral
                    ==> volumes[k].provisioned_iops.unwrap() <= m
            &&& (m == 0 || exists|k: int|
                0 <= k < volumes.len() && (#[trigger] volumes[k]).volume_type != EbsVolumeType::Ephemeral
                    && volumes[k].provisioned_iops == Some(m))
        },
    decreases volumes.len(),
{
    if volumes.len() > 0 {
        let rest = volumes.drop_last();
        lemma_source_max_iops(rest);
        let n = volumes.len() - 1;
        assert(volumes[n] == volumes.last());
        assert forall|k: int| 0 <= k < rest.len() implies rest[k] == volumes[k] by {}
        if spec_source_max_iops(rest) is Err {
            let k = choose|k: int|
                0 <= k < rest.len() && (#[trigger] rest[k]).volume_type != EbsVolumeType::Ephemeral
                    && rest[k].provisioned_iops is None;
            assert(volumes[k] == rest[k]);
        } else {
            let m = spec_source_max_iops(rest).get_Ok_0();
            if exists|k: int|
                0 <= k < volumes.len() && (#[trigger] volumes[k]).volume_type != EbsVolumeType::Ephemeral
                    && volumes[k].provisioned_iops is None {
                let k = choose|k: int|
                    0 <= k < volumes.len() && (#[trigger] volumes[k]).volume_type != EbsVolumeType::Ephemeral
                        && volumes[k].provisioned_iops is None;
                if k < n {
                    assert(rest[k] == volumes[k]);
                }
            }
            if m != 0 {
                let k = choose|k: int|
                    0 <= k < rest.len() && (#[trigger] rest[k]).volume_type != EbsVolumeType::Ephemeral
                        && rest[k].provisioned_iops == Some(m);
                assert(volumes[k] == rest[k]);
            }
        }
    }
}

/// On-premises hardware is never discounted and there is no storage charge;
/// licenses come in two-core packs for at least four cores; a stated power draw
/// replaces the estimate.
pub proof fn lemma_on_prem_shape(resource: OnPremResource, settings: ProjectSettings)
    ensures
        spec_on_prem_source(resource, settings) matches Some(Ok(result)) ==> {
            &&& result.costs.compute_net == result.costs.compute_gross
            &&& result.costs.hardware_annual == result.costs.compute_gross
            &&& result.costs.storage_gross == dec(0)
            &&& result.costs.storage_net == dec(0)
            &&& 2 * result.explanation.license_pack_count >= (if resource.licensable_cores >= 4 { resource.licensable_cores as int } else { 4 })
            &&& 2 * result.explanation.license_pack_count < (if resource.licensable_cores >= 4 { resource.licensable_cores as int } else { 4 }) + 2
            &&& (resource.average_power_kw_override matches Some(p) ==> result.explanation.effective_power_kw == p
                && result.explanation.power_override_applied)
        },
{
}

/// A BYOL source pays no SQL license, on EC2 and on RDS.
pub proof fn lemma_byol_pays_no_license(
    ec2: Ec2Resource,
    ec2_rate: Ec2Rate,
    ebs_rates: Seq<EbsRate>,
    rds: RdsResource,
    rds_rate: RdsRate,
    settings: ProjectSettings,
)
    ensures
        ec2.sql.license_basis == LicenseBasis::Byol ==> (spec_ec2_source(ec2, ec2_rate, ebs_rates, settings) matches Some(
            Ok(costs),
        ) ==> Some(costs.license_gross) == mul3(
            Some(dec(ec2.shared.quantity as int)),
            Some(ec2.shared.annual_hours_per_instance),
            Some(dec(0)),
        )),
        rds.sql.license_basis == LicenseBasis::Byol ==> (spec_rds_source(rds, rds_rate, settings) matches Some(Ok(costs))
            ==> costs.license_gross == dec(0)),
{
}

/// The RDS deployment (single or multi-AZ) does not change the costs: the
/// instance count is not doubled for a standby.
pub proof fn lemma_rds_deployment_independent(
    resource: RdsResource,
    other: RdsResource,
    rate: RdsRate,
    settings: ProjectSettings,
)
    requires
        other.shared == resource.shared,
        other.sql == resource.sql,
    ensures
        spec_rds_source(other, rate, settings) == spec_rds_source(resource, rate, settings),
{
}

/// The memory beyond what a managed instance includes, and the storage billed
/// beyond the included 32 GB, are never negative.
pub proof fn lemma_azure_extras_not_negative(
    quantity: u32,
    annual_hours: DecimalValue,
    azure_storage_gb_per_instance: DecimalValue,
    included_memory_gb: DecimalValue,
    selected_memory_gb: DecimalValue,
    rate: AzureRate,
    settings: ProjectSettings,
)
    ensures
        spec_azure(
            quantity,
            annual_hours,
            azure_storage_gb_per_instance,
            included_memory_gb,
            selected_memory_gb,
            rate,
            settings,
        ) matches Some(Ok(costs)) ==> costs.additional_ram_gb.units() >= 0,
        spec_billable_storage(azure_storage_gb_per_instance) matches Some(b) ==> b.units() >= 0,
{
    DecimalValue::lemma_integer_units(0);
}

/// The annual costs of an RDS source, item by item, over the resource and the
/// rate: compute is quantity × hours × the effective compute rate; the SQL
/// license is nothing under BYOL and otherwise quantity × hours × the rate's
/// vCPUs × the core rate of the workload's edition (the enterprise rate for
/// Enterprise, the standard rate for Standard); storage is quantity × SQL data ×
/// 12 months × the monthly rate; each net amount is its gross times one less the
/// category's source discount; there is no hardware or electricity; the total
/// is compute, license and storage net. A negative compute or storage rate, or a
/// negative core rate of the edition, refuses the source.
pub proof fn lemma_rds_source_items(resource: RdsResource, rate: RdsRate, settings: ProjectSettings)
    ensures
        rate.effective_compute_hourly.units() < 0 || rate.storage_monthly_per_gb.units() < 0 ==> spec_rds_source(
            resource,
            rate,
            settings,
        ) == Some(Err::<SourceCostBreakdown, CostError>(CostError::NegativeRate)),
        spec_rds_source(resource, rate, settings) matches Some(Ok(b)) ==> {
            let quantity = DecimalValue::integer_value(resource.shared.quantity as int);
            let hours = resource.shared.annual_hours_per_instance;
            let instance_hours = decimal_mul(quantity, hours);
            let core_rate = if resource.sql.sql_edition == SqlEdition::Enterprise {
                rate.enterprise_license_core_hourly
            } else {
                rate.standard_license_core_hourly
            };
            &&& Some(b.compute_gross) == mul_of(instance_hours, Some(rate.effective_compute_hourly))
            &&& Some(b.compute_net) == mul_of(
                Some(b.compute_gross),
                decimal_sub(DecimalValue::integer_value(1), settings.source_compute_discount),
            )
            &&& core_rate.units() >= 0
            &&& resource.sql.license_basis == LicenseBasis::Byol ==> b.license_gross == DecimalValue::integer_value(0)
            &&& resource.sql.license_basis != LicenseBasis::Byol ==> Some(b.license_gross) == mul_of(
                mul_of(instance_hours, Some(DecimalValue::integer_value(rate.source_vcpu as int))),
                Some(core_rate),
            )
            &&& Some(b.license_net) == mul_of(
                Some(b.license_gross),
                decimal_sub(DecimalValue::integer_value(1), settings.source_license_discount),
            )
            &&& Some(b.storage_gross) == mul_of(
                mul_of(
                    decimal_mul(quantity, resource.sql.sql_data_gb_per_instance),
                    Some(DecimalValue::integer_value(12)),
                ),
                Some(rate.storage_monthly_per_gb),
            )
            &&& Some(b.storage_net) == mul_of(
                Some(b.storage_gross),
                decimal_sub(DecimalValue::integer_value(1), settings.source_storage_discount),
            )
            &&& b.hardware_annual == DecimalValue::integer_value(0)
            &&& b.electricity_annual == DecimalValue::integer_value(0)
            &&& Some(b.total) == add_of(
                add_of(add_of(Some(b.compute_net), Some(b.license_net)), Some(b.storage_net)),
                Some(DecimalValue::integer_value(0)),
            )
        },
{
}

/// An Enterprise workload's license does not depend on the standard core rate,
/// nor a Standard workload's on the enterprise core rate: two rates that differ
/// only in the other edition's core rate cost the source alike.
pub proof fn lemma_rds_license_uses_edition_rate(
    resource: RdsResource,
    rate: RdsRate,
    other: RdsRate,
    settings: ProjectSettings,
)
    requires
        other.source_vcpu == rate.source_vcpu,
        other.effective_compute_hourly == rate.effective_compute_hourly,
        other.storage_monthly_per_gb == rate.storage_monthly_per_gb,
        resource.sql.sql_edition == SqlEdition::Enterprise ==> other.enterprise_license_core_hourly
            == rate.enterprise_license_core_hourly,
        resource.sql.sql_edition == SqlEdition::Standard ==> other.standard_license_core_hourly
            == rate.standard_license_core_hourly,
    ensures
        spec_rds_source(resource, other, settings) == spec_rds_source(resource, rate, settings),
{
}

/// Savings, item by item, over the two breakdowns: each category's saving is the
/// source net amount less the Azure net amount of that category (compute against
/// compute with memory), the total saving is the source total less the Azure
/// total before parity, the required adjustment is 0 for a zero Azure total and
/// otherwise one less the source total over the Azure total, the selected
/// adjustment is the one given, Azure after it is the Azure total times one less
/// it, and the difference is that less the source total.
pub proof fn lemma_savings_items(source: SourceCostBreakdown, azure: AzureCostBreakdown, selected: DecimalValue)
    ensures
        spec_savings(source, azure, selected) matches Some(v) ==> {
            &&& Some(v.compute_savings) == decimal_sub(source.compute_net, azure.compute_plus_ram_net)
            &&& Some(v.license_savings) == decimal_sub(source.license_net, azure.license_net)
            &&& Some(v.storage_savings) == decimal_sub(source.storage_net, azure.storage_net)
            &&& Some(v.total_savings) == decimal_sub(source.total, azure.total_before_parity)
            &&& v.selected_adjustment == selected
            &&& Some(v.azure_after_selected_parity) == mul_of(
                Some(azure.total_before_parity),
                decimal_sub(DecimalValue::integer_value(1), selected),
            )
            &&& Some(v.difference) == decimal_sub(v.azure_after_selected_parity, source.total)
            &&& azure.total_before_parity.units() == 0 ==> v.required_adjustment == DecimalValue::integer_value(0)
            &&& azure.total_before_parity.units() != 0 ==> Some(v.required_adjustment) == sub_of(
                Some(DecimalValue::integer_value(1)),
                decimal_div(source.total, azure.total_before_parity),
            )
        },
{
}

/// The annual costs of an EC2 source, item by item, over the resource and the
/// rate: compute is quantity × hours × the compute rate; the SQL license is
/// nothing under BYOL and otherwise quantity × hours × the license rate of the
/// workload's edition (the enterprise rate for Enterprise, the standard rate for
/// Standard), which must be known and not negative; storage is quantity × 12 ×
/// the monthly EBS cost of the persistent volumes; each net amount is its gross
/// times one less the category's source discount; no hardware or electricity.
pub proof fn lemma_ec2_source_items(
    resource: Ec2Resource,
    rate: Ec2Rate,
    ebs_rates: Seq<EbsRate>,
    settings: ProjectSettings,
)
    ensures
        rate.compute_hourly.units() < 0 ==> spec_ec2_source(resource, rate, ebs_rates, settings) == Some(
            Err::<SourceCostBreakdown, CostError>(CostError::NegativeRate),
        ),
        ({
            let edition_rate = if resource.sql.sql_edition == SqlEdition::Enterprise {
                rate.enterprise_license_hourly
            } else {
                rate.standard_license_hourly
            };
            resource.sql.license_basis != LicenseBasis::Byol && edition_rate is None && rate.compute_hourly.units()
                >= 0 && spec_ec2_source(
                resource,
                rate,
                ebs_rates,
                settings,
            ) is Some ==> spec_ec2_source(resource, rate, ebs_rates, settings) == Some(
                Err::<SourceCostBreakdown, CostError>(CostError::MissingSourceLicenseRate),
            )
        }),
        spec_ec2_source(resource, rate, ebs_rates, settings) matches Some(Ok(b)) ==> {
            let quantity = DecimalValue::integer_value(resource.shared.quantity as int);
            let instance_hours = decimal_mul(quantity, resource.shared.annual_hours_per_instance);
            let edition_rate = if resource.sql.sql_edition == SqlEdition::Enterprise {
                rate.enterprise_license_hourly
            } else {
                rate.standard_license_hourly
            };
            &&& Some(b.compute_gross) == mul_of(instance_hours, Some(rate.compute_hourly))
            &&& Some(b.compute_net) == mul_of(
                Some(b.compute_gross),
                decimal_sub(DecimalValue::integer_value(1), settings.source_compute_discount),
            )
            &&& resource.sql.license_basis == LicenseBasis::Byol ==> Some(b.license_gross) == mul_of(
                instance_hours,
                Some(DecimalValue::integer_value(0)),
            )
            &&& resource.sql.license_basis != LicenseBasis::Byol ==> (edition_rate matches Some(r) && r.units() >= 0
                && Some(b.license_gross) == mul_of(instance_hours, Some(r)))
            &&& Some(b.license_net) == mul_of(
                Some(b.license_gross),
                decimal_sub(DecimalValue::integer_value(1), settings.source_license_discount),
            )
            &&& (ebs_storage_monthly(resource.volumes@, ebs_rates) matches Some(Ok(monthly)) && Some(b.storage_gross)
                == mul_of(decimal_mul(quantity, DecimalValue::integer_value(12)), Some(monthly)))
            &&& Some(b.storage_net) == mul_of(
                Some(b.storage_gross),
                decimal_sub(DecimalValue::integer_value(1), settings.source_storage_discount),
            )
            &&& b.hardware_annual == DecimalValue::integer_value(0)
            &&& b.electricity_annual == DecimalValue::integer_value(0)
            &&& Some(b.total) == add_of(
                add_of(add_of(Some(b.compute_net), Some(b.license_net)), Some(b.storage_net)),
                Some(DecimalValue::integer_value(0)),
            )
        },
{
}

/// The annual costs of an on-premises source, item by item: hardware is
/// quantity × capital cost ÷ depreciation years, never discounted; the license
/// is quantity × two-core packs × the pack price of the workload's edition (the
/// enterprise price for Enterprise, the standard price for Standard) × 12 ÷ the
/// remaining coverage months, then its discount; electricity is quantity × hours
/// × the power draw (the stated draw when there is one) × the electricity rate;
/// no storage; the total is hardware, license net and electricity. Missing pack
/// prices or coverage, or a missing electricity rate, refuse the source.
pub proof fn lemma_on_prem_source_items(resource: OnPremResource, settings: ProjectSettings)
    ensures
        ({
            let price = if resource.sql.sql_edition == SqlEdition::Enterprise {
                settings.enterprise_license_sa_usd_per_two_core_pack
            } else {
                settings.standard_license_sa_usd_per_two_core_pack
            };
            &&& (price is None || settings.remaining_coverage_months is None) ==> spec_on_prem_source(resource, settings)
                == Some(Err::<OnPremCostResult, CostError>(CostError::MissingOnPremLicenseSettings))
            &&& (price is Some && settings.remaining_coverage_months is Some && settings.electricity_rate_usd_per_kwh
                is None) ==> spec_on_prem_source(resource, settings) == Some(
                Err::<OnPremCostResult, CostError>(CostError::MissingElectricityRate),
            )
        }),
        spec_on_prem_source(resource, settings) matches Some(Ok(result)) ==> {
            let c = result.costs;
            let quantity = DecimalValue::integer_value(resource.shared.quantity as int);
            let price = if resource.sql.sql_edition == SqlEdition::Enterprise {
                settings.enterprise_license_sa_usd_per_two_core_pack
            } else {
                settings.standard_license_sa_usd_per_two_core_pack
            };
            let packs = DecimalValue::integer_value(result.explanation.license_pack_count as int);
            &&& Some(c.hardware_annual) == div_of(
                decimal_mul(quantity, resource.hardware_capex_usd),
                Some(resource.depreciation_years),
            )
            &&& c.compute_gross == c.hardware_annual
            &&& c.compute_net == c.hardware_annual
            &&& (price matches Some(p) && settings.remaining_coverage_months matches Some(months) && Some(c.license_gross)
                == div_of(
                mul_of(mul_of(decimal_mul(quantity, packs), Some(p)), Some(DecimalValue::integer_value(12))),
                Some(DecimalValue::integer_value(months as int)),
            ))
            &&& Some(c.license_net) == mul_of(
                Some(c.license_gross),
                decimal_sub(DecimalValue::integer_value(1), settings.source_license_discount),
            )
            &&& (resource.average_power_kw_override matches Some(p) ==> result.explanation.effective_power_kw == p)
            &&& Some(result.explanation.annual_kwh) == mul_of(
                decimal_mul(quantity, resource.shared.annual_hours_per_instance),
                Some(result.explanation.effective_power_kw),
            )
            &&& (settings.electricity_rate_usd_per_kwh matches Some(e) && Some(c.electricity_annual) == decimal_mul(
                result.explanation.annual_kwh,
                e,
            ))
            &&& c.storage_gross == DecimalValue::integer_value(0)
            &&& c.storage_net == DecimalValue::integer_value(0)
            &&& Some(c.total) == add_of(
                add_of(add_of(Some(c.compute_net), Some(c.license_net)), Some(c.storage_net)),
                Some(c.electricity_annual),
            )
        },
{
}

/// License + SA packs cover the licensable cores in pairs, at least four cores:
/// twice the pack count is the least even number not below the cores (or four).
pub proof fn lemma_license_packs(licensable_cores: u32)
    ensures
        2 * spec_license_pack_count(licensable_cores) >= licensable_cores,
        2 * spec_license_pack_count(licensable_cores) >= 4,
        2 * spec_license_pack_count(licensable_cores) <= (if licensable_cores >= 4 {
            licensable_cores as int
        } else {
            4
        }) + 1,
{
}

/// The annual costs of a managed-instance target, item by item: compute is
/// quantity × hours × the compute rate; the extra memory is the selected memory
/// beyond what the configuration includes (never below zero), charged at quantity
/// × hours × that memory × the memory rate; compute with memory is their sum times
/// one less the Azure compute discount; the license is quantity × hours × the
/// license rate, then its discount; storage is quantity × the storage beyond the
/// included 32 GB (never below zero) × 12 × the monthly rate, then its discount;
/// the total before parity is compute with memory, license and storage net. A
/// negative rate refuses the target.
pub proof fn lemma_azure_items(
    quantity: u32,
    annual_hours: DecimalValue,
    azure_storage_gb_per_instance: DecimalValue,
    included_memory_gb: DecimalValue,
    selected_memory_gb: DecimalValue,
    rate: AzureRate,
    settings: ProjectSettings,
)
    ensures
        rate.compute_hourly.units() < 0 || rate.license_hourly.units() < 0 || rate.storage_monthly_per_gb.units() < 0
            || rate.additional_memory_per_gb_hourly.units() < 0 ==> spec_azure(
            quantity,
            annual_hours,
            azure_storage_gb_per_instance,
            included_memory_gb,
            selected_memory_gb,
            rate,
            settings,
        ) == Some(Err::<AzureCostBreakdown, CostError>(CostError::NegativeRate)),
        spec_azure(
            quantity,
            annual_hours,
            azure_storage_gb_per_instance,
            included_memory_gb,
            selected_memory_gb,
            rate,
            settings,
        ) matches Some(Ok(b)) ==> {
            let q = DecimalValue::integer_value(quantity as int);
            let instance_hours = decimal_mul(q, annual_hours);
            &&& Some(b.compute_gross) == mul_of(instance_hours, Some(rate.compute_hourly))
            &&& Some(b.additional_ram_gb) == max_of(
                decimal_sub(selected_memory_gb, included_memory_gb),
                Some(DecimalValue::integer_value(0)),
            )
            &&& Some(b.additional_ram_gross) == mul_of(
                mul_of(instance_hours, Some(b.additional_ram_gb)),
                Some(rate.additional_memory_per_gb_hourly),
            )
            &&& Some(b.compute_plus_ram_net) == mul_of(
                decimal_add(b.compute_gross, b.additional_ram_gross),
                decimal_sub(DecimalValue::integer_value(1), settings.azure_compute_discount),
            )
            &&& Some(b.license_gross) == mul_of(instance_hours, Some(rate.license_hourly))
            &&& Some(b.license_net) == mul_of(
                Some(b.license_gross),
                decimal_sub(DecimalValue::integer_value(1), settings.azure_license_discount),
            )
            &&& Some(b.storage_gross) == mul_of(
                mul_of(
                    mul_of(
                        Some(q),
                        max_of(
                            decimal_sub(
                                azure_storage_gb_per_instance,
                                DecimalValue::integer_value(AZURE_MI_STORAGE_UNIT_GB as int),
                            ),
                            Some(DecimalValue::integer_value(0)),
                        ),
                    ),
                    Some(DecimalValue::integer_value(12)),
                ),
                Some(rate.storage_monthly_per_gb),
            )
            &&& Some(b.storage_net) == mul_of(
                Some(b.storage_gross),
                decimal_sub(DecimalValue::integer_value(1), settings.azure_storage_discount),
            )
            &&& Some(b.total_before_parity) == add_of(
                add_of(Some(b.compute_plus_ram_net), Some(b.license_net)),
                Some(b.storage_net),
            )
        },
{
}

/// The monthly price of a volume, item by item: an ephemeral volume costs
/// nothing; otherwise the capacity × the per-GB rate, plus the IOPS above the
/// rate's included IOPS (at the per-IOPS rate, or through the tiers for io2),
/// plus the throughput above the included throughput (never below zero) at the
/// per-MiB/s rate. A volume without provisioned IOPS, or a negative capacity
/// rate, is refused.
pub proof fn lemma_volume_monthly_items(
    volume_type: EbsVolumeType,
    capacity_gb: DecimalValue,
    provisioned_iops: Option<u64>,
    throughput_mibps: Option<DecimalValue>,
    rate: EbsRate,
)
    ensures
        volume_type == EbsVolumeType::Ephemeral ==> spec_volume_monthly(
            volume_type,
            capacity_gb,
            provisioned_iops,
            throughput_mibps,
            rate,
        ) == Some(Ok::<DecimalValue, CostError>(DecimalValue::integer_value(0))),
        volume_type != EbsVolumeType::Ephemeral && rate.capacity_monthly_per_gb.units() < 0 ==> spec_volume_monthly(
            volume_type,
            capacity_gb,
            provisioned_iops,
            throughput_mibps,
            rate,
        ) == Some(Err::<DecimalValue, CostError>(CostError::NegativeRate)),
        volume_type != EbsVolumeType::Ephemeral && rate.capacity_monthly_per_gb.units() >= 0 && provisioned_iops is None
            ==> spec_volume_monthly(volume_type, capacity_gb, provisioned_iops, throughput_mibps, rate) == Some(
            Err::<DecimalValue, CostError>(CostError::MissingProvisionedIops),
        ),
        spec_volume_monthly(volume_type, capacity_gb, provisioned_iops, throughput_mibps, rate) matches Some(
            Ok(total),
        ) ==> volume_type != EbsVolumeType::Ephemeral ==> {
            let iops = provisioned_iops.unwrap();
            let billable: int = if iops >= rate.included_iops { iops - rate.included_iops } else { 0 };
            let throughput = match throughput_mibps {
                Some(t) => max_of(decimal_sub(t, rate.included_throughput_mibps), Some(DecimalValue::integer_value(0))),
                None => Some(DecimalValue::integer_value(0)),
            };
            &&& throughput is Some
            &&& exists|capacity: DecimalValue, iops_cost: DecimalValue, throughput_cost: DecimalValue|
                #![trigger add_of(decimal_add(capacity, iops_cost), Some(throughput_cost))]
                {
                    &&& decimal_mul(capacity_gb, rate.capacity_monthly_per_gb) == Some(capacity)
                    &&& (rate.volume_type == EbsVolumeType::Io2 ==> spec_tiered_iops_cost(
                        billable as u64,
                        rate.iops_tiers@,
                    ) == Some(Ok::<DecimalValue, CostError>(iops_cost)))
                    &&& rate.volume_type != EbsVolumeType::Io2 ==> (rate.iops_monthly_per_unit matches Some(r) ==> Some(
                        iops_cost,
                    ) == decimal_mul(DecimalValue::integer_value(billable), r))
                    &&& (rate.volume_type != EbsVolumeType::Io2 && rate.iops_monthly_per_unit is None) ==> billable == 0
                        && iops_cost == DecimalValue::integer_value(0)
                    &&& (rate.throughput_monthly_per_mibps matches Some(r) ==> Some(throughput_cost) == decimal_mul(
                        throughput.unwrap(),
                        r,
                    ))
                    &&& (rate.throughput_monthly_per_mibps is None ==> throughput_cost == DecimalValue::integer_value(0))
                    &&& Some(total) == add_of(decimal_add(capacity, iops_cost), Some(throughput_cost))
                }
        },
{
    if volume_type != EbsVolumeType::Ephemeral {
        match spec_volume_monthly(volume_type, capacity_gb, provisioned_iops, throughput_mibps, rate) {
            Some(Ok(total)) => {
                let iops = provisioned_iops.unwrap();
                let capacity = decimal_mul(capacity_gb, rate.capacity_monthly_per_gb).unwrap();
                let billable = if iops >= rate.included_iops { (iops - rate.included_iops) as u64 } else { 0u64 };
                let iops_cost: Outcome<DecimalValue> = if rate.volume_type == EbsVolumeType::Io2 {
                    spec_tiered_iops_cost(billable, rate.iops_tiers@)
                } else {
                    match rate.iops_monthly_per_unit {
                        Some(iops_rate) => priced(iops_rate, decimal_mul(dec(billable as int), iops_rate)),
                        None => if billable == 0 {
                            Some(Ok(dec(0)))
                        } else {
                            Some(Err(CostError::MissingEbsRate(rate.volume_type)))
                        },
                    }
                };
                let ic = iops_cost.unwrap().get_Ok_0();
                let throughput = match throughput_mibps {
                    None => Some(dec(0)),
                    Some(t) => max_of(decimal_sub(t, rate.included_throughput_mibps), Some(dec(0))),
                };
                let tp = throughput.unwrap();
                let throughput_cost: Outcome<DecimalValue> = match rate.throughput_monthly_per_mibps {
                    Some(throughput_rate) => priced(throughput_rate, decimal_mul(tp, throughput_rate)),
                    None => if rate.volume_type == EbsVolumeType::Io2 || tp.units() == 0 {
                        Some(Ok(dec(0)))
                    } else {
                        Some(Err(CostError::MissingEbsRate(rate.volume_type)))
                    },
                };
                let tc = throughput_cost.unwrap().get_Ok_0();
                assert(Some(total) == add_of(decimal_add(capacity, ic), Some(tc)));
            },
            _ => {},
        }
    }
}

/// IOPS within the first tier are all priced at the first tier's rate; no
/// billable IOPS cost nothing.
pub proof fn lemma_tiered_first_tier(iops: u64, tiers: Seq<IopsPriceTier>)
    ensures
        spec_tiered_iops_cost(0, tiers) == Some(Ok::<DecimalValue, CostError>(DecimalValue::integer_value(0))),
        (iops > 0 && tiers.len() > 0 && tiers[0].monthly_per_iops.units() >= 0 && (tiers[0].up_to_inclusive matches Some(
            limit,
        ) ==> 0 < iops <= limit)) ==> spec_tiered_iops_cost(iops, tiers) == (match add_of(
            Some(DecimalValue::integer_value(0)),
            decimal_mul(DecimalValue::integer_value(iops as int), tiers[0].monthly_per_iops),
        ) {
            Some(t) => Some(Ok::<DecimalValue, CostError>(t)),
            None => None,
        }),
{
}

/// The estimated power draw of an on-premises server: 0.1 kW, plus 0.0125 kW per
/// vCPU, plus 0.000375 kW per GB of RAM, plus 0.01 kW per TiB (1,024 GB) of SQL
/// data; the estimate is used unless a draw is stated.
pub proof fn lemma_estimated_power(resource: OnPremResource, settings: ProjectSettings)
    ensures
        spec_estimated_power_kw(resource) == add_of(
            add_of(
                add_of(
                    Some(DecimalValue::literal(100, 3)),
                    decimal_mul(DecimalValue::literal(125, 4), DecimalValue::integer_value(resource.source_vcpu as int)),
                ),
                decimal_mul(DecimalValue::literal(375, 6), resource.shared.source_ram_gb_per_instance),
            ),
            div_of(
                decimal_mul(DecimalValue::literal(10, 3), resource.sql.sql_data_gb_per_instance),
                Some(DecimalValue::integer_value(1024)),
            ),
        ),
        spec_on_prem_source(resource, settings) matches Some(Ok(result)) ==> (
        resource.average_power_kw_override is None ==> Some(result.explanation.effective_power_kw)
            == spec_estimated_power_kw(resource)) && Some(result.explanation.estimated_power_kw)
            == spec_estimated_power_kw(resource),
{
}

} // verus!
