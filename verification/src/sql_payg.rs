use vstd::prelude::*;

use crate::decimal::{
    add_of, decimal_div, decimal_mul, decimal_sub, int_units, lemma_pow10_positive, lemma_unit_value, mul_of, mul_opt,
    spec_max, sub_of, sub_opt, DecimalValue,
};

verus! {

pub const RATE_SOURCE_URL: &'static str = "https://prices.azure.com/api/retail/prices";

pub const RATE_VERIFIED_ON: &'static str = "2026-08-07";

pub const MAX_ANNUAL_HOURS: u32 = 8_784;

pub const ENTERPRISE_RATE_MANTISSA: i64 = 375;

pub const STANDARD_RATE_MANTISSA: i64 = 100;

pub const RATE_SCALE: u32 = 3;

#[derive(Clone, Copy, Debug)]
pub struct SqlPaygInput {
    pub enterprise_licensed_cores: u32,
    pub standard_licensed_cores: u32,
    pub software_assurance_annual_usd: DecimalValue,
    pub annual_hours: DecimalValue,
    pub applied_payg_discount: DecimalValue,
}

#[derive(Clone, Copy, Debug, PartialEq, Eq, Structural)]
pub enum SqlPaygOutcome {
    NoDiscountNeeded,
    DiscountRequired,
    FullDiscountRequired,
}

/// Pay-as-you-go SQL licensing compared with annual Software Assurance.
#[derive(Clone, Debug)]
pub struct SqlPaygAnalysis {
    pub enterprise_licensed_cores: u32,
    pub standard_licensed_cores: u32,
    pub software_assurance_annual_usd: DecimalValue,
    pub annual_hours: DecimalValue,
    pub enterprise_payg_usd_per_core_hour: DecimalValue,
    pub standard_payg_usd_per_core_hour: DecimalValue,
    pub payg_gross_annual_usd: DecimalValue,
    pub required_payg_discount: DecimalValue,
    pub payg_at_breakeven_usd: DecimalValue,
    pub applied_payg_discount: DecimalValue,
    pub payg_net_annual_usd: DecimalValue,
    pub annual_savings_usd: DecimalValue,
    pub outcome: SqlPaygOutcome,
    pub rate_source_url: String,
    pub rate_verified_on: String,
}

#[derive(Clone, Copy, Debug, PartialEq, Eq, Structural)]
pub enum SqlPaygError {
    NoLicensedCores,
    NegativeSoftwareAssurance,
    AnnualHoursOutOfRange,
    AppliedDiscountOutOfRange,
}

impl SqlPaygError {
    /// The error's message as text.
    pub open spec fn spec_message(&self) -> Seq<char> {
        match self {
            SqlPaygError::NoLicensedCores => "at least one SQL Server licensed core is required"@,
            SqlPaygError::NegativeSoftwareAssurance => "annual Software Assurance spend must not be negative"@,
            SqlPaygError::AnnualHoursOutOfRange => "annual usage hours must be between 0 and 8,784"@,
            SqlPaygError::AppliedDiscountOutOfRange => "applied PAYG discount must be between 0 and 1"@,
        }
    }

    /// The error's message.
    pub fn message(&self) -> (r: &'static str)
        ensures
            r@ == self.spec_message(),
    {
        match self {
            SqlPaygError::NoLicensedCores => "at least one SQL Server licensed core is required",
            SqlPaygError::NegativeSoftwareAssurance => "annual Software Assurance spend must not be negative",
            SqlPaygError::AnnualHoursOutOfRange => "annual usage hours must be between 0 and 8,784",
            SqlPaygError::AppliedDiscountOutOfRange => "applied PAYG discount must be between 0 and 1",
        }
    }
}

/// The error an input is refused with, if any.
pub open spec fn spec_payg_error(input: SqlPaygInput) -> Option<SqlPaygError> {
    if input.enterprise_licensed_cores == 0 && input.standard_licensed_cores == 0 {
        Some(SqlPaygError::NoLicensedCores)
    } else if input.software_assurance_annual_usd.units() < 0 {
        Some(SqlPaygError::NegativeSoftwareAssurance)
    } else if input.annual_hours.units() < 0 || input.annual_hours.units() > int_units(MAX_ANNUAL_HOURS as int) {
        Some(SqlPaygError::AnnualHoursOutOfRange)
    } else if !input.applied_payg_discount.spec_is_percent() {
        Some(SqlPaygError::AppliedDiscountOutOfRange)
    } else {
        None
    }
}

pub open spec fn enterprise_rate() -> DecimalValue {
    DecimalValue::literal(ENTERPRISE_RATE_MANTISSA as int, RATE_SCALE as int)
}

pub open spec fn standard_rate() -> DecimalValue {
    DecimalValue::literal(STANDARD_RATE_MANTISSA as int, RATE_SCALE as int)
}

/// The figures of an analysis: (PAYG gross per year, required discount, PAYG at
/// break-even, PAYG net per year, savings per year, outcome).
pub type PaygFigures = (DecimalValue, DecimalValue, DecimalValue, DecimalValue, DecimalValue, SqlPaygOutcome);

/// PAYG per year is the cores at their hourly rates times the hours; the
/// required discount is what makes PAYG cost what Software Assurance costs
/// (never below zero, and all of it when Software Assurance costs nothing);
/// the savings are Software Assurance less PAYG after the applied discount.
/// `None` where an amount is beyond what the decimal type holds.
pub open spec fn spec_payg_figures(input: SqlPaygInput) -> Option<PaygFigures> {
    let sa = input.software_assurance_annual_usd;
    let hourly = add_of(
        decimal_mul(DecimalValue::integer_value(input.enterprise_licensed_cores as int), enterprise_rate()),
        decimal_mul(DecimalValue::integer_value(input.standard_licensed_cores as int), standard_rate()),
    );
    match mul_of(hourly, Some(input.annual_hours)) {
        None => None,
        Some(gross) => {
            let raw = if gross.units() == 0 {
                Some(DecimalValue::integer_value(0))
            } else {
                sub_of(Some(DecimalValue::integer_value(1)), decimal_div(sa, gross))
            };
            match raw {
                None => None,
                Some(raw) => {
                    let required = spec_max(raw, DecimalValue::integer_value(0));
                    let outcome = if raw.units() <= 0 {
                        SqlPaygOutcome::NoDiscountNeeded
                    } else if required.units() == int_units(1) {
                        SqlPaygOutcome::FullDiscountRequired
                    } else {
                        SqlPaygOutcome::DiscountRequired
                    };
                    let breakeven = if raw.units() <= 0 { gross } else { sa };
                    let net = mul_of(Some(gross), decimal_sub(DecimalValue::integer_value(1), input.applied_payg_discount));
                    let savings = sub_of(Some(sa), net);
                    if savings is Some {
                        Some((gross, required, breakeven, net.unwrap(), savings.unwrap(), outcome))
                    } else {
                        None
                    }
                },
            }
        },
    }
}

/// The analysis reports the input, the rates, and the figures.
pub open spec fn analysis_matches(a: SqlPaygAnalysis, input: SqlPaygInput, figures: PaygFigures) -> bool {
    &&& a.enterprise_licensed_cores == input.enterprise_licensed_cores
    &&& a.standard_licensed_cores == input.standard_licensed_cores
    &&& a.software_assurance_annual_usd == input.software_assurance_annual_usd
    &&& a.annual_hours == input.annual_hours
    &&& a.enterprise_payg_usd_per_core_hour == enterprise_rate()
    &&& a.standard_payg_usd_per_core_hour == standard_rate()
    &&& a.payg_gross_annual_usd == figures.0
    &&& a.required_payg_discount == figures.1
    &&& a.payg_at_breakeven_usd == figures.2
    &&& a.applied_payg_discount == input.applied_payg_discount
    &&& a.payg_net_annual_usd == figures.3
    &&& a.annual_savings_usd == figures.4
    &&& a.outcome == figures.5
    &&& a.rate_source_url@ == RATE_SOURCE_URL@
    &&& a.rate_verified_on@ == RATE_VERIFIED_ON@
}

fn payg_error(input: SqlPaygInput) -> (r: Option<SqlPaygError>)
    ensures
        r == spec_payg_error(input),
{
    if input.enterprise_licensed_cores == 0 && input.standard_licensed_cores == 0 {
        return Some(SqlPaygError::NoLicensedCores);
    }
    let zero = DecimalValue::zero();
    if input.software_assurance_annual_usd.lt(&zero) {
        return Some(SqlPaygError::NegativeSoftwareAssurance);
    }
    if input.annual_hours.lt(&zero) || DecimalValue::from_u32(MAX_ANNUAL_HOURS).lt(&input.annual_hours) {
        return Some(SqlPaygError::AnnualHoursOutOfRange);
    }
    if !input.applied_payg_discount.is_percent() {
        return Some(SqlPaygError::AppliedDiscountOutOfRange);
    }
    None
}

/// Compares PAYG SQL licensing with annual Software Assurance; `None` where an
/// amount is beyond what the decimal type holds.
pub fn calculate_checked(input: SqlPaygInput) -> (r: Option<Result<SqlPaygAnalysis, SqlPaygError>>)
    ensures
        match spec_payg_error(input) {
            Some(e) => r == Some(Err::<SqlPaygAnalysis, SqlPaygError>(e)),
            None => match spec_payg_figures(input) {
                Some(figures) => r matches Some(Ok(a)) && analysis_matches(a, input, figures),
                None => r is None,
            },
        },
        r matches Some(Ok(a)) ==> 0 <= a.required_payg_discount.units() <= int_units(1),
{
    match payg_error(input) {
        Some(e) => {
            return Some(Err(e));
        },
        None => {},
    }
    let enterprise = DecimalValue::new(ENTERPRISE_RATE_MANTISSA, RATE_SCALE);
    let standard = DecimalValue::new(STANDARD_RATE_MANTISSA, RATE_SCALE);
    let sa = input.software_assurance_annual_usd;
    let enterprise_cores = DecimalValue::from_u32(input.enterprise_licensed_cores);
    let standard_cores = DecimalValue::from_u32(input.standard_licensed_cores);
    proof {
        lemma_unit_value();
        lemma_pow10_positive(25);
        enterprise.lemma_units();
        standard.lemma_units();
        let e = enterprise_cores.units();
        let s = standard_cores.units();
        let er = enterprise.units();
        let sr = standard.units();
        assert(e * er >= 0 && s * sr >= 0) by (nonlinear_arith)
            requires
                e == input.enterprise_licensed_cores * 10000000000000000000000000000,
                s == input.standard_licensed_cores * 10000000000000000000000000000,
                er >= 0,
                sr >= 0,
                input.enterprise_licensed_cores >= 0,
                input.standard_licensed_cores >= 0,
        ;
    }
    let hourly = match (enterprise_cores.checked_mul(enterprise), standard_cores.checked_mul(standard)) {
        (Some(e), Some(s)) => e.checked_add(s),
        _ => None,
    };
    let gross = match hourly {
        Some(h) => {
            proof {
                let hu = h.units();
                let au = input.annual_hours.units();
                assert(hu * au >= 0) by (nonlinear_arith)
                    requires
                        hu >= 0,
                        au >= 0,
                ;
            }
            match h.checked_mul(input.annual_hours) {
                Some(g) => g,
                None => {
                    return None;
                },
            }
        },
        None => {
            return None;
        },
    };
    let one = DecimalValue::one();
    let zero = DecimalValue::zero();
    let raw = if gross.is_zero() {
        Some(zero)
    } else {
        proof {
            let su = sa.units();
            let gu = gross.units();
            assert(su * gu >= 0) by (nonlinear_arith)
                requires
                    su >= 0,
                    gu >= 0,
            ;
        }
        match sa.checked_div(gross) {
            Some(q) => {
                proof {
                    q.lemma_complement_representable();
                }
                one.checked_sub(q)
            },
            None => None,
        }
    };
    let raw = match raw {
        Some(v) => v,
        None => {
            return None;
        },
    };
    let required = raw.max(zero);
    let raw_not_positive = raw.le(&zero);
    let outcome = if raw_not_positive {
        SqlPaygOutcome::NoDiscountNeeded
    } else if required.same_value(&one) {
        SqlPaygOutcome::FullDiscountRequired
    } else {
        SqlPaygOutcome::DiscountRequired
    };
    let breakeven = if raw_not_positive { gross } else { sa };
    let net = mul_opt(Some(gross), one.checked_sub(input.applied_payg_discount));
    let savings = sub_opt(Some(sa), net);
    match (net, savings) {
        (Some(net), Some(savings)) => Some(
            Ok(
                SqlPaygAnalysis {
                    enterprise_licensed_cores: input.enterprise_licensed_cores,
                    standard_licensed_cores: input.standard_licensed_cores,
                    software_assurance_annual_usd: sa,
                    annual_hours: input.annual_hours,
                    enterprise_payg_usd_per_core_hour: enterprise,
                    standard_payg_usd_per_core_hour: standard,
                    payg_gross_annual_usd: gross,
                    required_payg_discount: required,
                    payg_at_breakeven_usd: breakeven,
                    applied_payg_discount: input.applied_payg_discount,
                    payg_net_annual_usd: net,
                    annual_savings_usd: savings,
                    outcome,
                    rate_source_url: RATE_SOURCE_URL.to_owned(),
                    rate_verified_on: RATE_VERIFIED_ON.to_owned(),
                },
            ),
        ),
        _ => None,
    }
}

/// Compares PAYG SQL licensing with annual Software Assurance.
pub fn calculate(input: SqlPaygInput) -> (r: Result<SqlPaygAnalysis, SqlPaygError>)
    requires
        spec_payg_error(input) is None ==> spec_payg_figures(input) is Some,
    ensures
        match spec_payg_error(input) {
            Some(e) => r == Err::<SqlPaygAnalysis, SqlPaygError>(e),
            None => r matches Ok(a) && analysis_matches(a, input, spec_payg_figures(input).unwrap()),
        },
        r matches Ok(a) ==> 0 <= a.required_payg_discount.units() <= int_units(1),
{
    calculate_checked(input).unwrap()
}

/// The required discount is never negative and is all of PAYG exactly when
/// the outcome says so; when a discount is needed, PAYG breaks even at the
/// Software Assurance spend; the savings are Software Assurance less net PAYG.
pub proof fn lemma_payg_outcomes(input: SqlPaygInput)
    ensures
        spec_payg_figures(input) matches Some(f) ==> {
            &&& f.1.units() >= 0
            &&& (f.5 == SqlPaygOutcome::NoDiscountNeeded ==> f.1.units() == 0 && f.2 == f.0)
            &&& (f.5 == SqlPaygOutcome::FullDiscountRequired ==> f.1.units() == int_units(1))
            &&& (f.5 != SqlPaygOutcome::NoDiscountNeeded ==> f.2 == input.software_assurance_annual_usd)
            &&& Some(f.4) == decimal_sub(input.software_assurance_annual_usd, f.3)
        },
{
    DecimalValue::lemma_integer_units(0);
}

/// The PAYG figures over the input: PAYG per year is (enterprise cores × 0.375
/// + standard cores × 0.100 USD per core-hour) × the annual hours; the net PAYG
/// is that times one less the applied discount; the savings are Software
/// Assurance less the net PAYG; the required discount is nothing when PAYG costs
/// nothing, and otherwise one less Software Assurance over PAYG, never below
/// zero; no discount is needed exactly when that is not positive.
pub proof fn lemma_payg_items(input: SqlPaygInput)
    ensures
        spec_payg_figures(input) matches Some(f) ==> {
            let gross = f.0;
            &&& Some(gross) == mul_of(
                add_of(
                    decimal_mul(
                        DecimalValue::integer_value(input.enterprise_licensed_cores as int),
                        DecimalValue::literal(375, 3),
                    ),
                    decimal_mul(
                        DecimalValue::integer_value(input.standard_licensed_cores as int),
                        DecimalValue::literal(100, 3),
                    ),
                ),
                Some(input.annual_hours),
            )
            &&& Some(f.3) == mul_of(
                Some(gross),
                decimal_sub(DecimalValue::integer_value(1), input.applied_payg_discount),
            )
            &&& Some(f.4) == decimal_sub(input.software_assurance_annual_usd, f.3)
            &&& gross.units() == 0 ==> f.1.units() == 0 && f.5 == SqlPaygOutcome::NoDiscountNeeded
            &&& gross.units() != 0 ==> exists|raw: DecimalValue|
                #[trigger] sub_of(
                    Some(DecimalValue::integer_value(1)),
                    decimal_div(input.software_assurance_annual_usd, gross),
                ) == Some(raw) && f.1 == spec_max(raw, DecimalValue::integer_value(0)) && (f.5
                    == SqlPaygOutcome::NoDiscountNeeded <==> raw.units() <= 0)
        },
{
    DecimalValue::lemma_integer_units(0);
}

/// Annual hours as a saved analysis holds them: a decimal, or an integer in
/// analyses saved before hours became decimal.
#[derive(Clone, Copy, Debug)]
pub enum AnnualHoursWire {
    Decimal(DecimalValue),
    LegacyInteger(u32),
}

/// The hours a saved analysis holds.
pub fn annual_hours_from_wire(value: AnnualHoursWire) -> (r: DecimalValue)
    ensures
        match value {
            AnnualHoursWire::Decimal(hours) => r == hours,
            AnnualHoursWire::LegacyInteger(hours) => r.units() == int_units(hours as int),
        },
{
    match value {
        AnnualHoursWire::Decimal(hours) => hours,
        AnnualHoursWire::LegacyInteger(hours) => DecimalValue::from_u32(hours),
    }
}

/// A saved analysis as it was stored: analyses saved before discounts were
/// applied carry no applied discount, net amount or savings.
#[derive(Clone, Debug)]
pub struct SqlPaygAnalysisWire {
    pub enterprise_licensed_cores: u32,
    pub standard_licensed_cores: u32,
    pub software_assurance_annual_usd: DecimalValue,
    pub annual_hours: AnnualHoursWire,
    pub enterprise_payg_usd_per_core_hour: DecimalValue,
    pub standard_payg_usd_per_core_hour: DecimalValue,
    pub payg_gross_annual_usd: DecimalValue,
    pub required_payg_discount: DecimalValue,
    pub payg_at_breakeven_usd: DecimalValue,
    pub applied_payg_discount: Option<DecimalValue>,
    pub payg_net_annual_usd: Option<DecimalValue>,
    pub annual_savings_usd: Option<DecimalValue>,
    pub outcome: SqlPaygOutcome,
    pub rate_source_url: String,
    pub rate_verified_on: String,
}

/// The net PAYG amount a saved analysis stands for: the gross amount where none was saved.
pub open spec fn wire_net(value: SqlPaygAnalysisWire) -> DecimalValue {
    match value.payg_net_annual_usd {
        Some(net) => net,
        None => value.payg_gross_annual_usd,
    }
}

/// Reads a saved analysis: a missing applied discount is zero, a missing net
/// amount is the gross amount, and missing savings are the Software Assurance
/// spend less the net amount. `None` where that difference has no decimal value.
pub fn analysis_from_wire(value: SqlPaygAnalysisWire) -> (r: Option<SqlPaygAnalysis>)
    ensures
        match r {
            Some(a) => {
                &&& a.enterprise_licensed_cores == value.enterprise_licensed_cores
                &&& a.standard_licensed_cores == value.standard_licensed_cores
                &&& a.software_assurance_annual_usd == value.software_assurance_annual_usd
                &&& a.enterprise_payg_usd_per_core_hour == value.enterprise_payg_usd_per_core_hour
                &&& a.standard_payg_usd_per_core_hour == value.standard_payg_usd_per_core_hour
                &&& a.payg_gross_annual_usd == value.payg_gross_annual_usd
                &&& a.required_payg_discount == value.required_payg_discount
                &&& a.payg_at_breakeven_usd == value.payg_at_breakeven_usd
                &&& a.applied_payg_discount == (match value.applied_payg_discount {
                    Some(d) => d,
                    None => DecimalValue::integer_value(0),
                })
                &&& a.payg_net_annual_usd == wire_net(value)
                &&& (match value.annual_savings_usd {
                    Some(s) => a.annual_savings_usd == s,
                    None => Some(a.annual_savings_usd) == sub_of(
                        Some(value.software_assurance_annual_usd),
                        Some(wire_net(value)),
                    ),
                })
                &&& a.outcome == value.outcome
                &&& a.rate_source_url@ == value.rate_source_url@
                &&& a.rate_verified_on@ == value.rate_verified_on@
                &&& (match value.annual_hours {
                    AnnualHoursWire::Decimal(hours) => a.annual_hours == hours,
                    AnnualHoursWire::LegacyInteger(hours) => a.annual_hours.units() == int_units(hours as int),
                })
            },
            None => value.annual_savings_usd is None && sub_of(
                Some(value.software_assurance_annual_usd),
                Some(wire_net(value)),
            ) is None,
        },
{
    let payg_net_annual_usd = match value.payg_net_annual_usd {
        Some(net) => net,
        None => value.payg_gross_annual_usd,
    };
    let annual_savings_usd = match value.annual_savings_usd {
        Some(savings) => savings,
        None => match value.software_assurance_annual_usd.checked_sub(payg_net_annual_usd) {
            Some(savings) => savings,
            None => {
                return None;
            },
        },
    };
    let applied_payg_discount = match value.applied_payg_discount {
        Some(d) => d,
        None => DecimalValue::zero(),
    };
    Some(
        SqlPaygAnalysis {
            enterprise_licensed_cores: value.enterprise_licensed_cores,
            standard_licensed_cores: value.standard_licensed_cores,
            software_assurance_annual_usd: value.software_assurance_annual_usd,
            annual_hours: annual_hours_from_wire(value.annual_hours),
            enterprise_payg_usd_per_core_hour: value.enterprise_payg_usd_per_core_hour,
            standard_payg_usd_per_core_hour: value.standard_payg_usd_per_core_hour,
            payg_gross_annual_usd: value.payg_gross_annual_usd,
            required_payg_discount: value.required_payg_discount,
            payg_at_breakeven_usd: value.payg_at_breakeven_usd,
            applied_payg_discount,
            payg_net_annual_usd,
            annual_savings_usd,
            outcome: value.outcome,
            rate_source_url: value.rate_source_url,
            rate_verified_on: value.rate_verified_on,
        },
    )
}

} // verus!
