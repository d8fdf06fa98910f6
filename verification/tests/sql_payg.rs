use azure_sql_tco::decimal::DecimalValue;
use azure_sql_tco::sql_payg::{
    analysis_from_wire, calculate, AnnualHoursWire, SqlPaygAnalysisWire, SqlPaygError, SqlPaygInput, SqlPaygOutcome,
    RATE_SOURCE_URL, RATE_VERIFIED_ON,
};

fn decimal(value: &str) -> DecimalValue {
    DecimalValue::parse(value).expect("test decimal should be valid")
}

#[test]
fn discount_equalizes_always_on_payg_with_annual_sa() {
    let analysis = calculate(SqlPaygInput {
        enterprise_licensed_cores: 8,
        standard_licensed_cores: 16,
        software_assurance_annual_usd: decimal("20000"),
        annual_hours: decimal("8760"),
        applied_payg_discount: DecimalValue::zero(),
    })
    .expect("input should be valid");

    assert_eq!(analysis.payg_gross_annual_usd, decimal("40296.000"));
    assert_eq!(analysis.outcome, SqlPaygOutcome::DiscountRequired);
    assert_eq!(analysis.payg_at_breakeven_usd, decimal("20000"));
    assert_eq!(analysis.required_payg_discount, decimal("0.5036728211236847329759777645"));
}

#[test]
fn no_discount_is_needed_when_sa_exceeds_payg() {
    let analysis = calculate(SqlPaygInput {
        enterprise_licensed_cores: 4,
        standard_licensed_cores: 0,
        software_assurance_annual_usd: decimal("20000"),
        annual_hours: decimal("8760"),
        applied_payg_discount: DecimalValue::zero(),
    })
    .expect("input should be valid");

    assert_eq!(analysis.required_payg_discount, DecimalValue::zero());
    assert_eq!(analysis.outcome, SqlPaygOutcome::NoDiscountNeeded);
    assert_eq!(analysis.payg_at_breakeven_usd, decimal("13140.000"));
}

#[test]
fn zero_sa_requires_a_full_discount() {
    let analysis = calculate(SqlPaygInput {
        enterprise_licensed_cores: 0,
        standard_licensed_cores: 4,
        software_assurance_annual_usd: DecimalValue::zero(),
        annual_hours: decimal("8760"),
        applied_payg_discount: DecimalValue::zero(),
    })
    .expect("input should be valid");

    assert_eq!(analysis.required_payg_discount, decimal("1"));
    assert_eq!(analysis.outcome, SqlPaygOutcome::FullDiscountRequired);
    assert_eq!(analysis.payg_at_breakeven_usd, DecimalValue::zero());
}

#[test]
fn applies_monthly_utilization_and_discount_to_signed_savings() {
    let analysis = calculate(SqlPaygInput {
        enterprise_licensed_cores: 8,
        standard_licensed_cores: 16,
        software_assurance_annual_usd: decimal("20000"),
        annual_hours: decimal("1920"),
        applied_payg_discount: decimal("0.25"),
    })
    .expect("input should be valid");

    assert_eq!(analysis.annual_hours, decimal("1920"));
    assert_eq!(analysis.payg_gross_annual_usd, decimal("8832.000"));
    assert_eq!(analysis.payg_net_annual_usd, decimal("6624.00000"));
    assert_eq!(analysis.annual_savings_usd, decimal("13376.00000"));
}

#[test]
fn reports_negative_savings_when_net_payg_exceeds_sa() {
    let analysis = calculate(SqlPaygInput {
        enterprise_licensed_cores: 8,
        standard_licensed_cores: 16,
        software_assurance_annual_usd: decimal("5000"),
        annual_hours: decimal("1920"),
        applied_payg_discount: decimal("0.25"),
    })
    .expect("input should be valid");

    assert_eq!(analysis.payg_net_annual_usd, decimal("6624.00000"));
    assert_eq!(analysis.annual_savings_usd, decimal("-1624.00000"));
}

#[test]
fn rejects_an_empty_license_estate() {
    let error = calculate(SqlPaygInput {
        enterprise_licensed_cores: 0,
        standard_licensed_cores: 0,
        software_assurance_annual_usd: decimal("1"),
        annual_hours: decimal("8760"),
        applied_payg_discount: DecimalValue::zero(),
    })
    .expect_err("empty estate should fail");

    assert_eq!(error, SqlPaygError::NoLicensedCores);
}

#[test]
fn rejects_negative_software_assurance() {
    let error = calculate(SqlPaygInput {
        enterprise_licensed_cores: 4,
        standard_licensed_cores: 0,
        software_assurance_annual_usd: decimal("-1"),
        annual_hours: decimal("8760"),
        applied_payg_discount: DecimalValue::zero(),
    })
    .expect_err("negative spend should fail");

    assert_eq!(error, SqlPaygError::NegativeSoftwareAssurance);
}

#[test]
fn rejects_hours_beyond_a_leap_year() {
    let error = calculate(SqlPaygInput {
        enterprise_licensed_cores: 4,
        standard_licensed_cores: 0,
        software_assurance_annual_usd: decimal("1"),
        annual_hours: decimal("8785"),
        applied_payg_discount: DecimalValue::zero(),
    })
    .expect_err("too many hours should fail");

    assert_eq!(error, SqlPaygError::AnnualHoursOutOfRange);
}

#[test]
fn deserializes_legacy_saved_analysis_with_derived_comparison_fields() {
    let analysis = analysis_from_wire(SqlPaygAnalysisWire {
        enterprise_licensed_cores: 8,
        standard_licensed_cores: 16,
        software_assurance_annual_usd: decimal("20000"),
        annual_hours: AnnualHoursWire::LegacyInteger(8760),
        enterprise_payg_usd_per_core_hour: decimal("0.375"),
        standard_payg_usd_per_core_hour: decimal("0.100"),
        payg_gross_annual_usd: decimal("40296.000"),
        required_payg_discount: decimal("0.5036728211236847329759777645"),
        payg_at_breakeven_usd: decimal("20000"),
        applied_payg_discount: None,
        payg_net_annual_usd: None,
        annual_savings_usd: None,
        outcome: SqlPaygOutcome::DiscountRequired,
        rate_source_url: RATE_SOURCE_URL.to_owned(),
        rate_verified_on: RATE_VERIFIED_ON.to_owned(),
    })
    .expect("legacy analysis should remain readable");

    assert_eq!(analysis.annual_hours, decimal("8760"));
    assert_eq!(analysis.applied_payg_discount, DecimalValue::zero());
    assert_eq!(analysis.payg_net_annual_usd, decimal("40296.000"));
    assert_eq!(analysis.annual_savings_usd, decimal("-20296.000"));
}
