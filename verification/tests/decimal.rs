use azure_sql_tco::decimal::{add_opt, div_opt, max_opt, mul_opt, sub_opt, DecimalValue};

fn d(value: &str) -> DecimalValue {
    DecimalValue::parse(value).expect("valid decimal")
}

#[test]
fn parsing_and_rendering_keep_the_written_scale() {
    assert_eq!(d("0.10").to_string(), "0.10");
    assert_eq!(d("-1624.00000").to_string(), "-1624.00000");
    assert_eq!(d("8760").to_string(), "8760");
    assert!(DecimalValue::parse("ten").is_none());
}

#[test]
fn equality_is_by_value_not_by_scale() {
    assert_eq!(d("1.50"), d("1.5"));
    assert!(!d("1.50").same_representation(&d("1.5")));
    assert!(d("0.1").lt(&d("0.10001")));
    assert_eq!(d("2").compare(&d("1.99")), 1);
}

#[test]
fn arithmetic_is_exact() {
    assert_eq!(d("0.1").checked_add(d("0.2")), Some(d("0.3")));
    assert_eq!(d("1").checked_sub(d("1.25")), Some(d("-0.25")));
    assert_eq!(d("0.011663").checked_mul(d("8760")), Some(d("102.16788")));
    assert_eq!(d("1").checked_div(d("8")), Some(d("0.125")));
    assert_eq!(d("1").checked_div(DecimalValue::zero()), None);
    assert_eq!(d("7220.1").ceil(), d("7221"));
    assert_eq!(d("-0.5").ceil(), d("0"));
}

#[test]
fn optional_arithmetic_propagates_absence() {
    assert_eq!(add_opt(Some(d("1")), Some(d("2"))), Some(d("3")));
    assert_eq!(sub_opt(Some(d("1")), None), None);
    assert_eq!(mul_opt(Some(d("1.5")), Some(d("2"))), Some(d("3")));
    assert_eq!(div_opt(Some(d("3")), Some(d("2"))), Some(d("1.5")));
    assert_eq!(max_opt(Some(d("3")), Some(d("2"))), Some(d("3")));
}

#[test]
fn integers_convert_exactly() {
    assert_eq!(DecimalValue::from_u32(8760), d("8760"));
    assert_eq!(DecimalValue::from_u64(20_000), d("20000"));
    assert_eq!(DecimalValue::new(12, 2), d("0.12"));
    assert!(d("0.5").is_percent());
    assert!(!d("1.5").is_percent());
}
