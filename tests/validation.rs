use apicommand::decimal::{parse_u64, to_decimal};
use apicommand::error::Error;
use apicommand::validate::{
    BrandId, DateTimeSpan, GetParameters, LastRunParameters, LocationId, RunParameters,
    SpecificParameters, MAX_ID_LEN,
};

#[test]
fn brand_within_bound_is_kept() {
    let raw = "a".repeat(MAX_ID_LEN);
    let b = BrandId::new(raw.clone()).unwrap();
    assert_eq!(b.as_str(), raw);
}

#[test]
fn empty_brand_is_accepted() {
    let b = BrandId::new(String::new()).unwrap();
    assert_eq!(b.as_str(), "");
}

#[test]
fn brand_over_bound_is_rejected() {
    let raw = "a".repeat(MAX_ID_LEN + 1);
    match BrandId::new(raw.clone()) {
        Err(Error::ValidateInvalidBrandId(s)) => assert_eq!(s, raw),
        other => panic!("unexpected: {:?}", other),
    }
}

#[test]
fn bound_counts_characters() {
    let raw = "é".repeat(MAX_ID_LEN);
    assert!(LocationId::new(raw).is_ok());
}

#[test]
fn location_over_bound_is_rejected() {
    let raw = "x".repeat(65);
    match LocationId::new(raw.clone()) {
        Err(Error::ValidateInvalidLocationId(s)) => assert_eq!(s, raw),
        other => panic!("unexpected: {:?}", other),
    }
}

#[test]
fn span_in_order_is_kept() {
    let span = DateTimeSpan::new("100".to_string(), "200".to_string()).unwrap();
    assert_eq!(span.from_date(), 100);
    assert_eq!(span.to_date(), 200);
}

#[test]
fn zero_length_span_is_accepted() {
    let span = DateTimeSpan::new("7".to_string(), "7".to_string()).unwrap();
    assert_eq!((span.from_date(), span.to_date()), (7, 7));
}

#[test]
fn inverted_span_is_rejected() {
    match DateTimeSpan::new("200".to_string(), "100".to_string()) {
        Err(Error::ValidateInvalidDateTimeSpan(f, t)) => assert_eq!((f, t), (200, 100)),
        other => panic!("unexpected: {:?}", other),
    }
}

#[test]
fn non_numeric_span_is_a_parse_error() {
    match DateTimeSpan::new("abc".to_string(), "100".to_string()) {
        Err(Error::ValidateInvalidTimestamp(s)) => assert_eq!(s, "abc"),
        other => panic!("unexpected: {:?}", other),
    }
    match DateTimeSpan::new("100".to_string(), "-1".to_string()) {
        Err(Error::ValidateInvalidTimestamp(s)) => assert_eq!(s, "-1"),
        other => panic!("unexpected: {:?}", other),
    }
}

#[test]
fn parse_follows_std() {
    for s in ["0", "42", "+42", "007", "18446744073709551615", "18446744073709551616", "", "+", "4 2", "x", "-0"] {
        assert_eq!(parse_u64(s), s.parse::<u64>().ok(), "{}", s);
    }
}

#[test]
fn decimal_rendering() {
    assert_eq!(to_decimal(0), "0");
    assert_eq!(to_decimal(404), "404");
    assert_eq!(to_decimal(u64::MAX), u64::MAX.to_string());
}

#[test]
fn get_path_renders() {
    let p = GetParameters::new("acme".to_string()).unwrap();
    assert_eq!(p.path(), "get/acme");
}

#[test]
fn last_run_and_run_paths_render() {
    let p = LastRunParameters::new("acme".to_string(), "nyc".to_string()).unwrap();
    assert_eq!(p.path(), "last_run/acme/nyc");
    let p = RunParameters::new("acme".to_string(), "nyc".to_string()).unwrap();
    assert_eq!(p.path(), "run/acme/nyc");
}

#[test]
fn specific_path_renders() {
    let p = SpecificParameters::new(
        "acme".to_string(),
        "nyc".to_string(),
        "100".to_string(),
        "200".to_string(),
    )
    .unwrap();
    assert_eq!(p.path(), "specific/acme/nyc/100/200");
}

#[test]
fn parameters_report_first_failure() {
    let long = "b".repeat(65);
    match SpecificParameters::new(long.clone(), long.clone(), "x".to_string(), "1".to_string()) {
        Err(Error::ValidateInvalidBrandId(s)) => assert_eq!(s, long),
        other => panic!("unexpected: {:?}", other),
    }
    match RunParameters::new("ok".to_string(), long.clone()) {
        Err(Error::ValidateInvalidLocationId(s)) => assert_eq!(s, long),
        other => panic!("unexpected: {:?}", other),
    }
    match SpecificParameters::new("ok".to_string(), "ok".to_string(), "5".to_string(), "4".to_string()) {
        Err(Error::ValidateInvalidDateTimeSpan(5, 4)) => {}
        other => panic!("unexpected: {:?}", other),
    }
}
