use broker_ingest::decimal::{format_dec, parse_dec, Dec, MANTISSA_LIMIT, MAX_SCALE};

#[test]
fn money_precision_roundtrip() {
    // an amount a binary float cannot hold exactly must survive verbatim
    let d = parse_dec("76.49").unwrap();
    assert_eq!(d.mantissa, 7649);
    assert_eq!(d.scale, 2);
    assert!(!d.negative);
    assert_eq!(format_dec(&d), "76.49");
}

#[test]
fn trailing_zeros_kept() {
    let d = parse_dec("1.10").unwrap();
    assert_eq!(d.mantissa, 110);
    assert_eq!(d.scale, 2);
    assert_eq!(format_dec(&d), "1.10");
}

#[test]
fn negative_amounts() {
    let d = parse_dec("-3.5").unwrap();
    assert!(d.negative);
    assert_eq!(format_dec(&d), "-3.5");
    assert!(d.is_sign_negative());
    assert!(!d.is_sign_positive());
}

#[test]
fn zero_never_negative() {
    let d = parse_dec("-0.00").unwrap();
    assert!(!d.negative);
    assert!(d.is_zero());
    assert_eq!(format_dec(&d), "0.00");
}

#[test]
fn fraction_only_and_integer_forms() {
    assert_eq!(format_dec(&parse_dec(".5").unwrap()), "0.5");
    assert_eq!(format_dec(&parse_dec("42").unwrap()), "42");
    assert_eq!(format_dec(&parse_dec("+7.25").unwrap()), "7.25");
}

#[test]
fn exponent_notation() {
    let d = parse_dec("7.649e1").unwrap();
    assert_eq!(d.mantissa, 7649);
    assert_eq!(d.scale, 2);
    assert_eq!(format_dec(&d), "76.49");
    let e = parse_dec("5E-3").unwrap();
    assert_eq!(e.mantissa, 5);
    assert_eq!(e.scale, 3);
    assert_eq!(format_dec(&e), "0.005");
    let f = parse_dec("12e2").unwrap();
    assert_eq!(f.mantissa, 1200);
    assert_eq!(f.scale, 0);
}

#[test]
fn rejected_notation() {
    assert!(parse_dec("").is_none());
    assert!(parse_dec("abc").is_none());
    assert!(parse_dec("5.").is_none());
    assert!(parse_dec("--1").is_none());
    assert!(parse_dec("1.2.3").is_none());
    assert!(parse_dec("1e").is_none());
    assert!(parse_dec("1e+").is_none());
    assert!(parse_dec("1e100000").is_none());
    // more fractional digits than the largest scale
    assert!(parse_dec("0.00000000000000000000000000001").is_none());
    // beyond the 96-bit mantissa
    assert!(parse_dec("99999999999999999999999999999999999999").is_none());
}

#[test]
fn negate_flips_nonzero_only() {
    let d = parse_dec("2.5").unwrap();
    let n = d.negate();
    assert!(n.negative);
    assert_eq!(n.mantissa, d.mantissa);
    assert_eq!(n.scale, d.scale);
    let z = parse_dec("0").unwrap();
    assert!(!z.negate().negative);
}

#[test]
fn construction_limits() {
    assert!(Dec::new(false, MANTISSA_LIMIT, 0).is_none());
    assert!(Dec::new(false, 1, MAX_SCALE + 1).is_none());
    let d = Dec::new(true, 0, 2).unwrap();
    assert!(!d.negative);
}
