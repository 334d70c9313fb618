use kucoin_bot::decimal::{decimal_text, decimal_text_4dp, fits_display, min, normalize, trunc_with_scale, Dec};
use rust_decimal::Decimal;
use std::str::FromStr;

fn dec(negative: bool, mantissa: u128, scale: u32) -> Dec {
    Dec { negative, mantissa, scale }
}

fn to_rust(d: &Dec) -> Decimal {
    let mut x = Decimal::from_i128_with_scale(d.mantissa as i128, d.scale);
    x.set_sign_negative(d.negative);
    x
}

fn from_rust(x: &Decimal) -> Dec {
    dec(x.is_sign_negative(), x.mantissa().unsigned_abs(), x.scale())
}

const SAMPLES: [&str; 14] = [
    "0", "0.00", "-0.00001", "1", "110", "1.5", "123.456789", "-123.456789", "10.00000", "0.00009",
    "79228162514264337593543950335", "7922816251426433759354395033.5", "-0.1000", "5.12340",
];

#[test]
fn truncation_matches_rust_decimal() {
    for s in SAMPLES {
        let x = Decimal::from_str(s).unwrap();
        for k in [0u32, 2, 4, 8, 28] {
            assert_eq!(trunc_with_scale(&from_rust(&x), k), from_rust(&x.trunc_with_scale(k)), "{} at {}", s, k);
        }
    }
}

#[test]
fn truncation_examples() {
    assert_eq!(trunc_with_scale(&dec(false, 123456789, 6), 4), dec(false, 1234567, 4));
    assert_eq!(trunc_with_scale(&dec(true, 19876, 4), 1), dec(true, 19, 1));
    assert_eq!(trunc_with_scale(&dec(false, 110, 0), 4), dec(false, 1100000, 4));
    assert_eq!(trunc_with_scale(&dec(true, 1, 5), 4), dec(true, 0, 4));
}

#[test]
fn normalization_matches_rust_decimal() {
    for s in SAMPLES {
        let x = Decimal::from_str(s).unwrap();
        assert_eq!(normalize(&from_rust(&x)), from_rust(&x.normalize()), "{}", s);
    }
}

#[test]
fn normalization_examples() {
    assert_eq!(normalize(&dec(false, 3100, 3)), dec(false, 31, 1));
    assert_eq!(normalize(&dec(true, 0, 4)), dec(false, 0, 0));
    assert_eq!(normalize(&dec(false, 1000, 0)), dec(false, 1000, 0));
}

#[test]
fn min_keeps_the_first_of_equals() {
    assert_eq!(min(&dec(false, 5, 0), &dec(false, 3, 0)), dec(false, 3, 0));
    assert_eq!(min(&dec(false, 2, 0), &dec(false, 3, 0)), dec(false, 2, 0));
    assert_eq!(min(&dec(false, 50, 1), &dec(false, 5, 0)), dec(false, 50, 1));
    assert_eq!(min(&dec(false, 5, 0), &dec(false, 50, 1)), dec(false, 5, 0));
    assert_eq!(min(&dec(true, 1, 0), &dec(false, 1, 3)), dec(true, 1, 0));
    for a in SAMPLES {
        for b in SAMPLES {
            let x = Decimal::from_str(a).unwrap();
            let y = Decimal::from_str(b).unwrap();
            assert_eq!(to_rust(&min(&from_rust(&x), &from_rust(&y))), x.min(y));
        }
    }
}

#[test]
fn positivity() {
    assert!(dec(false, 1, 28).is_positive());
    assert!(!dec(false, 0, 2).is_positive());
    assert!(!dec(true, 0, 2).is_positive());
    assert!(!dec(true, 3, 0).is_positive());
}

#[test]
fn parts_in_range() {
    assert_eq!(Dec::from_parts(false, 12, 3), Some(dec(false, 12, 3)));
    assert_eq!(Dec::from_parts(false, 1, 29), None);
    assert_eq!(Dec::from_parts(true, 79228162514264337593543950336, 0), None);
}

#[test]
fn text_matches_rust_decimal() {
    for s in SAMPLES {
        let x = Decimal::from_str(s).unwrap();
        let d = from_rust(&x);
        assert!(fits_display(&d, d.scale));
        assert_eq!(decimal_text(&d), x.to_string(), "{}", s);
        if fits_display(&d, 4) {
            assert_eq!(decimal_text_4dp(&d), format!("{:.4}", x), "{}", s);
        }
    }
}

#[test]
fn text_examples() {
    assert_eq!(decimal_text(&dec(false, 0, 0)), "0");
    assert_eq!(decimal_text(&dec(false, 0, 2)), "0.00");
    assert_eq!(decimal_text(&dec(true, 0, 2)), "-0.00");
    assert_eq!(decimal_text(&dec(false, 5, 3)), "0.005");
    assert_eq!(decimal_text(&dec(true, 12345, 2)), "-123.45");
    assert_eq!(decimal_text(&dec(false, 1100, 0)), "1100");
    assert_eq!(decimal_text_4dp(&dec(false, 123456789, 6)), "123.4567");
    assert_eq!(decimal_text_4dp(&dec(false, 15, 1)), "1.5000");
    assert_eq!(decimal_text_4dp(&dec(true, 7, 0)), "-7.0000");
    assert_eq!(decimal_text_4dp(&dec(false, 5, 5)), "0.0000");
}

#[test]
fn text_width_limit() {
    // 29 integer digits leave room for two fractional digits only.
    let big = dec(false, 79228162514264337593543950335, 0);
    assert!(fits_display(&big, 0));
    assert!(fits_display(&big, 2));
    assert!(!fits_display(&big, 3));
    assert!(!fits_display(&big, 4));
    // a fraction of 28 digits after a single zero fits.
    let small = dec(true, 1, 28);
    assert!(fits_display(&small, 28));
    assert_eq!(decimal_text(&small), "-0.0000000000000000000000000001");
    assert!(fits_display(&dec(false, 123, 0), 28));
    assert!(!fits_display(&dec(false, 1234, 0), 28));
}
