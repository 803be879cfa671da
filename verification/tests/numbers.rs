use stellar::binary64::{Binary64, INFINITY_BITS, SIGN_BIT};

fn pattern(x: f64) -> Binary64 {
    Binary64::from_bits(x.to_bits())
}

fn samples() -> Vec<f64> {
    vec![
        f64::NEG_INFINITY,
        f64::MIN,
        -1233870.0,
        -100.0,
        -1.0,
        -0.33,
        -0.27,
        -f64::MIN_POSITIVE,
        -5e-324,
        -0.0,
        0.0,
        5e-324,
        f64::MIN_POSITIVE,
        0.00025,
        0.3302,
        0.76,
        0.7600000000000001,
        1.0,
        16.0,
        100.0,
        50087.9,
        f64::MAX,
        f64::INFINITY,
        f64::NAN,
        -f64::NAN,
        f64::from_bits(0x7FF0_0000_0000_0001),
        f64::from_bits(0xFFFF_FFFF_FFFF_FFFF),
    ]
}

#[test]
fn patterns_round_trip() {
    for x in samples() {
        assert_eq!(pattern(x).to_bits(), x.to_bits());
        assert_eq!(pattern(x).bits, x.to_bits());
    }
    assert_eq!(pattern(1.0).to_bits(), 0x3FF0_0000_0000_0000);
    assert_eq!(SIGN_BIT, (-0.0f64).to_bits());
    assert_eq!(INFINITY_BITS, f64::INFINITY.to_bits());
}

#[test]
fn not_a_number_is_told_apart() {
    for x in samples() {
        assert_eq!(pattern(x).is_not_a_number(), x.is_nan(), "{:?}", x);
    }
}

#[test]
fn at_most_orders_as_the_numbers_do() {
    for x in samples() {
        for y in samples() {
            assert_eq!(pattern(x).at_most(&pattern(y)), x <= y, "{:?} <= {:?}", x, y);
        }
    }
}

#[test]
fn below_orders_as_the_numbers_do() {
    for x in samples() {
        for y in samples() {
            assert_eq!(pattern(x).below(&pattern(y)), x < y, "{:?} < {:?}", x, y);
        }
    }
}

#[test]
fn is_within_takes_both_ends_in() {
    for x in samples() {
        for low in samples() {
            for high in samples() {
                assert_eq!(
                    pattern(x).is_within(&pattern(low), &pattern(high)),
                    low <= x && x <= high,
                    "{:?} in [{:?}, {:?}]",
                    x,
                    low,
                    high
                );
            }
        }
    }
}

#[test]
fn zeros_of_both_signs_are_equal_in_order() {
    let plus = pattern(0.0);
    let minus = pattern(-0.0);
    assert!(plus.at_most(&minus));
    assert!(minus.at_most(&plus));
    assert!(!plus.below(&minus));
    assert!(!minus.below(&plus));
}
