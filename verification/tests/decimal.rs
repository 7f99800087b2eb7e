use teju::teju::ieee64::{Binary, Decimal};
use teju::teju::shortest::Shortest;

/// Asserts that `num` is reduced to `decimal`; repeats for `-num`, with the
/// opposite sign.
fn assert_reduced(num: f64, decimal: Decimal) {
    assert!(num.is_finite());
    assert!(num.abs() != 0.0);
    assert_eq!(Shortest::new(num.abs().to_bits()), Shortest { sign: true, decimal });
    assert_eq!(Shortest::new((-num.abs()).to_bits()), Shortest { sign: false, decimal });
}

#[test]
fn decimal_small() {
    assert_reduced(123.456, Decimal { exp: -3, mant: 123456 });
    assert_reduced(0.1234, Decimal { exp: -4, mant: 1234 });
    assert_reduced(core::f64::consts::PI, Decimal { exp: -15, mant: 3141592653589793 });
    assert_reduced(core::f64::consts::E, Decimal { exp: -15, mant: 2718281828459045 });
    assert_reduced(core::f64::consts::LN_2, Decimal { exp: -16, mant: 6931471805599453 });
}

#[test]
fn decimal_small_integer() {
    assert_reduced(123456., Decimal { exp: 0, mant: 123456 });
    assert_reduced(1., Decimal { exp: 0, mant: 1 });
    assert_reduced(12003400., Decimal { exp: 2, mant: 120034 });
}

#[test]
fn decimal_extremes() {
    assert_reduced(f64::from_bits(1), Decimal { exp: -324, mant: 5 });
    assert_reduced(f64::MIN_POSITIVE, Decimal { exp: -324, mant: 22250738585072014 });
    assert_reduced(f64::MAX, Decimal { exp: 292, mant: 17976931348623157 });
}

#[test]
fn decimal_integer_roundtrip() {
    let bound: i64 = 1 << 53;
    let mut seed: u64 = 0x2545_f491_4f6c_dd1d;
    for _ in 0..50_000 {
        seed ^= seed << 13;
        seed ^= seed >> 7;
        seed ^= seed << 17;
        let int = (seed >> 10) as i64 - bound;
        if int == 0 || int <= -bound {
            continue;
        }
        let float = int as f64;
        assert_eq!(
            Shortest::new(float.to_bits()),
            Shortest {
                sign: int >= 0,
                decimal: Decimal { exp: 0, mant: int.unsigned_abs() }.remove_trailing_zeros(),
            }
        )
    }
}

#[test]
fn decimal_of_powers_of_two() {
    assert_reduced(2.0, Decimal { exp: 0, mant: 2 });
    assert_reduced(0.5, Decimal { exp: -1, mant: 5 });
    assert_reduced(1024.0, Decimal { exp: 0, mant: 1024 });
    assert_reduced(9007199254740992.0, Decimal { exp: 0, mant: 9007199254740992 });
    assert_reduced(0.25, Decimal { exp: -2, mant: 25 });
    assert_reduced(3.0517578125e-5, Decimal { exp: -15, mant: 30517578125 });
}

#[test]
fn decimal_of_the_largest_subnormal() {
    assert_reduced(
        f64::from_bits(0x000f_ffff_ffff_ffff),
        Decimal { exp: -323, mant: 2225073858507201 },
    );
}

#[test]
fn trailing_zeros_are_removed() {
    assert_eq!(Decimal { exp: 0, mant: 1 }.remove_trailing_zeros(), Decimal { exp: 0, mant: 1 });
    assert_eq!(Decimal { exp: 0, mant: 10 }.remove_trailing_zeros(), Decimal { exp: 1, mant: 1 });
    assert_eq!(
        Decimal { exp: -7, mant: 1203400 }.remove_trailing_zeros(),
        Decimal { exp: -5, mant: 12034 }
    );
    assert_eq!(
        Decimal { exp: 3, mant: 10_000_000_000_000_000_000 }.remove_trailing_zeros(),
        Decimal { exp: 22, mant: 1 }
    );
    assert_eq!(
        Decimal { exp: 0, mant: u64::MAX }.remove_trailing_zeros(),
        Decimal { exp: 0, mant: u64::MAX }
    );
    assert_eq!(
        Decimal { exp: 0, mant: 18446744073709551610 }.remove_trailing_zeros(),
        Decimal { exp: 1, mant: 1844674407370955161 }
    );
    assert_eq!(Decimal { exp: 0, mant: 5 }.remove_trailing_zeros(), Decimal { exp: 0, mant: 5 });
    assert_eq!(Decimal { exp: 0, mant: 2 }.remove_trailing_zeros(), Decimal { exp: 0, mant: 2 });
}

#[test]
fn ties_are_multiples_of_powers_of_five() {
    assert!(Decimal { exp: 0, mant: 7 }.is_tie());
    assert!(Decimal { exp: 1, mant: 35 }.is_tie());
    assert!(!Decimal { exp: 2, mant: 35 }.is_tie());
    assert!(Decimal { exp: 2, mant: 75 }.is_tie());
    assert!(!Decimal { exp: -1, mant: 75 }.is_tie());
    assert!(Decimal { exp: 27, mant: 7450580596923828125 }.is_tie());
    assert!(Decimal { exp: 27, mant: 2 * 7450580596923828125 }.is_tie());
    assert!(!Decimal { exp: 27, mant: 7450580596923828126 }.is_tie());
    assert!(!Decimal { exp: 28, mant: 7450580596923828125 }.is_tie());
    assert!(Decimal { exp: 5, mant: 0 }.is_tie());
    assert!(!Decimal { exp: 28, mant: 0 }.is_tie());
    assert!(Decimal { exp: 3, mant: 125 }.is_multiple_of_pow5());
    assert!(!Decimal { exp: 3, mant: 126 }.is_multiple_of_pow5());
}

#[test]
fn uncentered_ties_need_a_multiple_of_five() {
    assert!(!Decimal { exp: 0, mant: 7 }.is_tie_uncentered());
    assert!(Decimal { exp: 0, mant: 15 }.is_tie_uncentered());
    assert!(Decimal { exp: 1, mant: 35 }.is_tie_uncentered());
    assert!(!Decimal { exp: 2, mant: 35 }.is_tie_uncentered());
    assert!(!Decimal { exp: 300, mant: 35 }.is_tie_uncentered());
    assert!(!Decimal { exp: -1, mant: 35 }.is_tie_uncentered());
}

#[test]
fn inner_reduction_skips_the_short_cut() {
    // One is a small integer: the inner reduction still finds it.
    let one = Binary::new(1f64.to_bits());
    assert_eq!(one.teju_jagua_inner(), Decimal { exp: 0, mant: 1 });
    assert_eq!(one.teju_jagua(), Decimal { exp: 0, mant: 1 });
    let third = Binary::new((1f64 / 3.0).to_bits());
    assert_eq!(third.teju_jagua_inner(), Decimal { exp: -16, mant: 3333333333333333 });
    assert_eq!(third.teju_jagua(), third.teju_jagua_inner());
}

#[test]
fn reduction_takes_every_nonzero_pattern() {
    let infinity = Binary::new(f64::INFINITY.to_bits());
    assert_eq!(infinity.teju_jagua(), Decimal { exp: 293, mant: 1797693134862316 });
    let all_ones = Binary::new(u64::MAX);
    assert_eq!(all_ones.teju_jagua(), Decimal { exp: 292, mant: 35953862697246314 });
}

#[test]
fn exponents_of_a_binary() {
    let b = Binary { exp: -1074, mant: 1 };
    assert_eq!(b.exp_log10_pow2(), -324);
    assert_eq!(b.exp_log10_pow2_residual(), 2);
    let b = Binary { exp: 971, mant: 1 << 52 };
    assert_eq!(b.exp_log10_pow2(), 292);
    assert_eq!(b.exp_log10_pow2_residual(), 0);
}
