use teju::teju::common::{
    exp_log10_pow2, exp_log10_pow2_residual, MultInverses, Multipliers, EXP_LOG10_POW2_MAX,
    EXP_LOG10_POW2_MIN,
};
use teju::teju::ieee64::{
    is_even, lsb, multiword_multiply_shift, multiword_multiply_shift_pow2, Binary, MAX_MANT,
};
use teju::teju::common::Multiplier;
use teju::teju::lut::{mult_inverses, multipliers, MAX_EXP_FLOOR, MIN_EXP, MIN_EXP_FLOOR};

/// Asserts that `num` is decoded as `binary`; repeats for `-num`.
fn assert_decoded(num: f64, binary: Binary) {
    assert!(num.is_finite());
    assert_eq!(Binary::new(num.abs().to_bits()), binary);
    assert_eq!(Binary::new((-num.abs()).to_bits()), binary);
}

#[test]
fn binary_extremes() {
    // Zero
    assert_decoded(0.0, Binary { exp: MIN_EXP, mant: 0 });
    // Smallest subnormal
    assert_decoded(
        f64::from_bits(1),
        Binary { exp: f64::MIN_EXP - f64::MANTISSA_DIGITS as i32, mant: 1 },
    );
    // Smallest normal
    assert_decoded(
        f64::MIN_POSITIVE,
        Binary { exp: f64::MIN_EXP - f64::MANTISSA_DIGITS as i32, mant: MAX_MANT },
    );
    // Largest
    assert_decoded(
        f64::MAX,
        Binary { exp: f64::MAX_EXP - f64::MANTISSA_DIGITS as i32, mant: (MAX_MANT << 1) - 1 },
    );
}

#[test]
fn binary_of_one_and_its_neighbours() {
    assert_decoded(1.0, Binary { exp: -52, mant: 1 << 52 });
    assert_decoded(2.0, Binary { exp: -51, mant: 1 << 52 });
    assert_decoded(0.5, Binary { exp: -53, mant: 1 << 52 });
    assert_decoded(3.0, Binary { exp: -51, mant: 3 << 51 });
    assert_decoded(f64::from_bits(0x000f_ffff_ffff_ffff), Binary { exp: -1074, mant: (1 << 52) - 1 });
}

#[test]
fn binary_of_patterns_that_are_not_finite() {
    assert_eq!(Binary::new(f64::INFINITY.to_bits()), Binary { exp: 972, mant: 1 << 52 });
    assert_eq!(Binary::new(f64::NEG_INFINITY.to_bits()), Binary { exp: 972, mant: 1 << 52 });
    assert_eq!(Binary::new(u64::MAX), Binary { exp: 972, mant: (1 << 53) - 1 });
}

#[test]
fn binary_float_roundtrip() {
    let mut bits: u64 = 0x9e37_79b9_7f4a_7c15;
    for _ in 0..50_000 {
        bits = bits.wrapping_mul(6364136223846793005).wrapping_add(1442695040888963407);
        let float = f64::from_bits(bits);
        if !float.is_finite() || float == 0.0 {
            continue;
        }
        let binary = Binary::new(bits);
        // Two factors, so that neither power leaves the range of a float.
        let half = binary.exp / 2;
        let refloat = (binary.mant as f64 * 2f64.powi(half) * 2f64.powi(binary.exp - half))
            .copysign(float);
        assert_eq!(refloat, float);
    }
}

#[test]
fn log10_pow2_values() {
    assert_eq!(exp_log10_pow2(0), 0);
    assert_eq!(exp_log10_pow2(1), 0);
    assert_eq!(exp_log10_pow2(3), 0);
    assert_eq!(exp_log10_pow2(4), 1);
    assert_eq!(exp_log10_pow2(10), 3);
    assert_eq!(exp_log10_pow2(64), 19);
    assert_eq!(exp_log10_pow2(-1), -1);
    assert_eq!(exp_log10_pow2(-4), -2);
    assert_eq!(exp_log10_pow2(-64), -20);
    assert_eq!(exp_log10_pow2(-1074), -324);
    assert_eq!(exp_log10_pow2(971), 292);
    assert_eq!(exp_log10_pow2(972), 292);
    assert_eq!(exp_log10_pow2(1023), 307);
    assert_eq!(exp_log10_pow2(EXP_LOG10_POW2_MAX), 33960);
    assert_eq!(exp_log10_pow2(EXP_LOG10_POW2_MIN), -33961);
}

#[test]
fn log10_pow2_is_the_floor_of_the_logarithm() {
    for e in -1100..=1100 {
        let f = exp_log10_pow2(e);
        let log = e as f64 * std::f64::consts::LOG10_2;
        assert_eq!(f, log.floor() as i32, "at {e}");
    }
}

#[test]
fn log10_pow2_residual_values() {
    assert_eq!(exp_log10_pow2_residual(0), 0);
    assert_eq!(exp_log10_pow2_residual(1), 1);
    assert_eq!(exp_log10_pow2_residual(3), 3);
    assert_eq!(exp_log10_pow2_residual(4), 0);
    assert_eq!(exp_log10_pow2_residual(10), 0);
    assert_eq!(exp_log10_pow2_residual(-1), 2);
    assert_eq!(exp_log10_pow2_residual(-4), 2);
    assert_eq!(exp_log10_pow2_residual(-1074), 2);
    assert_eq!(exp_log10_pow2_residual(971), 0);
    assert_eq!(exp_log10_pow2_residual(1023), 3);
    assert_eq!(exp_log10_pow2_residual(EXP_LOG10_POW2_MAX), 2);
    assert_eq!(exp_log10_pow2_residual(EXP_LOG10_POW2_MIN), 0);
}

#[test]
fn log10_pow2_residual_counts_from_the_start_of_a_run() {
    for e in -1100..=1100 {
        let r = exp_log10_pow2_residual(e) as i32;
        assert!(r <= 3);
        assert_eq!(exp_log10_pow2(e - r), exp_log10_pow2(e));
        assert_eq!(exp_log10_pow2(e - r - 1), exp_log10_pow2(e) - 1);
        assert_eq!(exp_log10_pow2_residual(e - r), 0);
    }
}

#[test]
fn multipliers_are_rounded_up() {
    let table = multipliers();
    // Above zero the multiplier times `10^f` lies less than `10^f` above a
    // multiple of `2^128`
    for f in 1..=38 {
        let entry = table.get(f);
        let value = (u128::from(entry.hi) << 64) | u128::from(entry.lo);
        let unit = 10u128.pow(f.unsigned_abs());
        assert!(value.wrapping_mul(unit) < unit, "at {f}");
    }
    // From zero down to -54 the multiplier is `5^-f` times a power of two
    for f in -54..=0 {
        let entry = table.get(f);
        let value = (u128::from(entry.hi) << 64) | u128::from(entry.lo);
        let five = 5u128.pow(f.unsigned_abs());
        assert_eq!(value % five, 0, "at {f}");
        assert!((value / five).is_power_of_two(), "at {f}");
        assert!(value >> 127 == 1, "at {f}");
    }
}

#[test]
fn multiplier_table_entries() {
    let table = multipliers();
    let first = table.get(MIN_EXP_FLOOR);
    assert_eq!((first.hi, first.lo), (0x9e19db92b4e31ba9, 0x6c07a2c26a8346d2));
    let unit = table.get(0);
    assert_eq!((unit.hi, unit.lo), (0x8000000000000000, 0));
    let ten = table.get(1);
    assert_eq!((ten.hi, ten.lo), (0xcccccccccccccccc, 0xcccccccccccccccd));
    let tenth = table.get(-1);
    assert_eq!((tenth.hi, tenth.lo), (0xa000000000000000, 0));
    let last = table.get(MAX_EXP_FLOOR);
    assert_eq!((last.hi, last.lo), (0xff77b1fcbebcdc4f, 0x25e8e89c13bb0f7b));
}

#[test]
fn multiplier_table_of_one_entry() {
    let entries = [(7u32, 9u32), (11, 13)];
    let table = Multipliers::new(&entries, 4);
    // The decimal exponent of 2^4 is 1.
    let first = table.get(1);
    assert_eq!((first.hi, first.lo), (7, 9));
    let second = table.get(2);
    assert_eq!((second.hi, second.lo), (11, 13));
}

#[test]
fn inverse_table_entries() {
    let table = mult_inverses();
    assert_eq!(table.len(), 28);
    let unit = table.get(0);
    assert_eq!((unit.multiplier, unit.bound), (1, u64::MAX));
    let five = table.get(1);
    assert_eq!((five.multiplier, five.bound), (0xcccccccccccccccd, 0x3333333333333333));
    let last = table.get(27);
    assert_eq!((last.multiplier, last.bound), (0xcd27412a54f5b6b5, 2));
    let mut power: u64 = 1;
    for exp in 0..28 {
        let entry = table.get(exp);
        assert_eq!(entry.multiplier.wrapping_mul(power), 1);
        assert_eq!(entry.bound, u64::MAX / power);
        if exp < 27 {
            power *= 5;
        }
    }
}

#[test]
fn inverse_table_of_two_entries() {
    let entries = [(1u8, 255u8), (205, 51)];
    let table = MultInverses::new(&entries);
    assert_eq!(table.len(), 2);
    let five = table.get(1);
    assert_eq!((five.multiplier, five.bound), (205, 51));
}

#[test]
fn multiply_shift_values() {
    let half = Multiplier { hi: 0x8000000000000000u64, lo: 0 };
    assert_eq!(multiword_multiply_shift(0, &half), 0);
    assert_eq!(multiword_multiply_shift(1, &half), 0);
    assert_eq!(multiword_multiply_shift(7, &half), 3);
    assert_eq!(multiword_multiply_shift(u64::MAX, &half), u64::MAX / 2);
    let ten = multipliers().get(1);
    assert_eq!(multiword_multiply_shift(123456789, &ten), 98765431);
    assert_eq!(multiword_multiply_shift(1 << 57, &ten), 115292150460684697);
    let most = Multiplier { hi: u64::MAX, lo: u64::MAX };
    assert_eq!(multiword_multiply_shift(u64::MAX, &most), u64::MAX - 1);
}

#[test]
fn multiply_shift_by_a_power_of_two() {
    let ten = multipliers().get(1);
    assert_eq!(multiword_multiply_shift_pow2(57, &ten), 115292150460684697);
    assert_eq!(multiword_multiply_shift_pow2(0, &ten), 0);
    assert_eq!(multiword_multiply_shift_pow2(64, &ten), 14757395258967641292);
    assert_eq!(multiword_multiply_shift_pow2(100, &ten), 0xcccccccccccccccc);
    for k in 0..64 {
        assert_eq!(
            multiword_multiply_shift_pow2(k, &ten),
            multiword_multiply_shift(1 << k, &ten),
            "at {k}"
        );
    }
}

#[test]
fn lowest_bits_and_parity() {
    assert_eq!(lsb(0xabcd, 0), 0);
    assert_eq!(lsb(0xabcd, 4), 0xd);
    assert_eq!(lsb(0xabcd, 8), 0xcd);
    assert_eq!(lsb(u64::MAX, 63), u64::MAX >> 1);
    assert!(is_even(0));
    assert!(!is_even(1));
    assert!(is_even(u64::MAX - 1));
    assert!(!is_even(u64::MAX));
}

#[test]
fn small_integers_are_told_apart() {
    assert!(Binary { exp: 0, mant: 12345 }.is_small_integer());
    assert!(Binary { exp: -52, mant: 1 << 52 }.is_small_integer());
    assert!(!Binary { exp: -53, mant: 1 << 52 }.is_small_integer());
    assert!(!Binary { exp: -1, mant: (1 << 52) + 1 }.is_small_integer());
    assert!(Binary { exp: -1, mant: (1 << 52) + 2 }.is_small_integer());
    assert!(!Binary { exp: 1, mant: 1 << 52 }.is_small_integer());
    assert!(Binary { exp: 3, mant: 8 }.is_multiple_of_pow2());
    assert!(!Binary { exp: 4, mant: 8 }.is_multiple_of_pow2());
    assert!(Binary { exp: 0, mant: 7 }.is_multiple_of_pow2());
}

#[test]
fn log10_pow2_lies_between_powers_of_ten() {
    // 10^f <= 2^e < 10^(f + 1), in exact arithmetic where both sides fit
    for e in 0..=126i32 {
        let f = exp_log10_pow2(e);
        let power_of_two = 1u128 << e;
        assert!(10u128.pow(f as u32) <= power_of_two, "at {e}");
        assert!(power_of_two < 10u128.pow(f as u32 + 1), "at {e}");
    }
    for e in -126..0i32 {
        let f = exp_log10_pow2(e);
        let power_of_two = 1u128 << -e;
        assert!(power_of_two <= 10u128.pow(-f as u32), "at {e}");
        assert!(10u128.pow((-f - 1) as u32) < power_of_two, "at {e}");
    }
}
