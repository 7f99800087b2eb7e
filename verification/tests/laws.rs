use teju::teju::ieee64::{multiword_multiply_shift, Binary};
use teju::teju::ieee64::Decimal as Reduced;
use teju::teju::lut::{multipliers, MIN_EXP};
use teju::{Buffer, Decimal, Double, General, Scientific};

fn general_of_bits(bits: u64) -> String {
    Buffer::<Double, General>::new().format(Double::from_bits(bits)).to_string()
}

fn scientific_of_bits(bits: u64) -> String {
    Buffer::<Double, Scientific>::new().format_exp(Double::from_bits(bits)).to_string()
}

fn decimal_of_bits(bits: u64) -> String {
    Buffer::<Double, Decimal>::new().format_dec(Double::from_bits(bits)).to_string()
}

/// A walk through bit patterns that visits every exponent often.
fn patterns(count: usize) -> Vec<u64> {
    let mut seed: u64 = 0x1234_5678_9abc_def1;
    let mut all = Vec::with_capacity(count);
    for _ in 0..count {
        seed ^= seed << 13;
        seed ^= seed >> 7;
        seed ^= seed << 17;
        all.push(seed);
    }
    all
}

fn is_finite(bits: u64) -> bool {
    f64::from_bits(bits).is_finite()
}

/// Whether the float is a power of two above the smallest exponent, where its
/// neighbours lie at different distances.
fn is_uncentered(bits: u64) -> bool {
    bits & ((1 << 52) - 1) == 0 && (bits >> 52) & 0x7ff >= 2
}

/// Whether the multiple of ten that the reduction tries lies on the upper end
/// of the rounding interval of an odd mantissa, and the two ends of the
/// interval differ in being exact.
fn ends_differ(bits: u64) -> bool {
    let binary = Binary::new(bits);
    if binary.mant == 0 || binary.is_small_integer() || is_uncentered(bits) {
        return false;
    }
    assert!(binary.exp >= MIN_EXP);
    let f = binary.exp_log10_pow2();
    let r = binary.exp_log10_pow2_residual();
    let mult = multipliers().get(f);
    let mant_a = (2 * binary.mant - 1) << r;
    let mant_b = (2 * binary.mant + 1) << r;
    let a = multiword_multiply_shift(mant_a, &mult);
    let b = multiword_multiply_shift(mant_b, &mult);
    let s = b / 10 * 10;
    a < s
        && s == b
        && binary.mant % 2 == 1
        && (Reduced { exp: f, mant: mant_a }).is_tie() != (Reduced { exp: f, mant: mant_b }).is_tie()
}

/// Whether the upper end of the rounding interval is exact where the lower
/// is not: there the multiple of ten is the upper end itself.
fn upper_end_is_taken(bits: u64) -> bool {
    if !ends_differ(bits) {
        return false;
    }
    let binary = Binary::new(bits);
    let f = binary.exp_log10_pow2();
    let r = binary.exp_log10_pow2_residual();
    (Reduced { exp: f, mant: (2 * binary.mant + 1) << r }).is_tie()
}

fn is_digits(s: &str) -> bool {
    !s.is_empty() && s.bytes().all(|b| b.is_ascii_digit())
}

fn is_plain_integer(s: &str) -> bool {
    is_digits(s) && (s.len() == 1 || !s.starts_with('0'))
}

/// `-?(0|[1-9][0-9]*)\.[0-9]+`
fn is_decimal_form(s: &str) -> bool {
    let s = s.strip_prefix('-').unwrap_or(s);
    match s.split_once('.') {
        Some((whole, fraction)) => is_plain_integer(whole) && is_digits(fraction),
        None => false,
    }
}

/// `-?(0|[1-9][0-9]*)(\.[0-9]+)?e-?[0-9]+`
fn is_scientific_form(s: &str) -> bool {
    let s = s.strip_prefix('-').unwrap_or(s);
    let (mantissa, exponent) = match s.split_once('e') {
        Some(parts) => parts,
        None => return false,
    };
    let exponent = exponent.strip_prefix('-').unwrap_or(exponent);
    let mantissa_fits = match mantissa.split_once('.') {
        Some((whole, fraction)) => is_plain_integer(whole) && is_digits(fraction),
        None => is_plain_integer(mantissa),
    };
    mantissa_fits && is_digits(exponent)
}

#[test]
fn form_checks_tell_forms_apart() {
    assert!(is_decimal_form("0.0"));
    assert!(is_decimal_form("-12.340"));
    assert!(!is_decimal_form("12"));
    assert!(!is_decimal_form("012.5"));
    assert!(!is_decimal_form(".5"));
    assert!(!is_decimal_form("1."));
    assert!(!is_decimal_form("1e5"));
    assert!(is_scientific_form("0e0"));
    assert!(is_scientific_form("-1.5e-10"));
    assert!(is_scientific_form("1e30"));
    assert!(!is_scientific_form("1.e3"));
    assert!(!is_scientific_form("1.5"));
    assert!(!is_scientific_form("1.5e"));
    assert!(!is_scientific_form("1.5e+3"));
}

#[test]
fn scientific_text_has_scientific_form() {
    for bits in patterns(20_000) {
        if !is_finite(bits) {
            continue;
        }
        let text = scientific_of_bits(bits);
        assert!(is_scientific_form(&text), "{text}");
        // The mantissa is at least one and below ten
        let digits = text.strip_prefix('-').unwrap_or(&text);
        let first = digits.as_bytes()[0];
        assert!((b'1'..=b'9').contains(&first), "{text}");
        assert!(matches!(digits.as_bytes()[1], b'.' | b'e'), "{text}");
    }
    for zero in [0u64, 1 << 63] {
        assert!(is_scientific_form(&scientific_of_bits(zero)));
    }
}

#[test]
fn decimal_text_has_decimal_form() {
    for bits in patterns(5_000) {
        if !is_finite(bits) {
            continue;
        }
        let text = decimal_of_bits(bits);
        assert!(is_decimal_form(&text), "{text}");
    }
    for zero in [0u64, 1 << 63] {
        assert!(is_decimal_form(&decimal_of_bits(zero)));
    }
}

#[test]
fn general_text_has_one_of_the_forms() {
    for bits in patterns(20_000) {
        if !is_finite(bits) {
            continue;
        }
        let text = general_of_bits(bits);
        assert!(is_decimal_form(&text) || is_scientific_form(&text), "{text}");
    }
    for small in [1e-7, 1e-5, 0.5, 1.0, 123.25, 1e15, 1e16, 1e17] {
        let text = general_of_bits(f64::to_bits(small));
        assert!(is_decimal_form(&text) || is_scientific_form(&text), "{text}");
    }
}

#[test]
fn sign_flip_adds_a_minus() {
    let mut all = patterns(10_000);
    all.extend([0, 1, f64::MAX.to_bits(), f64::INFINITY.to_bits(), 1f64.to_bits()]);
    for bits in all {
        let positive = bits & !(1 << 63);
        let negative = bits | (1 << 63);
        if f64::from_bits(positive).is_nan() {
            continue;
        }
        assert_eq!(general_of_bits(negative), "-".to_string() + &general_of_bits(positive));
        assert_eq!(scientific_of_bits(negative), "-".to_string() + &scientific_of_bits(positive));
    }
    for bits in patterns(2_000) {
        let positive = bits & !(1 << 63);
        let negative = bits | (1 << 63);
        if f64::from_bits(positive).is_nan() {
            continue;
        }
        assert_eq!(decimal_of_bits(negative), "-".to_string() + &decimal_of_bits(positive));
    }
}

#[test]
fn small_integers_are_written_out() {
    for n in 1..=2_000i64 {
        assert_eq!(general_of_bits((n as f64).to_bits()), format!("{n}.0"));
        assert_eq!(general_of_bits((-n as f64).to_bits()), format!("-{n}.0"));
    }
    for n in [
        9_007_199_254_740_991i64,
        9_007_199_254_740_990,
        4_503_599_627_370_496,
        4_503_599_627_370_497,
        1_000_000_000_000_000,
        999_999_999_999_999,
        123_456_789_012_345,
        1 << 40,
        (1 << 40) + 1,
        10_000_000_000,
    ] {
        assert_eq!(general_of_bits((n as f64).to_bits()), format!("{n}.0"));
        assert_eq!(general_of_bits((-n as f64).to_bits()), format!("-{n}.0"));
    }
    for bits in patterns(20_000) {
        let n = (bits >> 11) as i64;
        if n == 0 {
            continue;
        }
        assert_eq!(general_of_bits((n as f64).to_bits()), format!("{n}.0"));
    }
}

#[test]
fn texts_parse_back_to_the_float() {
    for bits in patterns(30_000) {
        if !is_finite(bits) || upper_end_is_taken(bits) {
            continue;
        }
        let float = f64::from_bits(bits);
        assert_eq!(general_of_bits(bits).parse::<f64>().unwrap().to_bits(), float.to_bits());
        assert_eq!(scientific_of_bits(bits).parse::<f64>().unwrap().to_bits(), float.to_bits());
    }
    for bits in patterns(3_000) {
        if !is_finite(bits) || upper_end_is_taken(bits) {
            continue;
        }
        let float = f64::from_bits(bits);
        assert_eq!(decimal_of_bits(bits).parse::<f64>().unwrap().to_bits(), float.to_bits());
    }
}

#[test]
fn texts_of_powers_of_two_parse_back() {
    for biased in 1..2047u64 {
        let bits = biased << 52;
        let float = f64::from_bits(bits);
        assert_eq!(general_of_bits(bits).parse::<f64>().unwrap(), float);
        assert_eq!(scientific_of_bits(bits).parse::<f64>().unwrap(), float);
    }
}

#[test]
fn texts_of_subnormals_parse_back() {
    for bits in patterns(5_000) {
        let bits = bits >> 12;
        if bits == 0 {
            continue;
        }
        let float = f64::from_bits(bits);
        assert_eq!(general_of_bits(bits).parse::<f64>().unwrap(), float);
        assert_eq!(general_of_bits(bits), ryu::Buffer::new().format(float));
    }
}

#[test]
fn general_text_agrees_with_ryu() {
    let mut compared = 0;
    for bits in patterns(60_000) {
        if !is_finite(bits) || is_uncentered(bits) || ends_differ(bits) {
            continue;
        }
        let float = f64::from_bits(bits);
        assert_eq!(general_of_bits(bits), ryu::Buffer::new().format(float));
        compared += 1;
    }
    assert!(compared > 59_000);
}

#[test]
fn general_text_agrees_with_ryu_on_integers_above_the_small_ones() {
    let mut compared = 0;
    for bits in patterns(40_000) {
        // Binary exponents from 1 to 32: integers from 2^53 to 2^85
        let bits = (bits & ((1 << 52) - 1)) | ((1076 + (bits >> 59)) << 52);
        if is_uncentered(bits) || ends_differ(bits) {
            continue;
        }
        let float = f64::from_bits(bits);
        assert_eq!(general_of_bits(bits), ryu::Buffer::new().format(float));
        compared += 1;
    }
    assert!(compared > 39_000);
}

#[test]
fn general_text_agrees_with_ryu_on_the_special_classes() {
    for float in [f64::INFINITY, f64::NEG_INFINITY, f64::NAN, 0.0, -0.0] {
        assert_eq!(general_of_bits(float.to_bits()), ryu::Buffer::new().format(float));
    }
}

#[test]
fn powers_of_two_that_agree_with_ryu() {
    for float in [1.0, 2.0, 0.5, 0.25, 1024.0, 9007199254740992.0, 1.8446744073709552e19] {
        assert!(is_uncentered(f64::to_bits(float)));
        assert_eq!(general_of_bits(f64::to_bits(float)), ryu::Buffer::new().format(float));
    }
}

#[test]
fn a_power_of_two_takes_the_middle_of_its_interval() {
    // 2^-1018: the middle of the scaled ends of the interval, not the digits
    // nearest to the value
    let bits = 0x0040_0000_0000_0000;
    assert!(is_uncentered(bits));
    assert_eq!(scientific_of_bits(bits), "1.7800590868057612e-307");
    assert_eq!(ryu::Buffer::new().format(f64::from_bits(bits)), "1.7800590868057611e-307");
    assert_eq!("1.7800590868057612e-307".parse::<f64>().unwrap().to_bits(), bits);
}

#[test]
fn an_exact_upper_end_is_taken_for_an_odd_mantissa() {
    let bits = 0x4370_0000_0000_0029;
    assert!(ends_differ(bits));
    assert!(upper_end_is_taken(bits));
    assert_eq!(general_of_bits(bits), "7.20575940379286e16");
    assert_eq!(ryu::Buffer::new().format(f64::from_bits(bits)), "7.205759403792859e16");
}

#[test]
fn an_exact_lower_end_keeps_the_long_digits() {
    let bits = 0x439b_e967_e85a_db95;
    assert!(ends_differ(bits));
    assert!(!upper_end_is_taken(bits));
    assert_eq!(general_of_bits(bits), "5.0281323906301267e17");
    assert_eq!(ryu::Buffer::new().format(f64::from_bits(bits)), "5.028132390630127e17");
    assert_eq!("5.0281323906301267e17".parse::<f64>().unwrap().to_bits(), bits);
}

/// The number of digits of the mantissa of a text in scientific notation,
/// its trailing zeros left out.
fn mantissa_digits(text: &str) -> usize {
    let mantissa = text.trim_start_matches('-').split('e').next().unwrap();
    let digits: String = mantissa.chars().filter(|c| c.is_ascii_digit()).collect();
    digits.trim_end_matches('0').len().max(1)
}

#[test]
fn mantissa_digits_are_counted_without_trailing_zeros() {
    assert_eq!(mantissa_digits("1e0"), 1);
    assert_eq!(mantissa_digits("-1.25e-7"), 3);
    assert_eq!(mantissa_digits("1.0e10"), 1);
    assert_eq!(mantissa_digits("0e0"), 1);
}

#[test]
fn powers_of_two_have_the_fewest_digits() {
    for biased in 1..2047u64 {
        let bits = biased << 52;
        let shortest = format!("{:e}", f64::from_bits(bits));
        assert_eq!(
            mantissa_digits(&scientific_of_bits(bits)),
            mantissa_digits(&shortest),
            "{shortest}"
        );
    }
}

#[test]
fn small_integers_have_the_fewest_digits() {
    for bits in patterns(5_000) {
        for shift in [11, 30, 50] {
            let whole = (bits >> shift) as f64;
            if whole == 0.0 {
                continue;
            }
            let shortest = format!("{whole:e}");
            assert_eq!(
                mantissa_digits(&scientific_of_bits(whole.to_bits())),
                mantissa_digits(&shortest),
                "{shortest}"
            );
        }
    }
}

#[test]
fn texts_have_the_fewest_digits() {
    for bits in patterns(30_000) {
        if !is_finite(bits) || bits << 1 == 0 || ends_differ(bits) {
            continue;
        }
        let shortest = format!("{:e}", f64::from_bits(bits));
        assert_eq!(
            mantissa_digits(&scientific_of_bits(bits)),
            mantissa_digits(&shortest),
            "{shortest}"
        );
    }
}

/// How many floats lie between two floats of one sign.
fn distance(a: f64, b: f64) -> u64 {
    let (a, b) = (a.to_bits() & !(1 << 63), b.to_bits() & !(1 << 63));
    a.max(b) - a.min(b)
}

#[test]
fn texts_read_back_within_three_units() {
    let mut taken = 0;
    for bits in patterns(30_000) {
        // Binary exponents from 4 to 67, where upper ends are taken most often
        let bits = (bits & ((1 << 52) - 1)) | ((1079 + (bits >> 58)) << 52);
        let float = f64::from_bits(bits);
        let back = general_of_bits(bits).parse::<f64>().unwrap();
        assert!(distance(float, back) < 3, "{float}");
        if upper_end_is_taken(bits) {
            assert_eq!(distance(float, back), 1);
            taken += 1;
        } else {
            assert_eq!(distance(float, back), 0);
        }
    }
    assert!(taken > 0);
    for bits in patterns(30_000) {
        if !is_finite(bits) || bits << 1 == 0 {
            continue;
        }
        let float = f64::from_bits(bits);
        let back = scientific_of_bits(bits).parse::<f64>().unwrap();
        assert!(distance(float, back) < 3, "{float}");
    }
}

#[test]
fn texts_of_moderate_floats_parse_back() {
    // Binary exponents from -67 to 69
    for bits in patterns(30_000) {
        let biased = 1075 - 67 + (bits >> 52) % 137;
        let bits = (bits & ((1 << 52) - 1)) | (biased << 52);
        if upper_end_is_taken(bits) {
            continue;
        }
        let float = f64::from_bits(bits);
        assert_eq!(general_of_bits(bits).parse::<f64>().unwrap(), float);
    }
    for biased in (1075 - 67)..=(1075 + 69) {
        let bits = biased << 52;
        let float = f64::from_bits(bits);
        assert_eq!(scientific_of_bits(bits).parse::<f64>().unwrap(), float);
    }
}
