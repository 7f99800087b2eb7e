use teju::{Buffer, Decimal, Double, General, Scientific};

fn double(num: f64) -> Double {
    Double::from_bits(num.to_bits())
}

fn general(num: f64) -> String {
    Buffer::<Double, General>::new().format(double(num)).to_string()
}

fn general_finite(num: f64) -> String {
    Buffer::<Double, General>::new().format_finite(double(num)).to_string()
}

fn scientific(num: f64) -> String {
    Buffer::<Double, Scientific>::new().format_exp(double(num)).to_string()
}

fn scientific_finite(num: f64) -> String {
    Buffer::<Double, Scientific>::new().format_exp_finite(double(num)).to_string()
}

fn decimal(num: f64) -> String {
    Buffer::<Double, Decimal>::new().format_dec(double(num)).to_string()
}

fn decimal_finite(num: f64) -> String {
    Buffer::<Double, Decimal>::new().format_dec_finite(double(num)).to_string()
}

fn negated(num: f64, str: &str) -> String {
    if num.is_sign_positive() {
        "-".to_string() + str
    } else {
        str[1..].to_string()
    }
}

/// Asserts that `num` is serialised as `str` via `format{,_finite}`; repeats
/// for `-num`.
fn assert_finite(num: f64, str: &str) {
    assert!(num.is_finite());
    assert_eq!(str.parse::<f64>().unwrap(), num, "Incorrect test case!");
    let str_neg = negated(num, str);

    assert_eq!(general(num), str);
    assert_eq!(general_finite(num), str);

    assert_eq!(general(-num), str_neg.as_str());
    assert_eq!(general_finite(-num), str_neg.as_str());

    assert_eq!(general(num), ryu::Buffer::new().format(num));
    assert_eq!(general(-num), ryu::Buffer::new().format(-num));
}

/// Asserts that `num` is serialised as `str` via `format_exp{,_finite}`;
/// repeats for `-num`.
fn assert_exp_finite(num: f64, str: &str) {
    assert!(num.is_finite());
    assert_eq!(str.parse::<f64>().unwrap(), num, "Incorrect test case!");
    let str_neg = negated(num, str);

    assert_eq!(scientific(num), str);
    assert_eq!(scientific_finite(num), str);

    assert_eq!(scientific(-num), str_neg.as_str());
    assert_eq!(scientific_finite(-num), str_neg.as_str());
}

/// Asserts that `num` is serialised as `str` via `format_dec{,_finite}`;
/// repeats for `-num`.
fn assert_dec_finite(num: f64, str: &str) {
    assert!(num.is_finite());
    assert_eq!(str.parse::<f64>().unwrap(), num, "Incorrect test case!");
    let str_neg = negated(num, str);

    assert_eq!(decimal(num), str);
    assert_eq!(decimal_finite(num), str);

    assert_eq!(decimal(-num), str_neg.as_str());
    assert_eq!(decimal_finite(-num), str_neg.as_str());
}

fn assert_all_finite(num: f64, str_general: &str, str_exp: &str, str_dec: &str) {
    assert!(num.is_finite());
    assert_finite(num, str_general);
    assert_exp_finite(num, str_exp);
    assert_dec_finite(num, str_dec);
}

#[test]
fn string_general() {
    assert_finite(1234e-30, "1.234e-27");
    assert_finite(1234e-6, "0.001234");
    assert_finite(1234e-4, "0.1234");
    assert_finite(1234e-2, "12.34");
    assert_finite(1234e0, "1234.0");
    assert_finite(1234e+2, "123400.0");
    assert_finite(1234e+7, "12340000000.0");
    assert_finite(1234e+30, "1.234e33");
    assert_finite(1e30, "1e30");
    assert_finite(1234e+12, "1234000000000000.0");
    assert_finite(1234567890123456.0, "1234567890123456.0");
    assert_finite(1000000000000000.0, "1000000000000000.0");
}

#[test]
fn string_general_thresholds() {
    // The decimal point stands at most sixteen places behind the first digit
    assert_finite(1e15, "1000000000000000.0");
    assert_finite(1e16, "1e16");
    assert_finite(9007199254740991.0, "9007199254740991.0");
    assert_finite(12345678901234567.0, "1.2345678901234568e16");
    assert_finite(1234567890123456.7, "1234567890123456.8");
    // and at most four places before it
    assert_finite(1e-5, "0.00001");
    assert_finite(1e-6, "1e-6");
    assert_finite(1.234e-5, "0.00001234");
    assert_finite(1.234e-6, "1.234e-6");
    assert_finite(0.00012345678901234567, "0.00012345678901234567");
}

#[test]
fn string_small() {
    assert_all_finite(123.456, "123.456", "1.23456e2", "123.456");
    assert_all_finite(0.1234, "0.1234", "1.234e-1", "0.1234");
    assert_all_finite(0.001234, "0.001234", "1.234e-3", "0.001234");
    assert_all_finite(
        core::f64::consts::PI,
        "3.141592653589793",
        "3.141592653589793e0",
        "3.141592653589793",
    );
    assert_all_finite(
        core::f64::consts::E,
        "2.718281828459045",
        "2.718281828459045e0",
        "2.718281828459045",
    );
    assert_all_finite(
        core::f64::consts::LN_2,
        "0.6931471805599453",
        "6.931471805599453e-1",
        "0.6931471805599453",
    );
}

#[test]
fn string_small_integer() {
    assert_all_finite(123456., "123456.0", "1.23456e5", "123456.0");
    assert_all_finite(1., "1.0", "1e0", "1.0");
    assert_all_finite(12003400., "12003400.0", "1.20034e7", "12003400.0");
}

#[test]
fn string_extremes() {
    assert_eq!(general(0.0), "0.0");
    assert_eq!(general_finite(0.0), "0.0");
    assert_eq!(general(-0.0), "-0.0");
    assert_eq!(general_finite(-0.0), "-0.0");
    assert_eq!(scientific(0.0), "0e0");
    assert_eq!(scientific_finite(0.0), "0e0");
    assert_eq!(scientific(-0.0), "-0e0");
    assert_eq!(scientific_finite(-0.0), "-0e0");
    assert_eq!(decimal(0.0), "0.0");
    assert_eq!(decimal_finite(0.0), "0.0");
    assert_eq!(decimal(-0.0), "-0.0");
    assert_eq!(decimal_finite(-0.0), "-0.0");
    assert_eq!(general(0.0), ryu::Buffer::new().format(0.0f64));
    assert_eq!(general(-0.0), ryu::Buffer::new().format(-0.0f64));

    let min_subnormal_dec = "0.".to_string() + &"0".repeat(323) + "5";
    assert_all_finite(f64::from_bits(1), "5e-324", "5e-324", &min_subnormal_dec);
    let min_normal_dec = "0.".to_string() + &"0".repeat(307) + "22250738585072014";
    assert_all_finite(
        f64::MIN_POSITIVE,
        "2.2250738585072014e-308",
        "2.2250738585072014e-308",
        &min_normal_dec,
    );
    let max_dec = "17976931348623157".to_string() + &"0".repeat(292) + ".0";
    assert_all_finite(f64::MAX, "1.7976931348623157e308", "1.7976931348623157e308", &max_dec);
}

#[test]
fn string_scenarios() {
    assert_all_finite(
        1234e-30,
        "1.234e-27",
        "1.234e-27",
        "0.000000000000000000000000001234",
    );
    assert_all_finite(1234e0, "1234.0", "1.234e3", "1234.0");
    assert_all_finite(1e30, "1e30", "1e30", "1000000000000000000000000000000.0");
    assert_all_finite(
        1.602176634e-19,
        "1.602176634e-19",
        "1.602176634e-19",
        "0.0000000000000000001602176634",
    );
    assert_all_finite(137.035999177, "137.035999177", "1.37035999177e2", "137.035999177");
    assert_all_finite(1e3, "1000.0", "1e3", "1000.0");
    assert_all_finite(3.14159, "3.14159", "3.14159e0", "3.14159");
    assert_all_finite(1.234, "1.234", "1.234e0", "1.234");
}

#[test]
fn string_specials() {
    for (value, str) in [
        (f64::NAN, "NaN"),
        (-f64::NAN, "NaN"),
        (f64::INFINITY, "inf"),
        (f64::NEG_INFINITY, "-inf"),
    ] {
        assert_eq!(general(value), str);
        assert_eq!(scientific(value), str);
        assert_eq!(decimal(value), str);
        // These give some text of their own
        assert!(general_finite(value).is_ascii());
        assert!(scientific_finite(value).is_ascii());
        assert!(decimal_finite(value).is_ascii());
    }
}

#[test]
fn string_of_patterns_that_are_not_finite() {
    assert_eq!(scientific_finite(f64::INFINITY), "1.797693134862316e308");
    assert_eq!(scientific_finite(f64::NEG_INFINITY), "-1.797693134862316e308");
    assert_eq!(general_finite(f64::INFINITY), "1.797693134862316e308");
    assert_eq!(scientific_finite(f64::from_bits(0x7ff8_0000_0000_0000)), "2.696539702293474e308");
    assert_eq!(scientific_finite(f64::from_bits(0x7fff_ffff_ffff_ffff)), "3.5953862697246314e308");
    assert_eq!(
        decimal_finite(f64::from_bits(0xffff_ffff_ffff_ffff)),
        "-35953862697246314".to_string() + &"0".repeat(292) + ".0"
    );
}

#[test]
fn string_nan_payloads() {
    let mut seed: u64 = 0x853c_49e6_748f_ea9b;
    for _ in 0..20_000 {
        seed = seed.wrapping_mul(6364136223846793005).wrapping_add(1442695040888963407);
        let sign = seed & (1 << 63);
        let payload = (seed >> 11) % ((1 << 52) - 1) + 1;
        let exp = ((1u64 << 11) - 1) << 52;
        let float = f64::from_bits(sign | exp | payload);
        assert!(float.is_nan(), "Incorrect test case!");

        assert_eq!(general(float), "NaN");
        assert_eq!(scientific(float), "NaN");
        assert_eq!(decimal(float), "NaN");
    }
}

#[test]
fn buffers_are_reused() {
    let mut buffer = Buffer::<Double, General>::new();
    assert_eq!(buffer.format(double(1.5)), "1.5");
    assert_eq!(buffer.format(double(-123456789.25)), "-123456789.25");
    assert_eq!(buffer.format(double(0.0)), "0.0");
    assert_eq!(buffer.format(double(2.5e-10)), "2.5e-10");
    let mut buffer: Buffer<Double, Decimal> = Default::default();
    assert_eq!(buffer.format_dec(double(2.5e-10)), "0.00000000025");
    assert_eq!(buffer.format_dec(double(1.5)), "1.5");
}

#[test]
fn bits_are_kept() {
    assert_eq!(Double::from_bits(0x4009_21fb_5444_2d18).to_bits(), 0x4009_21fb_5444_2d18);
    assert_eq!(double(core::f64::consts::PI).to_bits(), 0x4009_21fb_5444_2d18);
}

#[test]
fn new_buffers_hold_zeros() {
    let general = <General as teju::teju::format::Sealed>::new_buffer();
    assert_eq!(general, [0u8; 32]);
    let scientific = <Scientific as teju::teju::format::Sealed>::new_buffer();
    assert_eq!(scientific, [0u8; 32]);
    let decimal = <Decimal as teju::teju::format::Sealed>::new_buffer();
    assert_eq!(decimal.len(), 352);
    assert!(decimal.iter().all(|byte| *byte == 0));
}
