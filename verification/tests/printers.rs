use teju::teju::fmt::{len_u64, print_i32_exp, print_u64_mantissa, print_u64_mantissa_known_len};

#[test]
fn test_u64_mantissa() {
    let mut buf = [0u8; 80];

    let n = print_u64_mantissa(1234, &mut buf);
    assert_eq!(&buf[..n], b"1234");

    let n = print_u64_mantissa(0, &mut buf);
    assert_eq!(&buf[..n], b"0");

    let n = print_u64_mantissa(1, &mut buf);
    assert_eq!(&buf[..n], b"1");

    let n = print_u64_mantissa(9, &mut buf);
    assert_eq!(&buf[..n], b"9");

    let n = print_u64_mantissa(10, &mut buf);
    assert_eq!(&buf[..n], b"10");

    let n = print_u64_mantissa(061295, &mut buf);
    assert_eq!(&buf[..n], b"61295");

    let n = print_u64_mantissa(99_999_999_999_999_999, &mut buf);
    assert_eq!(&buf[..n], b"99999999999999999");
}

#[test]
fn test_u64_mantissa_known_len() {
    let mut buf = [0u8; 80];

    let n = print_u64_mantissa_known_len(1234, &mut buf, 4);
    assert_eq!(&buf[..n], b"1234");

    let n = print_u64_mantissa_known_len(0, &mut buf, 1);
    assert_eq!(&buf[..n], b"0");

    let n = print_u64_mantissa_known_len(1, &mut buf, 1);
    assert_eq!(&buf[..n], b"1");

    let n = print_u64_mantissa_known_len(9, &mut buf, 1);
    assert_eq!(&buf[..n], b"9");

    let n = print_u64_mantissa_known_len(10, &mut buf, 2);
    assert_eq!(&buf[..n], b"10");

    let n = print_u64_mantissa_known_len(061295, &mut buf, 5);
    assert_eq!(&buf[..n], b"61295");

    let n = print_u64_mantissa_known_len(99_999_999_999_999_999, &mut buf, 17);
    assert_eq!(&buf[..n], b"99999999999999999");
}

#[test]
fn test_i32_exp() {
    let mut buf = [0u8; 80];

    for x in -999..=999 {
        let len = print_i32_exp(x, &mut buf);
        let std = format!("{x}");
        assert_eq!(&buf[..len], std.as_bytes())
    }
}

#[test]
fn len_u64_counts_digits() {
    assert_eq!(len_u64(0), 1);
    assert_eq!(len_u64(9), 1);
    assert_eq!(len_u64(10), 2);
    assert_eq!(len_u64(99), 2);
    assert_eq!(len_u64(100), 3);
    let mut power: u64 = 1;
    for digits in 1..=17usize {
        assert_eq!(len_u64(power), digits);
        assert_eq!(len_u64(power * 10 - 1), digits);
        if digits < 17 {
            power *= 10;
        }
    }
}

#[test]
fn len_u64_stops_at_seventeen() {
    assert_eq!(len_u64(100_000_000_000_000_000), 17);
    assert_eq!(len_u64(u64::MAX), 17);
}

#[test]
fn known_len_pads_with_zeros() {
    let mut buf = [b'x'; 24];
    let n = print_u64_mantissa_known_len(42, &mut buf, 6);
    assert_eq!(n, 6);
    assert_eq!(&buf[..6], b"000042");
    assert_eq!(&buf[6..], [b'x'; 18].as_slice());
}

#[test]
fn known_len_keeps_the_last_digits() {
    let mut buf = [b'x'; 24];
    let n = print_u64_mantissa_known_len(123456, &mut buf, 3);
    assert_eq!(n, 3);
    assert_eq!(&buf[..3], b"456");
    assert_eq!(buf[3], b'x');
}

#[test]
fn known_len_pads_zero_too() {
    let mut buf = [b'x'; 24];
    let n = print_u64_mantissa_known_len(0, &mut buf, 5);
    assert_eq!(n, 5);
    assert_eq!(&buf[..6], b"00000x");
    let n = print_u64_mantissa_known_len(0, &mut buf, 3);
    assert_eq!(n, 3);
    assert_eq!(&buf[..6], b"00000x");
    let mut buf = [b'x'; 24];
    let n = print_u64_mantissa_known_len(0, &mut buf, 17);
    assert_eq!(n, 17);
    assert_eq!(&buf[..18], b"00000000000000000x");
}

#[test]
fn known_len_of_nothing_writes_nothing() {
    let mut buf = [b'x'; 4];
    let n = print_u64_mantissa_known_len(77, &mut buf, 0);
    assert_eq!(n, 0);
    assert_eq!(&buf, b"xxxx");
}

#[test]
fn mantissa_leaves_the_rest_of_the_buffer() {
    let mut buf = [b'x'; 24];
    let n = print_u64_mantissa(10_000_000_000_000_000, &mut buf);
    assert_eq!(n, 17);
    assert_eq!(&buf[..17], b"10000000000000000");
    assert_eq!(&buf[17..], b"xxxxxxx");
}

#[test]
fn mantissa_agrees_with_std_around_powers() {
    let mut buf = [0u8; 20];
    let mut power: u64 = 1;
    for _ in 0..17 {
        for x in [power - 1, power, power + 1, power * 2, power * 5 - 1, power * 9 + 1] {
            let n = print_u64_mantissa(x, &mut buf);
            assert_eq!(&buf[..n], format!("{x}").as_bytes());
            let len = len_u64(x);
            let n = print_u64_mantissa_known_len(x, &mut buf, len);
            assert_eq!(&buf[..n], format!("{x}").as_bytes());
        }
        power *= 10;
    }
}

#[test]
fn mantissa_agrees_with_std_on_powers_of_two() {
    let mut buf = [0u8; 20];
    for shift in 0..56 {
        for x in [1u64 << shift, (1u64 << shift) - 1, (1u64 << shift) + 1] {
            let n = print_u64_mantissa(x, &mut buf);
            assert_eq!(&buf[..n], format!("{x}").as_bytes());
        }
    }
}

#[test]
fn exponent_leaves_the_rest_of_the_buffer() {
    let mut buf = [b'x'; 6];
    assert_eq!(print_i32_exp(-7, &mut buf), 2);
    assert_eq!(&buf, b"-7xxxx");
    let mut buf = [b'x'; 6];
    assert_eq!(print_i32_exp(308, &mut buf), 3);
    assert_eq!(&buf, b"308xxx");
    let mut buf = [b'x'; 6];
    assert_eq!(print_i32_exp(-324, &mut buf), 4);
    assert_eq!(&buf, b"-324xx");
    let mut buf = [b'x'; 6];
    assert_eq!(print_i32_exp(0, &mut buf), 1);
    assert_eq!(&buf, b"0xxxxx");
    let mut buf = [b'x'; 6];
    assert_eq!(print_i32_exp(42, &mut buf), 2);
    assert_eq!(&buf, b"42xxxx");
}
