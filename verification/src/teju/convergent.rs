//! That the logarithm helper is the logarithm, on all of its range.
//!
//! Two neighbouring fractions enclose both `log10(2)` and the ratio of the
//! helper: `21306 / 70777` below and `12655 / 42039` above. No fraction with
//! a denominator below `70777 + 42039` lies between them, so up to the
//! exponent `112815` the helper and the logarithm have the same integer part.

use vstd::prelude::*;
use vstd::arithmetic::mul::{lemma_mul_inequality, lemma_mul_strict_inequality};
use vstd::arithmetic::power::{
    lemma_pow0, lemma_pow_adds, lemma_pow_increases, lemma_pow_multiplies, lemma_pow_positive, pow,
};
use vstd::arithmetic::power2::{lemma_pow2, lemma_pow2_adds, lemma_pow2_pos, pow2};
use crate::teju::common::{floor_log10_pow2, EXP_LOG10_POW2_MAX, EXP_LOG10_POW2_MIN};
use crate::teju::logarithm::is_log10_pow2;
use crate::teju::power::{lemma_pow10_adds, lemma_pow10_step, pow10};

verus! {

/// Whether `x / 2^64` is at most `2^a / 10^b`.
pub open spec fn below(a: nat, b: nat, x: int) -> bool {
    x * pow10(b) <= pow2(a) * 0x1_0000_0000_0000_0000
}

/// Whether `2^a / 10^b` is at most `y / 2^64`.
pub open spec fn above(a: nat, b: nat, y: int) -> bool {
    pow2(a) * 0x1_0000_0000_0000_0000 <= y * pow10(b)
}

/// A bound from below, squared: of `2^(2a) / 10^(2b)`.
proof fn lemma_below_squared(a: nat, b: nat, x: int, squared: int)
    requires
        below(a, b, x),
        x >= 0,
        squared * 0x1_0000_0000_0000_0000 <= x * x,
    ensures
        below(2 * a, 2 * b, squared),
{
    let s = 0x1_0000_0000_0000_0000int;
    let n = pow2(a) as int;
    let d = pow10(b) as int;
    lemma_pow2_adds(a, a);
    lemma_pow10_adds(b, b);
    lemma_pow10_step(b);
    assert((x * d) * (x * d) <= (n * s) * (n * s)) by (nonlinear_arith)
        requires
            0 <= x * d <= n * s,
    ;
    assert(0 <= x * d) by (nonlinear_arith)
        requires
            x >= 0,
            d >= 0,
    ;
    assert((squared * (d * d)) * s <= ((n * n) * s) * s) by (nonlinear_arith)
        requires
            (x * d) * (x * d) <= (n * s) * (n * s),
            squared * s <= x * x,
            d >= 0,
    ;
    assert(squared * (d * d) <= (n * n) * s) by (nonlinear_arith)
        requires
            (squared * (d * d)) * s <= ((n * n) * s) * s,
            s > 0,
    ;
}

/// A bound from below, doubled: of `2^(a+1) / 10^b`.
proof fn lemma_below_doubled(a: nat, b: nat, x: int)
    requires
        below(a, b, x),
    ensures
        below(a + 1, b, 2 * x),
{
    lemma_pow2_adds(a, 1);
    vstd::arithmetic::power2::lemma2_to64();
    let n = pow2(a) as int;
    let d = pow10(b) as int;
    assert((2 * x) * d <= (n * 2) * 0x1_0000_0000_0000_0000) by (nonlinear_arith)
        requires
            x * d <= n * 0x1_0000_0000_0000_0000,
    ;
}

/// A bound from below, over ten: of `2^a / 10^(b+1)`.
proof fn lemma_below_tenth(a: nat, b: nat, x: int, tenth: int)
    requires
        below(a, b, x),
        10 * tenth <= x,
    ensures
        below(a, b + 1, tenth),
{
    lemma_pow10_step(b);
    let d = pow10(b) as int;
    assert(tenth * (10 * d) <= x * d) by (nonlinear_arith)
        requires
            10 * tenth <= x,
            d >= 0,
    ;
}

/// A bound from above, squared: of `2^(2a) / 10^(2b)`.
proof fn lemma_above_squared(a: nat, b: nat, y: int, squared: int)
    requires
        above(a, b, y),
        y >= 0,
        y * y <= squared * 0x1_0000_0000_0000_0000,
    ensures
        above(2 * a, 2 * b, squared),
{
    let s = 0x1_0000_0000_0000_0000int;
    let n = pow2(a) as int;
    let d = pow10(b) as int;
    lemma_pow2_adds(a, a);
    lemma_pow10_adds(b, b);
    lemma_pow10_step(b);
    assert((n * s) * (n * s) <= (y * d) * (y * d)) by (nonlinear_arith)
        requires
            0 <= n * s <= y * d,
    ;
    assert(((n * n) * s) * s <= (squared * (d * d)) * s) by (nonlinear_arith)
        requires
            (n * s) * (n * s) <= (y * d) * (y * d),
            y * y <= squared * s,
            d >= 0,
    ;
    assert((n * n) * s <= squared * (d * d)) by (nonlinear_arith)
        requires
            ((n * n) * s) * s <= (squared * (d * d)) * s,
            s > 0,
    ;
}

/// A bound from above, doubled: of `2^(a+1) / 10^b`.
proof fn lemma_above_doubled(a: nat, b: nat, y: int)
    requires
        above(a, b, y),
    ensures
        above(a + 1, b, 2 * y),
{
    lemma_pow2_adds(a, 1);
    vstd::arithmetic::power2::lemma2_to64();
    let n = pow2(a) as int;
    let d = pow10(b) as int;
    assert((n * 2) * 0x1_0000_0000_0000_0000 <= (2 * y) * d) by (nonlinear_arith)
        requires
            n * 0x1_0000_0000_0000_0000 <= y * d,
    ;
}

/// A bound from above, over ten: of `2^a / 10^(b+1)`.
proof fn lemma_above_tenth(a: nat, b: nat, y: int, tenth: int)
    requires
        above(a, b, y),
        y <= 10 * tenth,
    ensures
        above(a, b + 1, tenth),
{
    lemma_pow10_step(b);
    let d = pow10(b) as int;
    assert(y * d <= tenth * (10 * d)) by (nonlinear_arith)
        requires
            y <= 10 * tenth,
            d >= 0,
    ;
}

/// `10^21306 < 2^70777`: the fraction `21306 / 70777` lies below `log10(2)`.
/// The quotient is followed in fixed point through the binary digits of the
/// exponent, rounded down at every step; it ends above one.
pub proof fn lemma_lower_convergent()
    ensures
        pow10(21306) < pow2(70777),
{
    vstd::arithmetic::power2::lemma2_to64();
    lemma_pow10_step(0);
    assert(below(0, 0, 0x1_0000_0000_0000_0000int));
    lemma_below_doubled(0, 0, 0x1_0000_0000_0000_0000int);
    lemma_below_squared(1, 0, 0x2_0000_0000_0000_0000int, 0x4_0000_0000_0000_0000int);
    lemma_below_squared(2, 0, 0x4_0000_0000_0000_0000int, 0x10_0000_0000_0000_0000int);
    lemma_below_tenth(4, 0, 0x10_0000_0000_0000_0000int, 0x1_9999_9999_9999_9999int);
    lemma_below_squared(4, 1, 0x1_9999_9999_9999_9999int, 0x2_8f5c_28f5_c28f_5c27int);
    lemma_below_squared(8, 2, 0x2_8f5c_28f5_c28f_5c27int, 0x6_8db8_bac7_10cb_2954int);
    lemma_below_doubled(16, 4, 0x6_8db8_bac7_10cb_2954int);
    lemma_below_tenth(17, 4, 0xd_1b71_758e_2196_52a8int, 0x1_4f8b_588e_368f_0844int);
    lemma_below_squared(17, 5, 0x1_4f8b_588e_368f_0844int, 0x1_b7cd_fd9d_7bdb_ab77int);
    lemma_below_squared(34, 10, 0x1_b7cd_fd9d_7bdb_ab77int, 0x2_f394_2192_4844_6b94int);
    lemma_below_doubled(68, 20, 0x2_f394_2192_4844_6b94int);
    lemma_below_squared(69, 20, 0x5_e728_4324_9088_d728int, 0x22_d84c_4eee_af38_af7eint);
    lemma_below_tenth(138, 40, 0x22_d84c_4eee_af38_af7eint, 0x3_7c07_a17e_44b8_de59int);
    lemma_below_squared(138, 41, 0x3_7c07_a17e_44b8_de59int, 0xc_2445_2da2_29b0_2050int);
    lemma_below_tenth(276, 82, 0xc_2445_2da2_29b0_2050int, 0x1_36d3_b7c3_6a91_9cd4int);
    lemma_below_squared(276, 83, 0x1_36d3_b7c3_6a91_9cd4int, 0x1_7965_7025_b623_4b61int);
    lemma_below_squared(552, 166, 0x1_7965_7025_b623_4b61int, 0x2_2c5b_ec80_c156_b0caint);
    lemma_below_doubled(1104, 332, 0x2_2c5b_ec80_c156_b0caint);
    lemma_below_squared(1105, 332, 0x4_58b7_d901_82ad_6194int, 0x12_e47d_b145_175e_a323int);
    lemma_below_doubled(2210, 664, 0x12_e47d_b145_175e_a323int);
    lemma_below_tenth(2211, 664, 0x25_c8fb_628a_2ebd_4646int, 0x3_c74c_56a7_6b12_ed6dint);
    lemma_below_squared(2211, 665, 0x3_c74c_56a7_6b12_ed6dint, 0xe_46f1_cd68_5ba5_7a58int);
    lemma_below_doubled(4422, 1330, 0xe_46f1_cd68_5ba5_7a58int);
    lemma_below_tenth(4423, 1330, 0x1c_8de3_9ad0_b74a_f4b0int, 0x2_dafd_2914_df21_1878int);
    lemma_below_squared(4423, 1331, 0x2_dafd_2914_df21_1878int, 0x8_2748_c8a5_4261_7822int);
    lemma_below_doubled(8846, 2662, 0x8_2748_c8a5_4261_7822int);
    lemma_below_tenth(8847, 2662, 0x10_4e91_914a_84c2_f044int, 0x1_a174_f4ed_da13_7e6dint);
    lemma_below_squared(8847, 2663, 0x1_a174_f4ed_da13_7e6dint, 0x2_a8be_3b5d_c257_683cint);
    lemma_below_squared(17694, 5326, 0x2_a8be_3b5d_c257_683cint, 0x7_1233_28be_4561_2d68int);
    lemma_below_squared(35388, 10652, 0x7_1233_28be_4561_2d68int, 0x32_0017_765b_cf5d_cde4int);
    lemma_below_doubled(70776, 21304, 0x32_0017_765b_cf5d_cde4int);
    lemma_below_tenth(70777, 21304, 0x64_002e_ecb7_9ebb_9bc8int, 0xa_0004_b145_8fdf_8f94int);
    lemma_below_tenth(70777, 21305, 0xa_0004_b145_8fdf_8f94int, 0x1_0000_7820_8e63_27f5int);
    lemma_pow10_step(21306);
    lemma_pow2_pos(70777);
    let d = pow10(21306) as int;
    let n = pow2(70777) as int;
    assert(d < n) by (nonlinear_arith)
        requires
            0x1_0000_7820_8e63_27f5int * d <= n * 0x1_0000_0000_0000_0000,
            d >= 1,
    ;
}

/// `2^42039 < 10^12655`: the fraction `12655 / 42039` lies above `log10(2)`.
/// The quotient is followed as above, rounded up; it ends below one.
pub proof fn lemma_upper_convergent()
    ensures
        pow2(42039) < pow10(12655),
{
    vstd::arithmetic::power2::lemma2_to64();
    lemma_pow10_step(0);
    assert(above(0, 0, 0x1_0000_0000_0000_0000int));
    lemma_above_doubled(0, 0, 0x1_0000_0000_0000_0000int);
    lemma_above_squared(1, 0, 0x2_0000_0000_0000_0000int, 0x4_0000_0000_0000_0000int);
    lemma_above_squared(2, 0, 0x4_0000_0000_0000_0000int, 0x10_0000_0000_0000_0000int);
    lemma_above_doubled(4, 0, 0x10_0000_0000_0000_0000int);
    lemma_above_tenth(5, 0, 0x20_0000_0000_0000_0000int, 0x3_3333_3333_3333_3334int);
    lemma_above_squared(5, 1, 0x3_3333_3333_3333_3334int, 0xa_3d70_a3d7_0a3d_70a9int);
    lemma_above_tenth(10, 2, 0xa_3d70_a3d7_0a3d_70a9int, 0x1_0624_dd2f_1a9f_be78int);
    lemma_above_squared(10, 3, 0x1_0624_dd2f_1a9f_be78int, 0x1_0c6f_7a0b_5ed8_d36eint);
    lemma_above_squared(20, 6, 0x1_0c6f_7a0b_5ed8_d36eint, 0x1_1979_9812_dea1_119eint);
    lemma_above_doubled(40, 12, 0x1_1979_9812_dea1_119eint);
    lemma_above_squared(41, 12, 0x2_32f3_3025_bd42_233cint, 0x4_d5f0_a66a_23a9_daccint);
    lemma_above_squared(82, 24, 0x4_d5f0_a66a_23a9_daccint, 0x17_624f_8a76_2fd8_2d34int);
    lemma_above_tenth(164, 48, 0x17_624f_8a76_2fd8_2d34int, 0x2_56a1_8dd8_9e62_6aecint);
    lemma_above_squared(164, 49, 0x2_56a1_8dd8_9e62_6aecint, 0x5_77d7_28a3_bd03_5916int);
    lemma_above_squared(328, 98, 0x5_77d7_28a3_bd03_5916int, 0x1d_e681_5302_e555_a71aint);
    lemma_above_tenth(656, 196, 0x1d_e681_5302_e555_a71aint, 0x2_fd73_5519_e3bb_c3e9int);
    lemma_above_squared(656, 197, 0x2_fd73_5519_e3bb_c3e9int, 0x8_f0ba_7e92_4c9c_ff6aint);
    lemma_above_doubled(1312, 394, 0x8_f0ba_7e92_4c9c_ff6aint);
    lemma_above_tenth(1313, 394, 0x11_e174_fd24_9939_fed4int, 0x1_c9be_e61d_4285_ccafint);
    lemma_above_squared(1313, 395, 0x1_c9be_e61d_4285_ccafint, 0x3_327b_1fee_d9c9_0a46int);
    lemma_above_doubled(2626, 790, 0x3_327b_1fee_d9c9_0a46int);
    lemma_above_squared(2627, 790, 0x6_64f6_3fdd_b392_148cint, 0x28_e35c_4d28_6d27_11bfint);
    lemma_above_tenth(5254, 1580, 0x28_e35c_4d28_6d27_11bfint, 0x4_16bc_6e1d_a483_e82dint);
    lemma_above_squared(5254, 1581, 0x4_16bc_6e1d_a483_e82dint, 0x10_b7e8_5e8c_274d_0bddint);
    lemma_above_doubled(10508, 3162, 0x10_b7e8_5e8c_274d_0bddint);
    lemma_above_tenth(10509, 3162, 0x21_6fd0_bd18_4e9a_17baint, 0x3_57fb_461c_07dc_3593int);
    lemma_above_squared(10509, 3163, 0x3_57fb_461c_07dc_3593int, 0xb_2e20_64f1_caab_af0cint);
    lemma_above_doubled(21018, 6326, 0xb_2e20_64f1_caab_af0cint);
    lemma_above_tenth(21019, 6326, 0x16_5c40_c9e3_9557_5e18int, 0x2_3c6c_e0fd_2888_bc9cint);
    lemma_above_squared(21019, 6327, 0x2_3c6c_e0fd_2888_bc9cint, 0x4_fff6_bbb9_e879_3f81int);
    lemma_above_doubled(42038, 12654, 0x4_fff6_bbb9_e879_3f81int);
    lemma_above_tenth(42039, 12654, 0x9_ffed_7773_d0f2_7f02int, 0xfffe_258b_94e5_0cb4int);
    lemma_pow10_step(12655);
    lemma_pow2_pos(42039);
    let d = pow10(12655) as int;
    let n = pow2(42039) as int;
    assert(n < d) by (nonlinear_arith)
        requires
            n * 0x1_0000_0000_0000_0000 <= 0xfffe_258b_94e5_0cb4int * d,
            d >= 1,
            n >= 1,
    ;
}

/// A larger base has no smaller power, and a larger one where the exponent
/// is not zero.
pub proof fn lemma_pow_of_larger_base(x: int, y: int, n: nat)
    requires
        0 <= x <= y,
    ensures
        0 <= pow(x, n) <= pow(y, n),
        x < y && n >= 1 ==> pow(x, n) < pow(y, n),
    decreases n,
{
    reveal(pow);
    if n > 0 {
        lemma_pow_of_larger_base(x, y, (n - 1) as nat);
        let a = pow(x, (n - 1) as nat);
        let b = pow(y, (n - 1) as nat);
        assert(0 <= x * a <= y * b) by (nonlinear_arith)
            requires
                0 <= x <= y,
                0 <= a <= b,
        ;
        if x < y {
            lemma_pow_positive(y, (n - 1) as nat);
            assert(x * a < y * b) by (nonlinear_arith)
                requires
                    0 <= x < y,
                    0 <= a <= b,
                    b >= 1,
            ;
        }
    }
}

/// Where `x^p < y^q` and `i / n <= p / q`, there `x^i < y^n`.
pub proof fn lemma_power_below(x: int, p: nat, y: int, q: nat, i: nat, n: nat)
    requires
        x >= 1,
        y >= 1,
        q >= 1,
        n >= 1,
        pow(x, p) < pow(y, q),
        i * q <= p * n,
    ensures
        pow(x, i) < pow(y, n),
{
    // (x^i)^q = x^(i q) <= x^(p n) = (x^p)^n < (y^q)^n = (y^n)^q
    lemma_pow_multiplies(x, i, q);
    lemma_pow_multiplies(x, p, n);
    lemma_pow_multiplies(y, q, n);
    lemma_pow_multiplies(y, n, q);
    lemma_pow_increases(x as nat, i * q, p * n);
    lemma_pow_positive(x, p);
    lemma_pow_positive(x, i);
    lemma_pow_positive(y, n);
    lemma_pow_of_larger_base(pow(x, p), pow(y, q), n);
    assert(q * n == n * q) by (nonlinear_arith);
    assert(pow(pow(x, i), q) < pow(pow(y, n), q));
    if pow(x, i) >= pow(y, n) {
        lemma_pow_of_larger_base(pow(y, n), pow(x, i), q);
    }
}

/// Where `y^q < x^p` and `p / q <= i / n`, there `y^n < x^i`.
pub proof fn lemma_power_above(x: int, p: nat, y: int, q: nat, i: nat, n: nat)
    requires
        x >= 1,
        y >= 1,
        q >= 1,
        n >= 1,
        pow(y, q) < pow(x, p),
        p * n <= i * q,
    ensures
        pow(y, n) < pow(x, i),
{
    // (y^n)^q = (y^q)^n < (x^p)^n = x^(p n) <= x^(i q) = (x^i)^q
    lemma_pow_multiplies(x, i, q);
    lemma_pow_multiplies(x, p, n);
    lemma_pow_multiplies(y, q, n);
    lemma_pow_multiplies(y, n, q);
    lemma_pow_increases(x as nat, p * n, i * q);
    lemma_pow_positive(y, q);
    lemma_pow_positive(x, i);
    lemma_pow_positive(y, n);
    lemma_pow_of_larger_base(pow(y, q), pow(x, p), n);
    assert(q * n == n * q) by (nonlinear_arith);
    assert(pow(pow(y, n), q) < pow(pow(x, i), q));
    if pow(y, n) >= pow(x, i) {
        lemma_pow_of_larger_base(pow(x, i), pow(y, n), q);
    }
}

/// No fraction with a denominator up to 112815 lies between the two
/// neighbours `21306 / 70777` and `12655 / 42039`.
pub proof fn lemma_no_fraction_between(k: int, n: int)
    requires
        1 <= n <= 112815,
        21306 * n < k * 70777,
    ensures
        12655 * n <= k * 42039,
{
    if k * 42039 < 12655 * n {
        let u = k * 70777 - 21306 * n;
        let v = 12655 * n - k * 42039;
        assert(n == 70777 * v + 42039 * u);
    }
}

/// The ratio of the helper lies between the two neighbours, and so does
/// every quotient that it rounds: the integer part that the helper gives of
/// `n * log10(2)`, and the next integer, lie on both sides of both.
pub proof fn lemma_helper_between(k: int, n: int)
    requires
        1 <= n <= 112815,
        k * 0x1_0000_0000 <= 1292913987 * n < (k + 1) * 0x1_0000_0000,
    ensures
        k * 70777 <= 21306 * n,
        12655 * n <= (k + 1) * 42039,
{
    // the helper's ratio lies above the lower neighbour and below the upper
    assert(21306 * 0x1_0000_0000 < 1292913987 * 70777);
    assert(1292913987 * 42039 < 12655 * 0x1_0000_0000);
    if k * 70777 > 21306 * n {
        assert((k * 42039) * 0x1_0000_0000 <= (1292913987 * 42039) * n);
        assert(k * 42039 < 12655 * n);
        lemma_no_fraction_between(k, n);
    }
    if 12655 * n > (k + 1) * 42039 {
        assert((1292913987 * 70777) * n < ((k + 1) * 70777) * 0x1_0000_0000);
        assert(21306 * n < (k + 1) * 70777);
        lemma_no_fraction_between(k + 1, n);
    }
}

/// The same for the helper's ratio rounded up: of a negative exponent.
pub proof fn lemma_helper_between_up(k: int, n: int)
    requires
        1 <= n <= 112815,
        (k - 1) * 0x1_0000_0000 < 1292913987 * n <= k * 0x1_0000_0000,
    ensures
        (k - 1) * 70777 <= 21306 * n,
        12655 * n <= k * 42039,
{
    assert(21306 * 0x1_0000_0000 < 1292913987 * 70777);
    assert(1292913987 * 42039 < 12655 * 0x1_0000_0000);
    if (k - 1) * 70777 > 21306 * n {
        assert(((k - 1) * 42039) * 0x1_0000_0000 < (1292913987 * 42039) * n);
        assert((k - 1) * 42039 < 12655 * n);
        lemma_no_fraction_between(k - 1, n);
    }
    if 12655 * n > k * 42039 {
        assert((1292913987 * 70777) * n <= (k * 70777) * 0x1_0000_0000);
        assert(21306 * n < k * 70777);
        lemma_no_fraction_between(k, n);
    }
}

/// On all of its range the logarithm helper gives the integer part of the
/// decimal logarithm of the power of two.
pub proof fn lemma_floor_log10_pow2(e: int)
    requires
        EXP_LOG10_POW2_MIN <= e <= EXP_LOG10_POW2_MAX,
    ensures
        is_log10_pow2(e, floor_log10_pow2(e)),
{
    let f = floor_log10_pow2(e);
    lemma_lower_convergent();
    lemma_upper_convergent();
    lemma_pow2(70777);
    lemma_pow2(42039);
    lemma_pow_positive(10, 21306);
    lemma_pow_positive(10, 12655);
    vstd::arithmetic::power2::lemma2_to64();
    lemma_pow10_step(0);
    if e == 0 {
    } else if e > 0 {
        let n = e as nat;
        let i = f as nat;
        lemma_helper_between(f, e);
        lemma_pow2(n);
        lemma_pow_positive(10, i);
        lemma_pow_positive(10, i + 1);
        lemma_power_below(10, 21306, 2, 70777, i, n);
        lemma_power_above(10, 12655, 2, 42039, i + 1, n);
    } else {
        let n = (-e) as nat;
        let g = (-f) as nat;
        lemma_helper_between_up(-f, -e);
        lemma_pow2(n);
        lemma_pow_positive(10, g);
        lemma_pow_positive(10, (g - 1) as nat);
        lemma_power_above(10, 12655, 2, 42039, g, n);
        lemma_power_below(10, 21306, 2, 70777, (g - 1) as nat, n);
    }
}

} // verus!
