//! Powers of ten and of five as the specifications use them.

use vstd::prelude::*;
use vstd::arithmetic::power::{pow, lemma_pow_positive, lemma_pow_adds};

verus! {

/// `10^n`.
pub open spec fn pow10(n: nat) -> nat {
    pow(10, n) as nat
}

/// `5^n`.
pub open spec fn pow5(n: nat) -> nat {
    pow(5, n) as nat
}

/// Each power of ten is ten times the one before it, and none is zero.
pub proof fn lemma_pow10_step(n: nat)
    ensures
        pow10(0) == 1,
        pow10(n + 1) == 10 * pow10(n),
        pow10(n) >= 1,
{
    reveal(pow);
    lemma_pow_positive(10, n);
    lemma_pow_positive(10, n + 1);
}

/// Each power of five is five times the one before it, and none is zero.
pub proof fn lemma_pow5_step(n: nat)
    ensures
        pow5(0) == 1,
        pow5(n + 1) == 5 * pow5(n),
        pow5(n) >= 1,
{
    reveal(pow);
    lemma_pow_positive(5, n);
    lemma_pow_positive(5, n + 1);
}

/// `10^(a + b) = 10^a * 10^b`.
pub proof fn lemma_pow10_adds(a: nat, b: nat)
    ensures
        pow10(a + b) == pow10(a) * pow10(b),
{
    lemma_pow_adds(10, a, b);
    lemma_pow_positive(10, a);
    lemma_pow_positive(10, b);
    lemma_pow_positive(10, a + b);
}

/// The powers of ten that fit in a 64-bit word.
pub proof fn lemma_pow10_values()
    ensures
        pow10(0) == 1,
        pow10(1) == 10,
        pow10(2) == 100,
        pow10(3) == 1_000,
        pow10(4) == 10_000,
        pow10(5) == 100_000,
        pow10(6) == 1_000_000,
        pow10(7) == 10_000_000,
        pow10(8) == 100_000_000,
        pow10(9) == 1_000_000_000,
        pow10(10) == 10_000_000_000,
        pow10(11) == 100_000_000_000,
        pow10(12) == 1_000_000_000_000,
        pow10(13) == 10_000_000_000_000,
        pow10(14) == 100_000_000_000_000,
        pow10(15) == 1_000_000_000_000_000,
        pow10(16) == 10_000_000_000_000_000,
        pow10(17) == 100_000_000_000_000_000,
        pow10(18) == 1_000_000_000_000_000_000,
        pow10(19) == 10_000_000_000_000_000_000,
{
    lemma_pow10_step(0);
    lemma_pow10_step(1);
    lemma_pow10_step(2);
    lemma_pow10_step(3);
    lemma_pow10_step(4);
    lemma_pow10_step(5);
    lemma_pow10_step(6);
    lemma_pow10_step(7);
    lemma_pow10_step(8);
    lemma_pow10_step(9);
    lemma_pow10_step(10);
    lemma_pow10_step(11);
    lemma_pow10_step(12);
    lemma_pow10_step(13);
    lemma_pow10_step(14);
    lemma_pow10_step(15);
    lemma_pow10_step(16);
    lemma_pow10_step(17);
    lemma_pow10_step(18);
}

/// The powers of five that fit in a 64-bit word.
pub proof fn lemma_pow5_values()
    ensures
        pow5(0) == 1,
        pow5(1) == 5,
        pow5(2) == 25,
        pow5(3) == 125,
        pow5(4) == 625,
        pow5(5) == 3_125,
        pow5(6) == 15_625,
        pow5(7) == 78_125,
        pow5(8) == 390_625,
        pow5(9) == 1_953_125,
        pow5(10) == 9_765_625,
        pow5(11) == 48_828_125,
        pow5(12) == 244_140_625,
        pow5(13) == 1_220_703_125,
        pow5(14) == 6_103_515_625,
        pow5(15) == 30_517_578_125,
        pow5(16) == 152_587_890_625,
        pow5(17) == 762_939_453_125,
        pow5(18) == 3_814_697_265_625,
        pow5(19) == 19_073_486_328_125,
        pow5(20) == 95_367_431_640_625,
        pow5(21) == 476_837_158_203_125,
        pow5(22) == 2_384_185_791_015_625,
        pow5(23) == 11_920_928_955_078_125,
        pow5(24) == 59_604_644_775_390_625,
        pow5(25) == 298_023_223_876_953_125,
        pow5(26) == 1_490_116_119_384_765_625,
        pow5(27) == 7_450_580_596_923_828_125,
{
    lemma_pow5_step(0);
    lemma_pow5_step(1);
    lemma_pow5_step(2);
    lemma_pow5_step(3);
    lemma_pow5_step(4);
    lemma_pow5_step(5);
    lemma_pow5_step(6);
    lemma_pow5_step(7);
    lemma_pow5_step(8);
    lemma_pow5_step(9);
    lemma_pow5_step(10);
    lemma_pow5_step(11);
    lemma_pow5_step(12);
    lemma_pow5_step(13);
    lemma_pow5_step(14);
    lemma_pow5_step(15);
    lemma_pow5_step(16);
    lemma_pow5_step(17);
    lemma_pow5_step(18);
    lemma_pow5_step(19);
    lemma_pow5_step(20);
    lemma_pow5_step(21);
    lemma_pow5_step(22);
    lemma_pow5_step(23);
    lemma_pow5_step(24);
    lemma_pow5_step(25);
    lemma_pow5_step(26);
}

/// Powers of five grow with the exponent.
pub proof fn lemma_pow5_monotonic(a: nat, b: nat)
    requires
        a <= b,
    ensures
        pow5(a) <= pow5(b),
    decreases b - a,
{
    if a < b {
        lemma_pow5_monotonic(a, (b - 1) as nat);
        lemma_pow5_step((b - 1) as nat);
    }
}

/// Powers of ten grow with the exponent.
pub proof fn lemma_pow10_monotonic(a: nat, b: nat)
    requires
        a <= b,
    ensures
        pow10(a) <= pow10(b),
    decreases b - a,
{
    if a < b {
        lemma_pow10_monotonic(a, (b - 1) as nat);
        lemma_pow10_step((b - 1) as nat);
    }
}

} // verus!
