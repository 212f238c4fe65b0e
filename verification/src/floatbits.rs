//! IEEE-754 binary32 and binary64 encodings of integers and of binary64 values,
//! rounded to nearest with ties to even, computed on bit patterns with integer
//! arithmetic.
//!
//! A positive magnitude `sig * 2^exp` is rounded to a format with `precision`
//! significand bits (hidden bit included) and exponent bias `bias`: its quantum is
//! `2^q` with `q` the larger of `top - (precision - 1)` (where `2^top <= value <
//! 2^(top + 1)`) and the subnormal quantum `1 - bias - (precision - 1)`; the
//! significand is the value divided by the quantum, rounded half to even; a value
//! that rounds past the largest finite number becomes infinity.

use vstd::prelude::*;

verus! {

/// `2^e`.
pub open spec fn two_pow(e: nat) -> nat
    decreases e,
{
    if e == 0 {
        1
    } else {
        2 * two_pow((e - 1) as nat)
    }
}

/// Number of binary digits of `n` (zero for zero).
pub open spec fn bit_length(n: nat) -> nat
    decreases n,
{
    if n == 0 {
        0
    } else {
        1 + bit_length(n / 2)
    }
}

/// `a / b` rounded to the nearest integer, ties to the even one.
pub open spec fn round_half_even_div(a: nat, b: nat) -> nat {
    let quotient = a / b;
    let remainder = a % b;
    if 2 * remainder > b || (2 * remainder == b && quotient % 2 == 1) {
        quotient + 1
    } else {
        quotient
    }
}

/// Exponent of the quantum used to round `sig * 2^exp` (with `sig > 0`).
pub open spec fn rounding_quantum(sig: nat, exp: int, precision: nat, bias: int) -> int {
    let top = bit_length(sig) - 1 + exp;
    let min_quantum = 1 - bias - (precision - 1);
    if top - (precision - 1) > min_quantum {
        top - (precision - 1)
    } else {
        min_quantum
    }
}

/// Significand of `sig * 2^exp` in units of `2^quantum`, rounded half to even.
pub open spec fn quantum_significand(sig: nat, exp: int, quantum: int) -> nat {
    if quantum <= exp {
        sig * two_pow((exp - quantum) as nat)
    } else {
        round_half_even_div(sig, two_pow((quantum - exp) as nat))
    }
}

/// Bit pattern, without the sign bit, of significand `m` times `2^q` in the format.
pub open spec fn encode_magnitude(m: nat, q: int, precision: nat, bias: int) -> nat {
    let hidden = two_pow((precision - 1) as nat);
    if m == 0 {
        0
    } else if m >= hidden {
        let biased = q + (precision - 1) + bias;
        if biased >= 2 * bias + 1 {
            ((2 * bias + 1) * hidden) as nat
        } else {
            (biased * hidden + (m - hidden)) as nat
        }
    } else {
        m
    }
}

/// Bit pattern, without the sign bit, of `sig * 2^exp` rounded to the format.
pub open spec fn rounded_magnitude_bits(sig: nat, exp: int, precision: nat, bias: int) -> nat {
    if sig == 0 {
        0
    } else {
        let quantum = rounding_quantum(sig, exp, precision, bias);
        let m0 = quantum_significand(sig, exp, quantum);
        if m0 == two_pow(precision) {
            encode_magnitude(two_pow((precision - 1) as nat), quantum + 1, precision, bias)
        } else {
            encode_magnitude(m0, quantum, precision, bias)
        }
    }
}

/// Whether `(precision, bias)` is binary32 or binary64.
pub open spec fn supported_format(precision: nat, bias: int) -> bool {
    (precision == 24 && bias == 127) || (precision == 53 && bias == 1023)
}

/// The powers of two that the binary32 and binary64 encodings use.
proof fn lemma_two_pow_values()
    ensures
        two_pow(23) == 0x80_0000,
        two_pow(24) == 0x100_0000,
        two_pow(29) == 0x2000_0000,
        two_pow(31) == 0x8000_0000,
        two_pow(52) == 0x10_0000_0000_0000,
        two_pow(53) == 0x20_0000_0000_0000,
        two_pow(63) == 0x8000_0000_0000_0000,
        two_pow(64) == 0x1_0000_0000_0000_0000,
        two_pow(65) == 0x2_0000_0000_0000_0000,
        two_pow(127) == 0x8000_0000_0000_0000_0000_0000_0000_0000,
{
    assert(two_pow(0) == 1);
    assert(two_pow(1) == 0x2);
    assert(two_pow(2) == 0x4);
    assert(two_pow(3) == 0x8);
    assert(two_pow(4) == 0x10);
    assert(two_pow(5) == 0x20);
    assert(two_pow(6) == 0x40);
    assert(two_pow(7) == 0x80);
    assert(two_pow(8) == 0x100);
    assert(two_pow(9) == 0x200);
    assert(two_pow(10) == 0x400);
    assert(two_pow(11) == 0x800);
    assert(two_pow(12) == 0x1000);
    assert(two_pow(13) == 0x2000);
    assert(two_pow(14) == 0x4000);
    assert(two_pow(15) == 0x8000);
    assert(two_pow(16) == 0x10000);
    assert(two_pow(17) == 0x20000);
    assert(two_pow(18) == 0x40000);
    assert(two_pow(19) == 0x80000);
    assert(two_pow(20) == 0x100000);
    assert(two_pow(21) == 0x200000);
    assert(two_pow(22) == 0x400000);
    assert(two_pow(23) == 0x800000);
    assert(two_pow(24) == 0x1000000);
    assert(two_pow(25) == 0x2000000);
    assert(two_pow(26) == 0x4000000);
    assert(two_pow(27) == 0x8000000);
    assert(two_pow(28) == 0x10000000);
    assert(two_pow(29) == 0x20000000);
    assert(two_pow(30) == 0x40000000);
    assert(two_pow(31) == 0x80000000);
    assert(two_pow(32) == 0x100000000);
    assert(two_pow(33) == 0x200000000);
    assert(two_pow(34) == 0x400000000);
    assert(two_pow(35) == 0x800000000);
    assert(two_pow(36) == 0x1000000000);
    assert(two_pow(37) == 0x2000000000);
    assert(two_pow(38) == 0x4000000000);
    assert(two_pow(39) == 0x8000000000);
    assert(two_pow(40) == 0x10000000000);
    assert(two_pow(41) == 0x20000000000);
    assert(two_pow(42) == 0x40000000000);
    assert(two_pow(43) == 0x80000000000);
    assert(two_pow(44) == 0x100000000000);
    assert(two_pow(45) == 0x200000000000);
    assert(two_pow(46) == 0x400000000000);
    assert(two_pow(47) == 0x800000000000);
    assert(two_pow(48) == 0x1000000000000);
    assert(two_pow(49) == 0x2000000000000);
    assert(two_pow(50) == 0x4000000000000);
    assert(two_pow(51) == 0x8000000000000);
    assert(two_pow(52) == 0x10000000000000);
    assert(two_pow(53) == 0x20000000000000);
    assert(two_pow(54) == 0x40000000000000);
    assert(two_pow(55) == 0x80000000000000);
    assert(two_pow(56) == 0x100000000000000);
    assert(two_pow(57) == 0x200000000000000);
    assert(two_pow(58) == 0x400000000000000);
    assert(two_pow(59) == 0x800000000000000);
    assert(two_pow(60) == 0x1000000000000000);
    assert(two_pow(61) == 0x2000000000000000);
    assert(two_pow(62) == 0x4000000000000000);
    assert(two_pow(63) == 0x8000000000000000);
    assert(two_pow(64) == 0x10000000000000000);
    assert(two_pow(65) == 0x20000000000000000);
    assert(two_pow(66) == 0x40000000000000000);
    assert(two_pow(67) == 0x80000000000000000);
    assert(two_pow(68) == 0x100000000000000000);
    assert(two_pow(69) == 0x200000000000000000);
    assert(two_pow(70) == 0x400000000000000000);
    assert(two_pow(71) == 0x800000000000000000);
    assert(two_pow(72) == 0x1000000000000000000);
    assert(two_pow(73) == 0x2000000000000000000);
    assert(two_pow(74) == 0x4000000000000000000);
    assert(two_pow(75) == 0x8000000000000000000);
    assert(two_pow(76) == 0x10000000000000000000);
    assert(two_pow(77) == 0x20000000000000000000);
    assert(two_pow(78) == 0x40000000000000000000);
    assert(two_pow(79) == 0x80000000000000000000);
    assert(two_pow(80) == 0x100000000000000000000);
    assert(two_pow(81) == 0x200000000000000000000);
    assert(two_pow(82) == 0x400000000000000000000);
    assert(two_pow(83) == 0x800000000000000000000);
    assert(two_pow(84) == 0x1000000000000000000000);
    assert(two_pow(85) == 0x2000000000000000000000);
    assert(two_pow(86) == 0x4000000000000000000000);
    assert(two_pow(87) == 0x8000000000000000000000);
    assert(two_pow(88) == 0x10000000000000000000000);
    assert(two_pow(89) == 0x20000000000000000000000);
    assert(two_pow(90) == 0x40000000000000000000000);
    assert(two_pow(91) == 0x80000000000000000000000);
    assert(two_pow(92) == 0x100000000000000000000000);
    assert(two_pow(93) == 0x200000000000000000000000);
    assert(two_pow(94) == 0x400000000000000000000000);
    assert(two_pow(95) == 0x800000000000000000000000);
    assert(two_pow(96) == 0x1000000000000000000000000);
    assert(two_pow(97) == 0x2000000000000000000000000);
    assert(two_pow(98) == 0x4000000000000000000000000);
    assert(two_pow(99) == 0x8000000000000000000000000);
    assert(two_pow(100) == 0x10000000000000000000000000);
    assert(two_pow(101) == 0x20000000000000000000000000);
    assert(two_pow(102) == 0x40000000000000000000000000);
    assert(two_pow(103) == 0x80000000000000000000000000);
    assert(two_pow(104) == 0x100000000000000000000000000);
    assert(two_pow(105) == 0x200000000000000000000000000);
    assert(two_pow(106) == 0x400000000000000000000000000);
    assert(two_pow(107) == 0x800000000000000000000000000);
    assert(two_pow(108) == 0x1000000000000000000000000000);
    assert(two_pow(109) == 0x2000000000000000000000000000);
    assert(two_pow(110) == 0x4000000000000000000000000000);
    assert(two_pow(111) == 0x8000000000000000000000000000);
    assert(two_pow(112) == 0x10000000000000000000000000000);
    assert(two_pow(113) == 0x20000000000000000000000000000);
    assert(two_pow(114) == 0x40000000000000000000000000000);
    assert(two_pow(115) == 0x80000000000000000000000000000);
    assert(two_pow(116) == 0x100000000000000000000000000000);
    assert(two_pow(117) == 0x200000000000000000000000000000);
    assert(two_pow(118) == 0x400000000000000000000000000000);
    assert(two_pow(119) == 0x800000000000000000000000000000);
    assert(two_pow(120) == 0x1000000000000000000000000000000);
    assert(two_pow(121) == 0x2000000000000000000000000000000);
    assert(two_pow(122) == 0x4000000000000000000000000000000);
    assert(two_pow(123) == 0x8000000000000000000000000000000);
    assert(two_pow(124) == 0x10000000000000000000000000000000);
    assert(two_pow(125) == 0x20000000000000000000000000000000);
    assert(two_pow(126) == 0x40000000000000000000000000000000);
    assert(two_pow(127) == 0x80000000000000000000000000000000);
}

proof fn lemma_two_pow_pos(e: nat)
    ensures
        two_pow(e) >= 1,
    decreases e,
{
    if e > 0 {
        lemma_two_pow_pos((e - 1) as nat);
    }
}

proof fn lemma_two_pow_adds(a: nat, b: nat)
    ensures
        two_pow(a) * two_pow(b) == two_pow(a + b),
    decreases a,
{
    if a > 0 {
        let c = (a - 1) as nat;
        lemma_two_pow_adds(c, b);
        assert(two_pow(a) == 2 * two_pow(c));
        let x = two_pow(c);
        let y = two_pow(b);
        assert(two_pow(a) * y == 2 * (x * y)) by (nonlinear_arith)
            requires
                two_pow(a) == 2 * x,
        ;
        let n = a + b;
        assert(n > 0);
        assert((n - 1) as nat == c + b);
        assert(two_pow(n) == 2 * two_pow((n - 1) as nat));
        assert(x * y == two_pow(c + b));
        assert(two_pow(a) * two_pow(b) == 2 * two_pow(c + b));
    } else {
        assert(two_pow(0) == 1);
        assert(two_pow(a) * two_pow(b) == two_pow(b)) by (nonlinear_arith)
            requires
                two_pow(a) == 1,
        ;
    }
}

proof fn lemma_two_pow_monotone(a: nat, b: nat)
    requires
        a <= b,
    ensures
        two_pow(a) <= two_pow(b),
    decreases b,
{
    if a < b {
        lemma_two_pow_monotone(a, (b - 1) as nat);
        lemma_two_pow_pos((b - 1) as nat);
    }
}

proof fn lemma_bit_length_bounds(n: nat)
    requires
        n > 0,
    ensures
        bit_length(n) >= 1,
        two_pow((bit_length(n) - 1) as nat) <= n,
        n < two_pow(bit_length(n)),
    decreases n,
{
    if n == 1 {
        assert(bit_length(0) == 0);
        assert(bit_length(1) == 1);
        assert(two_pow(1) == 2 * two_pow(0));
    } else {
        lemma_bit_length_bounds(n / 2);
        let k = bit_length(n / 2);
        assert(bit_length(n) == 1 + k);
        assert(two_pow(k) == 2 * two_pow((k - 1) as nat));
        assert(two_pow(k + 1) == 2 * two_pow(k));
    }
}

proof fn lemma_bit_length_u64(n: nat)
    requires
        n < 0x1_0000_0000_0000_0000,
    ensures
        bit_length(n) <= 64,
{
    if n > 0 {
        lemma_bit_length_bounds(n);
        lemma_two_pow_values();
        if bit_length(n) > 64 {
            lemma_two_pow_monotone(64, (bit_length(n) - 1) as nat);
        }
    }
}

/// Computes `2^e`.
fn two_pow_u128(e: u32) -> (r: u128)
    requires
        e < 128,
    ensures
        r == two_pow(e as nat),
{
    let mut r: u128 = 1;
    let mut i: u32 = 0;
    while i < e
        invariant
            i <= e,
            e < 128,
            r == two_pow(i as nat),
        decreases e - i,
    {
        proof {
            lemma_two_pow_monotone((i + 1) as nat, 127);
        lemma_two_pow_values();
        }
        r = r * 2;
        i = i + 1;
    }
    r
}

/// Computes the number of binary digits of `n`.
fn bit_length_u64(n: u64) -> (r: u32)
    ensures
        r == bit_length(n as nat),
        r <= 64,
{
    proof {
        lemma_bit_length_u64(n as nat);
    }
    let mut rest = n;
    let mut count: u32 = 0;
    while rest > 0
        invariant
            bit_length(n as nat) == count + bit_length(rest as nat),
            bit_length(n as nat) <= 64,
        decreases rest,
    {
        rest = rest / 2;
        count = count + 1;
    }
    count
}

/// Rounds `sig * 2^exp` to binary32 (`precision` 24, `bias` 127) or binary64
/// (`precision` 53, `bias` 1023) and returns the bit pattern without the sign bit.
fn round_magnitude(sig: u64, exp: i32, precision: u32, bias: i32) -> (r: u64)
    requires
        supported_format(precision as nat, bias as int),
        -1100 <= exp <= 1000,
    ensures
        r == rounded_magnitude_bits(sig as nat, exp as int, precision as nat, bias as int),
        r <= (2 * bias + 1) * two_pow((precision - 1) as nat),
{
    let ghost gsig = sig as nat;
    let ghost p = precision as nat;
    proof {
        lemma_two_pow_values();
        lemma_rounded_bound(gsig, exp as int, p, bias as int);
    }
    if sig == 0 {
        return 0;
    }
    proof {
        lemma_bit_length_bounds(gsig);
        lemma_bit_length_u64(gsig);
    }
    let length = bit_length_u64(sig);
    let top: i64 = length as i64 - 1 + exp as i64;
    let min_quantum: i64 = 1 - bias as i64 - (precision as i64 - 1);
    let quantum: i64 = if top - (precision as i64 - 1) > min_quantum {
        top - (precision as i64 - 1)
    } else {
        min_quantum
    };
    assert(quantum == rounding_quantum(gsig, exp as int, p, bias as int));
    let m0: u128 = if quantum <= exp as i64 {
        let shift = (exp as i64 - quantum) as u32;
        proof {
            lemma_two_pow_monotone(shift as nat, 52);
            assert(gsig * two_pow(shift as nat) < 0x1_0000_0000_0000_0000 * 0x10_0000_0000_0000) by (nonlinear_arith)
                requires
                    gsig < 0x1_0000_0000_0000_0000,
                    two_pow(shift as nat) <= 0x10_0000_0000_0000,
            ;
        }
        let factor = two_pow_u128(shift);
        sig as u128 * factor
    } else {
        let shift = quantum - exp as i64;
        if shift > 65 {
            proof {
                let s = shift as nat;
                lemma_two_pow_monotone(65, s);
                assert(gsig / two_pow(s) == 0) by (nonlinear_arith)
                    requires
                        gsig < two_pow(s),
                ;
                assert(gsig % two_pow(s) == gsig) by (nonlinear_arith)
                    requires
                        gsig < two_pow(s),
                ;
            }
            0
        } else {
            proof {
                lemma_two_pow_pos(shift as nat);
            }
            let divisor = two_pow_u128(shift as u32);
            proof {
                lemma_two_pow_monotone(shift as nat, 65);
            }
            let quotient = sig as u128 / divisor;
            let remainder = sig as u128 % divisor;
            assert(remainder < divisor);
            assert(quotient <= sig) by (nonlinear_arith)
                requires
                    divisor >= 1,
                    quotient == sig as u128 / divisor,
            ;
            if 2 * remainder > divisor || (2 * remainder == divisor && quotient % 2 == 1) {
                quotient + 1
            } else {
                quotient
            }
        }
    };
    assert(m0 == quantum_significand(gsig, exp as int, quantum as int));
    proof {
        lemma_significand_bound(gsig, exp as int, p, bias as int);
    }
    let hidden: u128 = two_pow_u128(precision - 1);
    assert(2 * two_pow((p - 1) as nat) == two_pow(p));
    let (m, q): (u128, i64) = if m0 == 2 * hidden {
        (hidden, quantum + 1)
    } else {
        (m0, quantum)
    };
    let r: u64 = if m == 0 {
        0
    } else if m >= hidden {
        let biased: i64 = q + (precision as i64 - 1) + bias as i64;
        if biased >= 2 * bias as i64 + 1 {
            proof {
                lemma_two_pow_monotone((p - 1) as nat, 52);
            }
            assert(((2 * bias as i64 + 1) as u128) * hidden <= 2047 * 0x10_0000_0000_0000) by (nonlinear_arith)
                requires
                    1 <= bias <= 1023,
                    hidden <= 0x10_0000_0000_0000,
            ;
            ((2 * bias as i64 + 1) as u128 * hidden) as u64
        } else {
            assert(biased >= 1);
            assert((biased as int) * (hidden as int) + (m - hidden) < 0x8000_0000_0000_0000) by (nonlinear_arith)
                requires
                    0 <= biased <= 2046,
                    hidden <= 0x10_0000_0000_0000,
                    m <= 2 * hidden,
            ;
            (biased as u128 * hidden + (m - hidden)) as u64
        }
    } else {
        m as u64
    };
    r
}

/// Fields of a binary64 bit pattern: sign, biased exponent and fraction.
pub open spec fn f64_sign(bits: u64) -> nat {
    bits as nat / two_pow(63)
}

/// Biased exponent field of a binary64 bit pattern.
pub open spec fn f64_exponent_field(bits: u64) -> nat {
    (bits as nat / two_pow(52)) % 2048
}

/// Fraction field of a binary64 bit pattern.
pub open spec fn f64_fraction(bits: u64) -> nat {
    bits as nat % two_pow(52)
}

/// The binary32 pattern of a binary64 value: the rounded magnitude with the same
/// sign; infinities stay infinities and a NaN becomes a quiet NaN (quiet bit set)
/// that keeps the top fraction bits.
pub open spec fn spec_f32_bits_from_f64_bits(bits: u64) -> nat {
    let sign = f64_sign(bits) * two_pow(31);
    let e = f64_exponent_field(bits);
    let f = f64_fraction(bits);
    if e == 2047 {
        if f == 0 {
            sign + 0x7F80_0000
        } else {
            let payload = f / two_pow(29);
            sign + 0x7F80_0000 + if payload >= 0x40_0000 { payload } else { payload + 0x40_0000 }
        }
    } else if e == 0 {
        sign + rounded_magnitude_bits(f, -1074, 24, 127)
    } else {
        sign + rounded_magnitude_bits(f + two_pow(52), e - 1075, 24, 127)
    }
}

/// Converts a binary64 bit pattern to the binary32 bit pattern of the same value,
/// rounded to nearest with ties to even.
pub fn f32_bits_from_f64_bits(bits: u64) -> (r: u32)
    ensures
        r == spec_f32_bits_from_f64_bits(bits),
{
    proof {
        lemma_two_pow_values();
    }
    let sign: u64 = bits / 0x8000_0000_0000_0000;
    let exponent: u64 = (bits / 0x10_0000_0000_0000) % 2048;
    let fraction: u64 = bits % 0x10_0000_0000_0000;
    assert(sign <= 1);
    let sign_bits: u32 = if sign == 1 { 0x8000_0000 } else { 0 };
    assert(sign_bits == f64_sign(bits) * two_pow(31));
    assert(exponent == f64_exponent_field(bits));
    assert(fraction == f64_fraction(bits));
    if exponent == 2047 {
        if fraction == 0 {
            return sign_bits + 0x7F80_0000;
        }
        assert(fraction / 0x2000_0000 < 0x80_0000) by (nonlinear_arith)
            requires
                fraction < 0x10_0000_0000_0000,
        ;
        let payload: u32 = (fraction / 0x2000_0000) as u32;
        assert(payload < 0x80_0000);
        let quieted: u32 = if payload >= 0x40_0000 { payload } else { payload + 0x40_0000 };
        return sign_bits + 0x7F80_0000 + quieted;
    }
    let magnitude = if exponent == 0 {
        round_magnitude(fraction, -1074, 24, 127)
    } else {
        round_magnitude(fraction + 0x10_0000_0000_0000, exponent as i32 - 1075, 24, 127)
    };
    assert((24u32 - 1) as nat == 23);
    assert(magnitude <= 255 * two_pow(23));
    assert(magnitude <= 0x7F80_0000);
    sign_bits + magnitude as u32
}

/// A rounded magnitude pattern is at most the pattern of infinity.
proof fn lemma_rounded_bound(sig: nat, exp: int, precision: nat, bias: int)
    requires
        supported_format(precision, bias),
    ensures
        rounded_magnitude_bits(sig, exp, precision, bias) <= (2 * bias + 1) * two_pow((precision - 1) as nat),
{
    lemma_two_pow_values();
    let hidden = two_pow((precision - 1) as nat);
    assert(2 * hidden == two_pow(precision));
    if sig > 0 {
        let quantum = rounding_quantum(sig, exp, precision, bias);
        let m0 = quantum_significand(sig, exp, quantum);
        lemma_significand_bound(sig, exp, precision, bias);
        let (m, q) = if m0 == two_pow(precision) { (hidden, quantum + 1) } else { (m0, quantum) };
        assert(m <= 2 * hidden);
        if m >= hidden {
            let biased = q + (precision - 1) + bias;
            if biased < 2 * bias + 1 {
                assert(biased * hidden + (m - hidden) <= (2 * bias) * hidden + hidden) by (nonlinear_arith)
                    requires
                        biased <= 2 * bias,
                        m <= 2 * hidden,
                        m >= hidden,
                        hidden >= 1,
                ;
                assert((2 * bias) * hidden + hidden == (2 * bias + 1) * hidden) by (nonlinear_arith);
            }
        } else if m > 0 {
            assert(m <= (2 * bias + 1) * hidden) by (nonlinear_arith)
                requires
                    m < hidden,
                    bias >= 1,
            ;
        }
    }
}

/// The rounded significand never exceeds `2^precision`.
proof fn lemma_significand_bound(sig: nat, exp: int, precision: nat, bias: int)
    requires
        supported_format(precision, bias),
        sig > 0,
    ensures
        quantum_significand(sig, exp, rounding_quantum(sig, exp, precision, bias)) <= two_pow(precision),
{
    let quantum = rounding_quantum(sig, exp, precision, bias);
    let length = bit_length(sig);
    lemma_bit_length_bounds(sig);
    let top = length - 1 + exp;
    if quantum <= exp {
        let shift = (exp - quantum) as nat;
        lemma_two_pow_adds(length, shift);
        lemma_two_pow_monotone(length + shift, precision);
        lemma_two_pow_pos(shift);
        assert(sig * two_pow(shift) <= two_pow(length) * two_pow(shift)) by (nonlinear_arith)
            requires
                sig < two_pow(length),
                two_pow(shift) >= 1,
        ;
    } else {
        let s = (quantum - exp) as nat;
        lemma_two_pow_pos(s);
        if quantum > top + 1 {
            lemma_two_pow_monotone(length, s);
            assert(sig / two_pow(s) == 0) by (nonlinear_arith)
                requires
                    sig < two_pow(s),
            ;
            assert(sig % two_pow(s) == sig) by (nonlinear_arith)
                requires
                    sig < two_pow(s),
            ;
            assert(two_pow(precision) >= 1) by {
                lemma_two_pow_pos(precision);
            }
        } else {
            let k = (top + 1 - quantum) as nat;
            assert(k + s == length);
            lemma_two_pow_adds(k, s);
            lemma_two_pow_monotone(k, precision);
            let quotient = sig / two_pow(s);
            assert(quotient < two_pow(k)) by (nonlinear_arith)
                requires
                    sig < two_pow(k) * two_pow(s),
                    two_pow(s) >= 1,
                    quotient == sig / two_pow(s),
            ;
        }
    }
}

/// Magnitude of a signed integer.
pub open spec fn int_magnitude(value: i64) -> nat {
    if value < 0 { (-value) as nat } else { value as nat }
}

/// Returns the magnitude of a signed integer.
fn magnitude_of(value: i64) -> (r: u64)
    ensures
        r == int_magnitude(value),
{
    if value < 0 {
        if value == i64::MIN {
            0x8000_0000_0000_0000
        } else {
            (-value) as u64
        }
    } else {
        value as u64
    }
}

/// The binary32 pattern of an unsigned integer, rounded to nearest with ties to even.
pub fn f32_bits_from_u64(value: u64) -> (r: u32)
    ensures
        r == rounded_magnitude_bits(value as nat, 0, 24, 127),
{
    proof {
        lemma_two_pow_values();
    }
    let magnitude = round_magnitude(value, 0, 24, 127);
    assert((24u32 - 1) as nat == 23);
    assert(magnitude <= 255 * two_pow(23));
    magnitude as u32
}

/// The binary32 pattern of a signed integer, rounded to nearest with ties to even.
pub fn f32_bits_from_i64(value: i64) -> (r: u32)
    ensures
        r == (if value < 0 { 0x8000_0000nat } else { 0nat }) + rounded_magnitude_bits(int_magnitude(value), 0, 24, 127),
{
    proof {
        lemma_two_pow_values();
    }
    let magnitude = round_magnitude(magnitude_of(value), 0, 24, 127);
    assert((24u32 - 1) as nat == 23);
    assert(magnitude <= 255 * two_pow(23));
    let sign_bits: u32 = if value < 0 { 0x8000_0000 } else { 0 };
    sign_bits + magnitude as u32
}

/// The binary64 pattern of an unsigned integer, rounded to nearest with ties to even.
pub fn f64_bits_from_u64(value: u64) -> (r: u64)
    ensures
        r == rounded_magnitude_bits(value as nat, 0, 53, 1023),
{
    round_magnitude(value, 0, 53, 1023)
}

/// The binary64 pattern of a signed integer, rounded to nearest with ties to even.
pub fn f64_bits_from_i64(value: i64) -> (r: u64)
    ensures
        r == (if value < 0 { 0x8000_0000_0000_0000nat } else { 0nat }) + rounded_magnitude_bits(int_magnitude(value), 0, 53, 1023),
{
    proof {
        lemma_two_pow_values();
    }
    let magnitude = round_magnitude(magnitude_of(value), 0, 53, 1023);
    assert((53u32 - 1) as nat == 52);
    assert(magnitude <= 2047 * two_pow(52));
    let sign_bits: u64 = if value < 0 { 0x8000_0000_0000_0000 } else { 0 };
    sign_bits + magnitude
}

} // verus!
