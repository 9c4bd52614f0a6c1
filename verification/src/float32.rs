//! IEEE-754 single-precision values carried by their bit pattern.
//!
//! Metrics such as CPU or disk usage arrive as `f32` percentages. The library
//! keeps them as the raw 32-bit pattern and decides comparisons exactly from it.

use vstd::prelude::*;
use crate::text::{decimal, decimal_chars, digit_char, string_of};

verus! {

/// A single-precision float, held as its IEEE-754 bit pattern.
#[derive(Clone, Copy, Debug, PartialEq, Eq)]
pub struct Float32 {
    pub bits: u32,
}

/// The sign bit of a pattern.
pub open spec fn sign_of(bits: u32) -> bool {
    bits >= 0x8000_0000
}

/// The pattern without its sign bit.
pub open spec fn magnitude_of(bits: u32) -> int {
    if bits >= 0x8000_0000 { bits - 0x8000_0000 } else { bits as int }
}

/// Whether a pattern encodes NaN: all exponent bits set and a non-zero mantissa.
pub open spec fn is_nan_bits(bits: u32) -> bool {
    magnitude_of(bits) > 0x7F80_0000
}

/// A key that orders non-NaN patterns exactly as their values are ordered
/// (both zeros share the key 0).
pub open spec fn order_key(bits: u32) -> int {
    if sign_of(bits) { -magnitude_of(bits) } else { magnitude_of(bits) }
}

/// `a >= b` on the encoded values, with IEEE semantics (false when either is NaN).
pub open spec fn ge_spec(a: u32, b: u32) -> bool {
    !is_nan_bits(a) && !is_nan_bits(b) && order_key(a) >= order_key(b)
}

impl Float32 {
    pub fn from_bits(bits: u32) -> (r: Float32)
        ensures
            r.bits == bits,
    {
        Float32 { bits }
    }

    /// Whether the value is NaN.
    pub fn is_nan(&self) -> (r: bool)
        ensures
            r == is_nan_bits(self.bits),
    {
        let mag = if self.bits >= 0x8000_0000 { self.bits - 0x8000_0000 } else { self.bits };
        mag > 0x7F80_0000
    }

    /// `self >= other` as `f32` comparison does it.
    pub fn ge(&self, other: &Float32) -> (r: bool)
        ensures
            r == ge_spec(self.bits, other.bits),
    {
        if self.is_nan() || other.is_nan() {
            return false;
        }
        let a_neg = self.bits >= 0x8000_0000;
        let b_neg = other.bits >= 0x8000_0000;
        let a_mag = if a_neg { self.bits - 0x8000_0000 } else { self.bits };
        let b_mag = if b_neg { other.bits - 0x8000_0000 } else { other.bits };
        if !a_neg && !b_neg {
            a_mag >= b_mag
        } else if a_neg && b_neg {
            a_mag <= b_mag
        } else if a_neg {
            // a <= 0 <= b: only both zero compare equal
            a_mag == 0 && b_mag == 0
        } else {
            true
        }
    }
}


// ---------------------------------------------------------------------------
// Rendering with one decimal place, as `format!("{:.1}", x)` does
// ---------------------------------------------------------------------------

/// Two to the power `n`.
pub open spec fn p2(n: nat) -> nat
    decreases n,
{
    if n == 0 { 1 } else { 2 * p2((n - 1) as nat) }
}

/// The biased exponent field.
pub open spec fn exponent_field(bits: u32) -> int {
    (magnitude_of(bits) / 0x80_0000) as int
}

/// The stored mantissa field.
pub open spec fn mantissa_field(bits: u32) -> int {
    magnitude_of(bits) % 0x80_0000
}

/// The significand including the implicit leading bit.
pub open spec fn significand(bits: u32) -> int {
    if exponent_field(bits) == 0 { mantissa_field(bits) } else { mantissa_field(bits) + 0x80_0000 }
}

/// The power of two the significand is scaled by.
pub open spec fn scale(bits: u32) -> int {
    if exponent_field(bits) == 0 { -149 } else { exponent_field(bits) - 150 }
}

/// `round_half_even(n / 2^k)` for a non-negative numerator.
pub open spec fn round_div_p2(n: nat, k: nat) -> nat {
    let d = p2(k);
    let q = n / d;
    let r = n % d;
    if 2 * r > d || (2 * r == d && q % 2 == 1) { q + 1 } else { q }
}

/// The absolute value times ten, rounded half to even: the tenths shown by `{:.1}`.
pub open spec fn tenths(bits: u32) -> nat {
    if scale(bits) >= 0 {
        (significand(bits) * p2(scale(bits) as nat) * 10) as nat
    } else {
        round_div_p2((significand(bits) * 10) as nat, (-scale(bits)) as nat)
    }
}

/// `format!("{:.1}", x)` for the float with pattern `bits`.
pub open spec fn format_1dp_spec(bits: u32) -> Seq<char> {
    if is_nan_bits(bits) {
        seq!['N', 'a', 'N']
    } else if magnitude_of(bits) == 0x7F80_0000 {
        if sign_of(bits) { seq!['-', 'i', 'n', 'f'] } else { seq!['i', 'n', 'f'] }
    } else {
        let t = tenths(bits);
        let body = decimal(t / 10).push('.').push(digit_char(t % 10));
        if sign_of(bits) { seq!['-'] + body } else { body }
    }
}

pub proof fn lemma_p2_positive(n: nat)
    ensures
        p2(n) >= 1,
    decreases n,
{
    if n > 0 {
        lemma_p2_positive((n - 1) as nat);
    }
}

pub proof fn lemma_p2_monotone(a: nat, b: nat)
    requires
        a <= b,
    ensures
        p2(a) <= p2(b),
    decreases b,
{
    if a < b {
        lemma_p2_monotone(a, (b - 1) as nat);
        lemma_p2_positive((b - 1) as nat);
    }
}

pub proof fn lemma_p2_add(a: nat, b: nat)
    ensures
        p2(a + b) == p2(a) * p2(b),
    decreases b,
{
    if b > 0 {
        let b1 = (b - 1) as nat;
        lemma_p2_add(a, b1);
        assert(((a + b) - 1) as nat == a + b1);
        assert(p2(a + b) == 2 * p2(a + b1));
        assert(p2(b) == 2 * p2(b1));
        assert(p2(a) * (2 * p2(b1)) == 2 * (p2(a) * p2(b1))) by (nonlinear_arith);
        assert(p2(a) * p2(b) == p2(a) * (2 * p2(b1)));
    } else {
        assert(p2(0) == 1);
        assert(a + b == a);
        assert(p2(a) * 1 == p2(a));
    }
}

/// Concrete powers used to bound the arithmetic below.
pub proof fn lemma_p2_landmarks()
    ensures
        p2(8) == 0x100,
        p2(32) == 0x1_0000_0000,
        p2(33) == 0x2_0000_0000,
        p2(104) == 0x100_0000_0000_0000_0000_0000_0000,
        p2(126) == 0x4000_0000_0000_0000_0000_0000_0000_0000,
{
    reveal_with_fuel(p2, 9);
    assert(p2(8) == 0x100);
    lemma_p2_add(8, 8);
    assert(p2(16) == 0x1_0000);
    lemma_p2_add(16, 16);
    assert(p2(32) == 0x1_0000_0000);
    lemma_p2_add(32, 1);
    assert(p2(1) == 2);
    assert(p2(33) == 0x2_0000_0000);
    lemma_p2_add(32, 32);
    assert(p2(64) == 0x1_0000_0000_0000_0000);
    lemma_p2_add(64, 32);
    assert(p2(96) == 0x1_0000_0000_0000_0000_0000_0000);
    lemma_p2_add(96, 8);
    lemma_p2_add(64, 64);
    assert(p2(128) == 2 * p2(127));
    assert(p2(127) == 2 * p2(126));
}

/// `2^k` as an integer, for `k <= 127`.
pub fn pow2_u128(k: u32) -> (r: u128)
    requires
        k <= 127,
    ensures
        r == p2(k as nat),
{
    let mut r: u128 = 1;
    let mut i: u32 = 0;
    while i < k
        invariant
            i <= k <= 127,
            r == p2(i as nat),
        decreases k - i,
    {
        proof {
            lemma_p2_monotone(i as nat, 126);
            lemma_p2_landmarks();
        }
        r = r * 2;
        i = i + 1;
    }
    r
}

impl Float32 {
    /// `format!("{:.1}", x)`.
    pub fn format_1dp(&self) -> (r: String)
        ensures
            r@ == format_1dp_spec(self.bits),
    {
        let neg = self.bits >= 0x8000_0000;
        let mag: u32 = if neg { self.bits - 0x8000_0000 } else { self.bits };
        if mag > 0x7F80_0000 {
            let v: Vec<char> = vec!['N', 'a', 'N'];
            return string_of(v.as_slice());
        }
        if mag == 0x7F80_0000 {
            let v: Vec<char> = if neg { vec!['-', 'i', 'n', 'f'] } else { vec!['i', 'n', 'f'] };
            return string_of(v.as_slice());
        }
        let e8: u32 = mag / 0x80_0000;
        let m: u32 = mag % 0x80_0000;
        let sig: u128 = if e8 == 0 { m as u128 } else { (m + 0x80_0000) as u128 };
        assert(sig == significand(self.bits));
        let mut out: Vec<char> = Vec::new();
        if neg {
            out.push('-');
        }
        let whole: u128;
        let frac: u128;
        let ghost t: nat = tenths(self.bits);
        if e8 >= 150 {
            let sh: u32 = e8 - 150;
            assert(sh <= 104);
            let pw = pow2_u128(sh);
            proof {
                lemma_p2_monotone(sh as nat, 104);
                lemma_p2_landmarks();
                assert(sig < 0x100_0000);
                assert(sig * pw <= sig * p2(104)) by (nonlinear_arith)
                    requires pw <= p2(104);
                assert(sig * p2(104) < 0x100_0000 * 0x100_0000_0000_0000_0000_0000_0000) by (nonlinear_arith)
                    requires sig < 0x100_0000, p2(104) == 0x100_0000_0000_0000_0000_0000_0000;
            }
            whole = sig * pw;
            frac = 0;
            assert(t == whole * 10);
            assert(t / 10 == whole && t % 10 == 0) by (nonlinear_arith)
                requires t == whole * 10;
        } else {
            let k: u32 = if e8 == 0 { 149 } else { 150 - e8 };
            assert(k as int == -scale(self.bits));
            let num: u128 = sig * 10;
            if k >= 33 {
                proof {
                    lemma_p2_monotone(33, k as nat);
                    lemma_p2_landmarks();
                    assert(num < 0x1_0000_0000);
                    assert((num as nat) / p2(k as nat) == 0 && (num as nat) % p2(k as nat) == num) by (nonlinear_arith)
                        requires num < p2(k as nat), p2(k as nat) > 0;
                    assert(t == 0);
                }
                whole = 0;
                frac = 0;
            } else {
                let d = pow2_u128(k);
                proof {
                    lemma_p2_positive(k as nat);
                    lemma_p2_monotone(k as nat, 32);
                    lemma_p2_landmarks();
                }
                let q = num / d;
                let rem = num % d;
                let rounded: u128 = if 2 * rem > d || (2 * rem == d && q % 2 == 1) { q + 1 } else { q };
                assert(rounded == t);
                whole = rounded / 10;
                frac = rounded % 10;
            }
        }
        assert(whole == t / 10 && frac == t % 10);
        let digits = decimal_chars(whole);
        let ghost before = out@;
        let mut i: usize = 0;
        while i < digits.len()
            invariant
                i <= digits.len(),
                out@ == before + digits@.take(i as int),
            decreases digits.len() - i,
        {
            out.push(digits[i]);
            i = i + 1;
            assert(out@ =~= before + digits@.take(i as int));
        }
        assert(digits@.take(digits@.len() as int) =~= digits@);
        out.push('.');
        let fd: char = if frac == 0 { '0' } else if frac == 1 { '1' } else if frac == 2 { '2' }
            else if frac == 3 { '3' } else if frac == 4 { '4' } else if frac == 5 { '5' }
            else if frac == 6 { '6' } else if frac == 7 { '7' } else if frac == 8 { '8' } else { '9' };
        out.push(fd);
        proof {
            let body = decimal(t / 10).push('.').push(digit_char(t % 10));
            if neg {
                assert(out@ =~= seq!['-'] + body);
            } else {
                assert(out@ =~= body);
            }
        }
        string_of(out.as_slice())
    }
}

} // verus!
