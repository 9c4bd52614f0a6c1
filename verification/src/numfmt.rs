//! Fixed-point rendering of byte counts scaled by a power of two, as
//! `format!("{:.N}", n as f64 / (1u64 << k) as f64)` prints them.
//!
//! Converting a `u64` to `f64` rounds it to 53 significant bits, ties to even;
//! dividing by a power of two is then exact, and `{:.N}` rounds the exact value
//! to `N` decimal places, ties to even.

use vstd::prelude::*;
use crate::float32::{lemma_p2_add, lemma_p2_landmarks, lemma_p2_monotone, lemma_p2_positive, p2, pow2_u128, round_div_p2};
use crate::text::{decimal, decimal_chars, digit_char, string_of};

verus! {

/// The number of low bits `n as f64` drops: the least `s` (at most 11) with `n < 2^(53+s)`.
pub open spec fn shift_for(n: nat, s: nat) -> nat
    decreases 11 - s,
{
    if s >= 11 || n < p2(53 + s) {
        s
    } else {
        shift_for(n, s + 1)
    }
}

/// The integer value of `n as f64`.
pub open spec fn f64_of_u64(n: nat) -> nat {
    let s = shift_for(n, 0);
    if s == 0 {
        n
    } else {
        round_div_p2(n, s) * p2(s)
    }
}

/// Ten to the power `p`.
pub open spec fn pow10(p: nat) -> nat
    decreases p,
{
    if p == 0 { 1 } else { 10 * pow10((p - 1) as nat) }
}

/// A count of hundredths or tenths rendered with one or two decimal places.
pub open spec fn fixed_point(t: nat, places: nat) -> Seq<char> {
    if places == 1 {
        decimal(t / 10).push('.').push(digit_char(t % 10))
    } else {
        decimal(t / 100).push('.').push(digit_char((t % 100) / 10)).push(digit_char(t % 10))
    }
}

/// `format!("{:.places}", n as f64 / 2^k as f64)`.
pub open spec fn scaled_fixed(n: nat, k: nat, places: nat) -> Seq<char> {
    fixed_point(round_div_p2(f64_of_u64(n) * pow10(places), k), places)
}

proof fn lemma_shift_for_bound(n: nat, s: nat)
    requires
        s <= 11,
    ensures
        s <= shift_for(n, s) <= 11,
    decreases 11 - s,
{
    if !(s >= 11 || n < p2(53 + s)) {
        lemma_shift_for_bound(n, s + 1);
    }
}

/// `n as f64`, as an integer.
pub fn f64_round_u64(n: u64) -> (r: u128)
    ensures
        r == f64_of_u64(n as nat),
        r <= 0x1_0000_0000_0000_0800,
{
    let mut s: u32 = 0;
    proof {
        lemma_p2_landmarks();
    }
    while s < 11 && (n as u128) >= pow2_u128(53 + s)
        invariant
            s <= 11,
            shift_for(n as nat, s as nat) == shift_for(n as nat, 0),
        decreases 11 - s,
    {
        s = s + 1;
    }
    assert(shift_for(n as nat, s as nat) == s);
    if s == 0 {
        n as u128
    } else {
        let d = pow2_u128(s);
        proof {
            lemma_p2_positive(s as nat);
            lemma_p2_monotone(s as nat, 11);
            reveal_with_fuel(p2, 12);
            assert(p2(11) == 2048);
        }
        let q: u128 = n as u128 / d;
        let rem: u128 = n as u128 % d;
        let rounded: u128 = if 2 * rem > d || (2 * rem == d && q % 2 == 1) { q + 1 } else { q };
        assert(rounded == round_div_p2(n as nat, s as nat));
        proof {
            assert(q * d <= n) by (nonlinear_arith)
                requires q == (n as int) / (d as int), d > 0;
            assert(rounded * d <= n + d) by (nonlinear_arith)
                requires rounded <= q + 1, q * d <= n, d > 0;
        }
        rounded * d
    }
}

proof fn lemma_pow10_values()
    ensures
        pow10(1) == 10,
        pow10(2) == 100,
{
    reveal_with_fuel(pow10, 3);
}

/// The decimal digit character of `d < 10`.
fn digit(d: u128) -> (c: char)
    requires
        d < 10,
    ensures
        c == digit_char(d as nat),
{
    if d == 0 { '0' } else if d == 1 { '1' } else if d == 2 { '2' } else if d == 3 { '3' }
    else if d == 4 { '4' } else if d == 5 { '5' } else if d == 6 { '6' } else if d == 7 { '7' }
    else if d == 8 { '8' } else { '9' }
}

/// `t` hundredths or tenths, rendered.
pub fn fixed_point_string(t: u128, places: u32) -> (r: String)
    requires
        places == 1 || places == 2,
    ensures
        r@ == fixed_point(t as nat, places as nat),
{
    let div: u128 = if places == 1 { 10 } else { 100 };
    let mut out = decimal_chars(t / div);
    out.push('.');
    if places == 1 {
        out.push(digit(t % 10));
    } else {
        out.push(digit((t % 100) / 10));
        out.push(digit(t % 10));
    }
    string_of(out.as_slice())
}

/// `format!("{:.places}", n as f64 / 2^k as f64)`.
pub fn format_scaled(n: u64, k: u32, places: u32) -> (r: String)
    requires
        k <= 60,
        places == 1 || places == 2,
    ensures
        r@ == scaled_fixed(n as nat, k as nat, places as nat),
{
    let f = f64_round_u64(n);
    proof {
        lemma_pow10_values();
    }
    let mult: u128 = if places == 1 { 10 } else { 100 };
    let num: u128 = f * mult;
    let d = pow2_u128(k);
    proof {
        lemma_p2_positive(k as nat);
        lemma_p2_monotone(k as nat, 126);
        lemma_p2_landmarks();
    }
    let q: u128 = num / d;
    let rem: u128 = num % d;
    let rounded: u128 = if 2 * rem > d || (2 * rem == d && q % 2 == 1) { q + 1 } else { q };
    assert(rounded == round_div_p2(num as nat, k as nat));
    fixed_point_string(rounded, places)
}

} // verus!
