//! Timing-safe comparison of secrets.

use vstd::prelude::*;
use vstd::string::StringSliceAdditionalSpecFns;
use vstd::utf8::{decode_utf8, encode_utf8};

verus! {

/// `subtle::ConstantTimeEq::ct_eq` on byte slices, turned into a `bool`.
///
/// subtle's implementation for slices answers 1 exactly when the lengths agree and
/// every byte pair is equal; only the length check short-circuits.
#[verifier::external_body]
fn bytes_ct_eq(a: &[u8], b: &[u8]) -> (r: bool)
    ensures
        r == (a@ == b@),
{
    subtle::ConstantTimeEq::ct_eq(a, b).into()
}

/// A vector of `n` zero bytes.
fn zeros(n: usize) -> (r: Vec<u8>)
    ensures
        r@.len() == n,
        forall|k: int| 0 <= k < n ==> r@[k] == 0u8,
{
    let mut v: Vec<u8> = Vec::new();
    let mut i: usize = 0;
    while i < n
        invariant
            i <= n,
            v@.len() == i,
            forall|k: int| 0 <= k < i ==> v@[k] == 0u8,
        decreases n - i,
    {
        v.push(0u8);
        i = i + 1;
    }
    v
}

/// Timing-safe string equality. Strings of different lengths are unequal; the
/// bytes of the first are still compared (with zeros) so that the time taken does
/// not tell where they differ.
pub fn constant_time_str_eq(a: &str, b: &str) -> (r: bool)
    ensures
        r == (a@ == b@),
{
    let a_bytes = a.as_bytes();
    let b_bytes = b.as_bytes();
    proof {
        vstd::utf8::encode_utf8_decode_utf8(a@);
        vstd::utf8::encode_utf8_decode_utf8(b@);
        assert(a_bytes@ == encode_utf8(a@));
        assert(b_bytes@ == encode_utf8(b@));
    }
    if a_bytes.len() != b_bytes.len() {
        let z = zeros(a_bytes.len());
        let _ = bytes_ct_eq(a_bytes, z.as_slice());
        assert(a_bytes@ != b_bytes@);
        return false;
    }
    bytes_ct_eq(a_bytes, b_bytes)
}

} // verus!
