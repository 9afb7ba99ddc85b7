//! Generation of the per-polynomial reduction constants (folding keys).
//!
//! A key set holds, for a number of fixed byte distances, the remainder of
//! `x^(L·d)` modulo the generator polynomial, where `L` is the internal lane
//! width (32 bits for 16- and 32-bit CRCs, 64 bits for 64-bit CRCs), plus the
//! Barrett reduction quotient `floor(x^(2L) / Q)` and the scaled polynomial
//! itself.  For reflected variants every constant is bit-reversed over its
//! full width (one more bit than the lane) as the folding hardware expects.
//!
//! The remainders are computed with the same forward shift register that the
//! engine's model uses: one `bit_step` multiplies the running remainder by
//! `x` and reduces it, so `x^n mod Q` is `n` bit steps applied to `1`.

use vstd::prelude::*;

use crate::arch::software::{reverse_u32, reverse_u64, spec_reverse_u32, spec_reverse_u64};
use crate::model::{bit_steps_u32, bit_steps_u64};

verus! {

/// The quotient of `x^(32 + n)` divided by the degree-32 polynomial
/// `x^32 + spoly`: one quotient bit per register step.
pub open spec fn spec_quot_u32(spoly: u32, n: nat) -> u64
    decreases n,
{
    if n == 0 {
        1
    } else {
        (spec_quot_u32(spoly, (n - 1) as nat) << 1) | ((bit_steps_u32(
            spoly,
            false,
            spoly,
            (n - 1) as nat,
        ) >> 31u32) as u64)
    }
}

/// The quotient of `x^(64 + n)` divided by the degree-64 polynomial
/// `x^64 + spoly`, truncated to its low 64 bits.
pub open spec fn spec_quot_u64(spoly: u64, n: nat) -> u64
    decreases n,
{
    if n == 0 {
        1
    } else {
        (spec_quot_u64(spoly, (n - 1) as nat) << 1) | (bit_steps_u64(
            spoly,
            false,
            spoly,
            (n - 1) as nat,
        ) >> 63u64)
    }
}

/// A folding key for byte distance `16·d`: the remainder of `x^(32·d)` modulo
/// the scaled polynomial, positioned in the high 32 bits (forward) or
/// bit-reversed over 33 bits (reflected).
pub open spec fn spec_fold_key_u32(spoly: u32, reflected: bool, d: nat) -> u64 {
    if reflected {
        (spec_reverse_u32(bit_steps_u32(spoly, false, 1, d * 32)) as u64) << 1
    } else {
        (bit_steps_u32(spoly, false, 1, d * 32) as u64) << 32
    }
}

/// A folding key for byte distance `8·d` in 64-bit lanes.
pub open spec fn spec_fold_key_u64(spoly: u64, reflected: bool, d: nat) -> u64 {
    if reflected {
        spec_reverse_u64(bit_steps_u64(spoly, false, 1, d * 64)) << 1
    } else {
        bit_steps_u64(spoly, false, 1, d * 64)
    }
}

/// The Barrett quotient `floor(x^64 / Q)` for a degree-32 polynomial,
/// bit-reversed over its 33 bits when reflected.
pub open spec fn spec_mu_u32(spoly: u32, reflected: bool) -> u64 {
    let q = spec_quot_u32(spoly, 32);
    if reflected {
        ((spec_reverse_u32(q as u32) as u64) << 1) | (q >> 32u64)
    } else {
        q
    }
}

/// The Barrett quotient `floor(x^128 / Q)` for a degree-64 polynomial (low 64
/// bits; the leading coefficient is implicit), bit-reversed when reflected.
pub open spec fn spec_mu_u64(spoly: u64, reflected: bool) -> u64 {
    let q = spec_quot_u64(spoly, 64);
    if reflected {
        (spec_reverse_u64(q) << 1) | 1
    } else {
        q
    }
}

/// The scaled polynomial as stored in the key set: with its implicit leading
/// coefficient for 32-bit lanes, bit-reversed over the full width when
/// reflected.
pub open spec fn spec_poly_key_u32(spoly: u32, reflected: bool) -> u64 {
    if reflected {
        ((spec_reverse_u32(spoly) as u64) << 1) | 1
    } else {
        (1u64 << 32u64) | (spoly as u64)
    }
}

/// The scaled polynomial as stored in the key set for 64-bit lanes (the
/// leading coefficient is implicit in forward mode).
pub open spec fn spec_poly_key_u64(spoly: u64, reflected: bool) -> u64 {
    if reflected {
        (spec_reverse_u64(spoly) << 1) | 1
    } else {
        spoly
    }
}

/// `x^n` modulo `x^32 + spoly`: `n` forward register steps applied to `1`.
fn xpow_mod_u32(spoly: u32, n: u32) -> (r: u32)
    ensures
        r == bit_steps_u32(spoly, false, 1, n as nat),
{
    let mut v: u32 = 1;
    let mut i: u32 = 0;
    while i < n
        invariant
            i <= n,
            v == bit_steps_u32(spoly, false, 1, i as nat),
        decreases n - i,
    {
        v = if (v >> 31u32) & 1 == 1 {
            (v << 1u32) ^ spoly
        } else {
            v << 1u32
        };
        i = i + 1;
    }
    v
}

/// `x^n` modulo `x^64 + spoly`: `n` forward register steps applied to `1`.
fn xpow_mod_u64(spoly: u64, n: u32) -> (r: u64)
    ensures
        r == bit_steps_u64(spoly, false, 1, n as nat),
{
    let mut v: u64 = 1;
    let mut i: u32 = 0;
    while i < n
        invariant
            i <= n,
            v == bit_steps_u64(spoly, false, 1, i as nat),
        decreases n - i,
    {
        v = if (v >> 63u64) & 1 == 1 {
            (v << 1u64) ^ spoly
        } else {
            v << 1u64
        };
        i = i + 1;
    }
    v
}

/// Long division of `x^64` by `x^32 + spoly`: collects one quotient bit per
/// register step.
fn quot_u32(spoly: u32) -> (q: u64)
    ensures
        q == spec_quot_u32(spoly, 32),
{
    let mut q: u64 = 1;
    let mut r: u32 = spoly;
    let mut i: u32 = 0;
    while i < 32
        invariant
            i <= 32,
            q == spec_quot_u32(spoly, i as nat),
            r == bit_steps_u32(spoly, false, spoly, i as nat),
        decreases 32 - i,
    {
        let b: u64 = (r >> 31u32) as u64;
        q = (q << 1u64) | b;
        r = if (r >> 31u32) & 1 == 1 {
            (r << 1u32) ^ spoly
        } else {
            r << 1u32
        };
        i = i + 1;
    }
    q
}

/// Long division of `x^128` by `x^64 + spoly`: collects one quotient bit per
/// register step (the quotient's leading coefficient falls off the top).
fn quot_u64(spoly: u64) -> (q: u64)
    ensures
        q == spec_quot_u64(spoly, 64),
{
    let mut q: u64 = 1;
    let mut r: u64 = spoly;
    let mut i: u32 = 0;
    while i < 64
        invariant
            i <= 64,
            q == spec_quot_u64(spoly, i as nat),
            r == bit_steps_u64(spoly, false, spoly, i as nat),
        decreases 64 - i,
    {
        let b: u64 = r >> 63u64;
        q = (q << 1u64) | b;
        r = if (r >> 63u64) & 1 == 1 {
            (r << 1u64) ^ spoly
        } else {
            r << 1u64
        };
        i = i + 1;
    }
    q
}

/// One folding key for byte distance `16·d` in 32-bit lanes.
fn fold_key_u32(spoly: u32, reflected: bool, d: u32) -> (r: u64)
    requires
        d <= 65,
    ensures
        r == spec_fold_key_u32(spoly, reflected, d as nat),
{
    let p = xpow_mod_u32(spoly, d * 32);
    if reflected {
        (reverse_u32(p) as u64) << 1u64
    } else {
        (p as u64) << 32u64
    }
}

/// One folding key for byte distance `8·d` in 64-bit lanes.
fn fold_key_u64(spoly: u64, reflected: bool, d: u32) -> (r: u64)
    requires
        d <= 65,
    ensures
        r == spec_fold_key_u64(spoly, reflected, d as nat),
{
    let p = xpow_mod_u64(spoly, d * 64);
    if reflected {
        reverse_u64(p) << 1u64
    } else {
        p
    }
}

/// Generates the full key set for one `(width, polynomial, reflected)`
/// triple: folding keys at the engine's fixed byte distances, the Barrett
/// quotient (index 7) and the scaled polynomial (index 8).
pub fn generate_keys(width: u8, poly: u64, reflected: bool) -> (keys: [u64; 23])
    requires
        width == 16 || width == 32 || width == 64,
    ensures
        width <= 32 ==> spec_keys_ok_u32((poly as u32) << ((32 - width) as u32), reflected, keys),
        width == 64 ==> spec_keys_ok_u64(poly, reflected, keys),
{
    let mut keys = [0u64; 23];
    if width <= 32 {
        let spoly: u32 = (#[verifier::truncate] (poly as u32)) << ((32 - width) as u32);
        keys[1] = fold_key_u32(spoly, reflected, 3);
        keys[2] = fold_key_u32(spoly, reflected, 5);
        keys[3] = fold_key_u32(spoly, reflected, 31);
        keys[4] = fold_key_u32(spoly, reflected, 33);
        keys[5] = fold_key_u32(spoly, reflected, 3);
        keys[6] = fold_key_u32(spoly, reflected, 2);
        keys[7] = if reflected {
            let q = quot_u32(spoly);
            ((reverse_u32(#[verifier::truncate] (q as u32)) as u64) << 1u64) | (q >> 32u64)
        } else {
            quot_u32(spoly)
        };
        keys[8] = if reflected {
            ((reverse_u32(spoly) as u64) << 1u64) | 1
        } else {
            (1u64 << 32u64) | (spoly as u64)
        };
        keys[9] = fold_key_u32(spoly, reflected, 27);
        keys[10] = fold_key_u32(spoly, reflected, 29);
        keys[11] = fold_key_u32(spoly, reflected, 23);
        keys[12] = fold_key_u32(spoly, reflected, 25);
        keys[13] = fold_key_u32(spoly, reflected, 19);
        keys[14] = fold_key_u32(spoly, reflected, 21);
        keys[15] = fold_key_u32(spoly, reflected, 15);
        keys[16] = fold_key_u32(spoly, reflected, 17);
        keys[17] = fold_key_u32(spoly, reflected, 11);
        keys[18] = fold_key_u32(spoly, reflected, 13);
        keys[19] = fold_key_u32(spoly, reflected, 7);
        keys[20] = fold_key_u32(spoly, reflected, 9);
        keys[21] = fold_key_u32(spoly, reflected, 63);
        keys[22] = fold_key_u32(spoly, reflected, 65);
    } else {
        let spoly: u64 = poly;
        keys[1] = fold_key_u64(spoly, reflected, 3);
        keys[2] = fold_key_u64(spoly, reflected, 5);
        keys[3] = fold_key_u64(spoly, reflected, 31);
        keys[4] = fold_key_u64(spoly, reflected, 33);
        keys[5] = fold_key_u64(spoly, reflected, 3);
        keys[6] = fold_key_u64(spoly, reflected, 2);
        keys[7] = if reflected {
            let q = quot_u64(spoly);
            (reverse_u64(q) << 1u64) | 1
        } else {
            quot_u64(spoly)
        };
        keys[8] = if reflected {
            (reverse_u64(spoly) << 1u64) | 1
        } else {
            spoly
        };
        keys[9] = fold_key_u64(spoly, reflected, 27);
        keys[10] = fold_key_u64(spoly, reflected, 29);
        keys[11] = fold_key_u64(spoly, reflected, 23);
        keys[12] = fold_key_u64(spoly, reflected, 25);
        keys[13] = fold_key_u64(spoly, reflected, 19);
        keys[14] = fold_key_u64(spoly, reflected, 21);
        keys[15] = fold_key_u64(spoly, reflected, 15);
        keys[16] = fold_key_u64(spoly, reflected, 17);
        keys[17] = fold_key_u64(spoly, reflected, 11);
        keys[18] = fold_key_u64(spoly, reflected, 13);
        keys[19] = fold_key_u64(spoly, reflected, 7);
        keys[20] = fold_key_u64(spoly, reflected, 9);
        keys[21] = fold_key_u64(spoly, reflected, 63);
        keys[22] = fold_key_u64(spoly, reflected, 65);
    }
    keys
}

/// The shape of a complete key set over 32-bit lanes.
pub open spec fn spec_keys_ok_u32(spoly: u32, reflected: bool, keys: [u64; 23]) -> bool {
    &&& keys[0] == 0
    &&& keys[1] == spec_fold_key_u32(spoly, reflected, 3)
    &&& keys[2] == spec_fold_key_u32(spoly, reflected, 5)
    &&& keys[3] == spec_fold_key_u32(spoly, reflected, 31)
    &&& keys[4] == spec_fold_key_u32(spoly, reflected, 33)
    &&& keys[5] == spec_fold_key_u32(spoly, reflected, 3)
    &&& keys[6] == spec_fold_key_u32(spoly, reflected, 2)
    &&& keys[7] == spec_mu_u32(spoly, reflected)
    &&& keys[8] == spec_poly_key_u32(spoly, reflected)
    &&& keys[9] == spec_fold_key_u32(spoly, reflected, 27)
    &&& keys[10] == spec_fold_key_u32(spoly, reflected, 29)
    &&& keys[11] == spec_fold_key_u32(spoly, reflected, 23)
    &&& keys[12] == spec_fold_key_u32(spoly, reflected, 25)
    &&& keys[13] == spec_fold_key_u32(spoly, reflected, 19)
    &&& keys[14] == spec_fold_key_u32(spoly, reflected, 21)
    &&& keys[15] == spec_fold_key_u32(spoly, reflected, 15)
    &&& keys[16] == spec_fold_key_u32(spoly, reflected, 17)
    &&& keys[17] == spec_fold_key_u32(spoly, reflected, 11)
    &&& keys[18] == spec_fold_key_u32(spoly, reflected, 13)
    &&& keys[19] == spec_fold_key_u32(spoly, reflected, 7)
    &&& keys[20] == spec_fold_key_u32(spoly, reflected, 9)
    &&& keys[21] == spec_fold_key_u32(spoly, reflected, 63)
    &&& keys[22] == spec_fold_key_u32(spoly, reflected, 65)
}

/// The shape of a complete key set over 64-bit lanes.
pub open spec fn spec_keys_ok_u64(spoly: u64, reflected: bool, keys: [u64; 23]) -> bool {
    &&& keys[0] == 0
    &&& keys[1] == spec_fold_key_u64(spoly, reflected, 3)
    &&& keys[2] == spec_fold_key_u64(spoly, reflected, 5)
    &&& keys[3] == spec_fold_key_u64(spoly, reflected, 31)
    &&& keys[4] == spec_fold_key_u64(spoly, reflected, 33)
    &&& keys[5] == spec_fold_key_u64(spoly, reflected, 3)
    &&& keys[6] == spec_fold_key_u64(spoly, reflected, 2)
    &&& keys[7] == spec_mu_u64(spoly, reflected)
    &&& keys[8] == spec_poly_key_u64(spoly, reflected)
    &&& keys[9] == spec_fold_key_u64(spoly, reflected, 27)
    &&& keys[10] == spec_fold_key_u64(spoly, reflected, 29)
    &&& keys[11] == spec_fold_key_u64(spoly, reflected, 23)
    &&& keys[12] == spec_fold_key_u64(spoly, reflected, 25)
    &&& keys[13] == spec_fold_key_u64(spoly, reflected, 19)
    &&& keys[14] == spec_fold_key_u64(spoly, reflected, 21)
    &&& keys[15] == spec_fold_key_u64(spoly, reflected, 15)
    &&& keys[16] == spec_fold_key_u64(spoly, reflected, 17)
    &&& keys[17] == spec_fold_key_u64(spoly, reflected, 11)
    &&& keys[18] == spec_fold_key_u64(spoly, reflected, 13)
    &&& keys[19] == spec_fold_key_u64(spoly, reflected, 7)
    &&& keys[20] == spec_fold_key_u64(spoly, reflected, 9)
    &&& keys[21] == spec_fold_key_u64(spoly, reflected, 63)
    &&& keys[22] == spec_fold_key_u64(spoly, reflected, 65)
}

} // verus!
