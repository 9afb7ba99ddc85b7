//! Algebraic combination of checksums.
//!
//! Appending `n` bytes of data to a stream maps the CRC register through a
//! function that is XOR-linear in the register, so "skip forward by `n` zero
//! bytes" can be computed in logarithmic time: represent the one-zero-byte
//! map by its images of the basis bits, square it by composition, and apply
//! it to the register.  Combining two checksums then needs no re-reading of
//! the original bytes.

use vstd::prelude::*;

use crate::arch::software::{
    reverse_u16, reverse_u32, reverse_u64, spec_scaled_poly_u16, spec_scaled_poly_u32,
    spec_scaled_poly_u64,
};
use crate::catalog::spec_alg_data;
use crate::enums::CrcAlgorithm;
use crate::model::{
    bit_steps_u16, bit_steps_u32, bit_steps_u64, byte_shift_u16, byte_shift_u32, byte_shift_u64,
    crc_bytes_u16, crc_bytes_u32, crc_bytes_u64, lemma_byte_shift_is_bit_steps_u16,
    lemma_byte_shift_is_bit_steps_u32, lemma_byte_shift_is_bit_steps_u64,
    lemma_crc_bytes_append_u16, lemma_crc_bytes_append_u32, lemma_crc_bytes_append_u64,
    lemma_crc_bytes_sum_u16, lemma_crc_bytes_sum_u32, lemma_crc_bytes_sum_u64,
    lemma_zero_shifts_add_u16, lemma_zero_shifts_add_u32, lemma_zero_shifts_add_u64,
    lemma_zero_shifts_linear_u16, lemma_zero_shifts_linear_u32, lemma_zero_shifts_linear_u64,
    lemma_zero_shifts_zero_u16, lemma_zero_shifts_zero_u32, lemma_zero_shifts_zero_u64,
    lane_sum_u16, lane_sum_u32, lane_sum_u64, zero_shifts_u16, zero_shifts_u32,
    zero_shifts_u64,
};
use crate::structs::{engine_init, spec_checksum_fields, spec_engine_init, CrcParams};

verus! {

/// Halving a binary counter: the facts the skip-forward loop leans on.
proof fn lemma_halving_u64(x: u64)
    by (bit_vector)
    ensures
        (x >> 1u64) == x / 2,
        (x & 1) == x % 2,
        x > 0 ==> (x >> 1u64) < x,
{
}


// ===========================================================================
// 16-bit register maps
// ===========================================================================

/// `v` shifted left by `k` bit positions, zero once everything is shifted
/// out.
pub open spec fn lshift_u16(v: u16, k: nat) -> u16 {
    if k >= 16 {
        0
    } else {
        v << (k as u16)
    }
}

/// The tail of a matrix application: the images of basis bits `k` and above,
/// XORed together for every such bit set in `v`.
pub open spec fn mat_tail_u16(m: [u16; 16], v: u16, k: nat) -> u16
    decreases 16 - k,
{
    if k >= 16 {
        0
    } else {
        mat_tail_u16(m, v >> 1, k + 1) ^ (if v & 1 == 1 {
            m[k as int]
        } else {
            0
        })
    }
}

/// Applying a basis-image matrix to a register value.
pub open spec fn mat_apply_u16(m: [u16; 16], v: u16) -> u16 {
    mat_tail_u16(m, v, 0)
}

/// `m` represents the map "push the register through `n` zero bytes": each
/// column holds that map's image of one basis bit.
pub open spec fn mat_good_u16(poly: u16, reflect: bool, m: [u16; 16], n: nat) -> bool {
    forall|k: int| 0 <= k < 16 ==> #[trigger] m[k] == zero_shifts_u16(poly, reflect, n, (1u16 << (k as u16)))
}

/// Shift facts used when peeling one bit off a matrix application.
proof fn lemma_mat_bits_u16(v: u16, k: u16)
    by (bit_vector)
    ensures
        1 <= k < 16 ==> ((v >> ((16 - k) as u16)) == 0 ==> ((v >> 1) >> ((16 - k - 1) as u16))
            == 0),
        k < 16 - 1 ==> (v << k) == (((v >> 1) << ((k + 1) as u16)) ^ ((v & 1) << k)),
        (v << (15 as u16)) == ((v & 1) << (15 as u16)),
        ((v >> 1) >> (15 as u16)) == 0,
        v == ((v >> 1) << 1u16) ^ (v & 1),
        k < 16 ==> ((v & 1) == 1 ==> ((v & 1) << k) == (1 as u16) << k),
        k < 16 ==> ((v & 1) == 0 ==> ((v & 1) << k) == 0),
        ((1 as u16) << (0 as u16)) == 1,
        (v & 1) == 0 || (v & 1) == 1,
{
}

/// XOR cancellation on 16-bit values.
pub proof fn lemma_xor_cancel_u16(x: u16, y: u16, s: u16)
    by (bit_vector)
    ensures
        (x ^ y) ^ y == x,
        (x ^ s) == ((y ^ s) ^ (x ^ y)),
        x ^ 0 == x,
        0 ^ x == x,
{
}

/// A matrix that is good for `n` zero bytes maps every register value the
/// way `n` zero bytes do.
proof fn lemma_mat_tail_correct_u16(
    poly: u16,
    reflect: bool,
    m: [u16; 16],
    n: nat,
    v: u16,
    k: u16,
)
    requires
        mat_good_u16(poly, reflect, m, n),
        1 <= k <= 16,
        k < 16 ==> (v >> ((16 - k) as u16)) == 0,
    ensures
        mat_tail_u16(m, v, k as nat) == zero_shifts_u16(poly, reflect, n, lshift_u16(v, k as nat)),
    decreases 16 - k,
{
    if k == 16 {
        lemma_zero_shifts_zero_u16(poly, reflect, n);
    } else {
        let rest = v >> 1;
        let bit = v & 1;
        lemma_mat_bits_u16(v, k);
        lemma_mat_tail_correct_u16(poly, reflect, m, n, rest, (k + 1) as u16);
        let btval: u16 = if bit == 1 {
            1u16 << k
        } else {
            0
        };
        if bit != 1 {
            lemma_zero_shifts_zero_u16(poly, reflect, n);
        }
        if k == 16 - 1 {
            // everything but the lowest bit has shifted out
            lemma_zero_shifts_zero_u16(poly, reflect, n);
            assert(lshift_u16(v, k as nat) == btval);
            assert(mat_tail_u16(m, v, k as nat) == 0 ^ (if v & 1 == 1 {
                m[k as int]
            } else {
                0
            }));
            lemma_xor_cancel_u16(zero_shifts_u16(poly, reflect, n, btval), 0, 0);
        } else {
            lemma_zero_shifts_linear_u16(
                poly,
                reflect,
                n,
                lshift_u16(rest, (k + 1) as nat),
                btval,
            );
            assert(lshift_u16(v, k as nat) == lshift_u16(rest, (k + 1) as nat) ^ btval);
        }
    }
}

/// A good matrix applies as `n` zero bytes on every register value.
proof fn lemma_mat_apply_correct_u16(poly: u16, reflect: bool, m: [u16; 16], n: nat, v: u16)
    requires
        mat_good_u16(poly, reflect, m, n),
    ensures
        mat_apply_u16(m, v) == zero_shifts_u16(poly, reflect, n, v),
{
    let rest = v >> 1;
    let bit = v & 1;
    lemma_mat_bits_u16(v, 1);
    lemma_mat_tail_correct_u16(poly, reflect, m, n, rest, 1);
    lemma_zero_shifts_linear_u16(
        poly,
        reflect,
        n,
        lshift_u16(rest, 1),
        if bit == 1 {
            (1 as u16) << (0 as u16)
        } else {
            0
        },
    );
    lemma_mat_bits_u16(v, 0);
    if bit != 1 {
        lemma_zero_shifts_zero_u16(poly, reflect, n);
    }
    assert(v == lshift_u16(rest, 1) ^ (if bit == 1 {
        (1 as u16) << (0 as u16)
    } else {
        0
    }));
    lemma_xor_cancel_u16(zero_shifts_u16(poly, reflect, n, lshift_u16(rest, 1)), 0, 0);
}

/// One byte's worth of register steps, executably.
fn byte_shift_exec_u16(poly: u16, reflect: bool, v: u16) -> (r: u16)
    ensures
        r == byte_shift_u16(poly, reflect, v),
{
    let mut x: u16 = v;
    let mut i: u8 = 0;
    while i < 8
        invariant
            i <= 8,
            x == bit_steps_u16(poly, reflect, v, i as nat),
        decreases 8 - i,
    {
        if reflect {
            x = if x & 1 == 1 {
                (x >> 1u16) ^ poly
            } else {
                x >> 1u16
            };
        } else {
            x = if (x >> 15u16) & 1 == 1 {
                (x << 1u16) ^ poly
            } else {
                x << 1u16
            };
        }
        i = i + 1;
    }
    proof {
        lemma_byte_shift_is_bit_steps_u16(poly, reflect, v);
    }
    x
}

/// Applies a basis-image matrix to a register value.
fn mat_apply_exec_u16(m: &[u16; 16], v: u16) -> (r: u16)
    ensures
        r == mat_apply_u16(*m, v),
{
    let mut acc: u16 = 0;
    let mut vv: u16 = v;
    let mut k: usize = 0;
    proof {
        lemma_mat_xor_shuffle_u16(mat_tail_u16(*m, v, 0), 0, 0);
    }
    while k < 16
        invariant
            k <= 16,
            mat_apply_u16(*m, v) == acc ^ mat_tail_u16(*m, vv, k as nat),
        decreases 16 - k,
    {
        let ghost tail = mat_tail_u16(*m, vv, k as nat);
        let ghost rest_tail = mat_tail_u16(*m, vv >> 1, (k + 1) as nat);
        let term: u16 = if vv & 1 == 1 {
            m[k]
        } else {
            0
        };
        proof {
            assert(tail == rest_tail ^ term);
            lemma_mat_xor_shuffle_u16(acc, rest_tail, term);
        }
        acc = acc ^ term;
        vv = vv >> 1u16;
        k = k + 1;
    }
    proof {
        lemma_mat_xor_shuffle_u16(acc, 0, 0);
    }
    acc
}

/// Rearranging a three-term XOR.
proof fn lemma_mat_xor_shuffle_u16(a: u16, b: u16, c: u16)
    by (bit_vector)
    ensures
        a ^ (b ^ c) == (a ^ c) ^ b,
        a ^ 0 == a,
        0 ^ a == a,
{
}

/// The identity matrix: zero zero bytes move nothing.
fn identity_matrix_u16(tpoly: Ghost<u16>, reflect: Ghost<bool>) -> (m: [u16; 16])
    ensures
        mat_good_u16(tpoly@, reflect@, m, 0),
{
    let mut m = [0u16; 16];
    let mut k: usize = 0;
    while k < 16
        invariant
            k <= 16,
            forall|j: int| 0 <= j < k ==> #[trigger] m[j] == 1u16 << (j as u16),
        decreases 16 - k,
    {
        m[k] = 1u16 << (k as u16);
        k = k + 1;
    }
    m
}

/// The matrix of one zero byte: each basis bit pushed through eight register
/// steps.
fn byte_matrix_u16(poly: u16, reflect: bool) -> (m: [u16; 16])
    ensures
        mat_good_u16(poly, reflect, m, 1),
{
    let mut m = [0u16; 16];
    let mut k: usize = 0;
    while k < 16
        invariant
            k <= 16,
            forall|j: int|
                0 <= j < k ==> #[trigger] m[j] == byte_shift_u16(poly, reflect, 1u16 << (j as u16)),
        decreases 16 - k,
    {
        m[k] = byte_shift_exec_u16(poly, reflect, 1u16 << (k as u16));
        k = k + 1;
    }
    proof {
        assert forall|k: int| 0 <= k < 16 implies #[trigger] m[k] == zero_shifts_u16(
            poly,
            reflect,
            1,
            (1u16 << (k as u16)),
        ) by {
            assert(zero_shifts_u16(poly, reflect, 0, (1u16 << (k as u16))) == (1u16 << (
            k as u16)));
        }
    }
    m
}

/// Composes two register maps: the columns of the second map, each pushed
/// through the first.
fn compose_u16(
    m1: &[u16; 16],
    m2: &[u16; 16],
    tpoly: Ghost<u16>,
    reflect: Ghost<bool>,
    n1: Ghost<nat>,
    n2: Ghost<nat>,
) -> (m: [u16; 16])
    requires
        mat_good_u16(tpoly@, reflect@, *m1, n1@),
        mat_good_u16(tpoly@, reflect@, *m2, n2@),
    ensures
        mat_good_u16(tpoly@, reflect@, m, n1@ + n2@),
{
    let mut m = [0u16; 16];
    let mut k: usize = 0;
    while k < 16
        invariant
            k <= 16,
            mat_good_u16(tpoly@, reflect@, *m1, n1@),
            mat_good_u16(tpoly@, reflect@, *m2, n2@),
            forall|j: int|
                0 <= j < k ==> #[trigger] m[j] == zero_shifts_u16(
                    tpoly@,
                    reflect@,
                    n1@ + n2@,
                    (1u16 << (j as u16)),
                ),
        decreases 16 - k,
    {
        let col = mat_apply_exec_u16(m1, m2[k]);
        proof {
            lemma_mat_apply_correct_u16(tpoly@, reflect@, *m1, n1@, m2[k as int]);
            lemma_zero_shifts_add_u16(tpoly@, reflect@, n1@, n2@, (1u16 << (k as u16)));
        }
        m[k] = col;
        k = k + 1;
    }
    m
}

/// Pushes a register through `len` zero bytes in logarithmic time, by
/// squaring the one-zero-byte map.
pub fn advance_u16(tpoly: u16, reflect: bool, state: u16, len: u64) -> (r: u16)
    ensures
        r == zero_shifts_u16(tpoly, reflect, len as nat, state),
{
    let mut result = identity_matrix_u16(Ghost(tpoly), Ghost(reflect));
    let mut base = byte_matrix_u16(tpoly, reflect);
    let ghost mut er: nat = 0;
    let ghost mut eb: nat = 1;
    let mut rem: u64 = len;
    while rem > 0
        invariant
            mat_good_u16(tpoly, reflect, result, er),
            mat_good_u16(tpoly, reflect, base, eb),
            er + eb * (rem as nat) == len as nat,
        decreases rem,
    {
        let ghost er0 = er;
        let ghost eb0 = eb;
        let ghost rem0 = rem;
        proof {
            lemma_halving_u64(rem);
        }
        if rem & 1u64 == 1 {
            result = compose_u16(
                &result,
                &base,
                Ghost(tpoly),
                Ghost(reflect),
                Ghost(er),
                Ghost(eb),
            );
            proof {
                er = er + eb;
            }
        }
        base = compose_u16(&base, &base, Ghost(tpoly), Ghost(reflect), Ghost(eb), Ghost(eb));
        proof {
            eb = eb + eb;
        }
        rem = rem >> 1u64;
        proof {
            assert(rem0 as nat == 2 * (rem as nat) + ((rem0 & 1) as nat));
            assert(er0 + eb0 * (((rem0 & 1) as nat)) + (eb0 + eb0) * (rem as nat) == er0 + eb0 * (
            rem0 as nat)) by (nonlinear_arith)
                requires
                    rem0 as nat == 2 * (rem as nat) + ((rem0 & 1) as nat),
            ;
        }
    }
    let out = mat_apply_exec_u16(&result, state);
    proof {
        lemma_mat_apply_correct_u16(tpoly, reflect, result, er, state);
    }
    out
}

/// Combining at the register level: the CRC of a concatenation is the CRC of
/// the second part, XOR the first part's register (offset by the initial
/// value) pushed forward by the second part's length.
pub proof fn lemma_raw_combine_u16(poly: u16, reflect: bool, init: u16, a: Seq<u8>, b: Seq<u8>)
    ensures
        crc_bytes_u16(poly, reflect, init, a + b) == crc_bytes_u16(poly, reflect, init, b)
            ^ zero_shifts_u16(
            poly,
            reflect,
            b.len(),
            crc_bytes_u16(poly, reflect, init, a) ^ init,
        ),
{
    let raw_a = crc_bytes_u16(poly, reflect, init, a);
    lemma_crc_bytes_append_u16(poly, reflect, init, a, b);
    lemma_crc_bytes_sum_u16(poly, reflect, raw_a, b);
    lemma_crc_bytes_sum_u16(poly, reflect, init, b);
    lemma_zero_shifts_linear_u16(poly, reflect, b.len(), raw_a, init);
    lemma_xor_cancel_u16(
        zero_shifts_u16(poly, reflect, b.len(), raw_a),
        zero_shifts_u16(poly, reflect, b.len(), init),
        lane_sum_u16(poly, reflect, b),
    );
}


// ===========================================================================
// 32-bit register maps
// ===========================================================================

/// `v` shifted left by `k` bit positions, zero once everything is shifted
/// out.
pub open spec fn lshift_u32(v: u32, k: nat) -> u32 {
    if k >= 32 {
        0
    } else {
        v << (k as u32)
    }
}

/// The tail of a matrix application: the images of basis bits `k` and above,
/// XORed together for every such bit set in `v`.
pub open spec fn mat_tail_u32(m: [u32; 32], v: u32, k: nat) -> u32
    decreases 32 - k,
{
    if k >= 32 {
        0
    } else {
        mat_tail_u32(m, v >> 1, k + 1) ^ (if v & 1 == 1 {
            m[k as int]
        } else {
            0
        })
    }
}

/// Applying a basis-image matrix to a register value.
pub open spec fn mat_apply_u32(m: [u32; 32], v: u32) -> u32 {
    mat_tail_u32(m, v, 0)
}

/// `m` represents the map "push the register through `n` zero bytes": each
/// column holds that map's image of one basis bit.
pub open spec fn mat_good_u32(poly: u32, reflect: bool, m: [u32; 32], n: nat) -> bool {
    forall|k: int| 0 <= k < 32 ==> #[trigger] m[k] == zero_shifts_u32(poly, reflect, n, (1u32 << (k as u32)))
}

/// Shift facts used when peeling one bit off a matrix application.
proof fn lemma_mat_bits_u32(v: u32, k: u32)
    by (bit_vector)
    ensures
        1 <= k < 32 ==> ((v >> ((32 - k) as u32)) == 0 ==> ((v >> 1) >> ((32 - k - 1) as u32))
            == 0),
        k < 32 - 1 ==> (v << k) == (((v >> 1) << ((k + 1) as u32)) ^ ((v & 1) << k)),
        (v << (31 as u32)) == ((v & 1) << (31 as u32)),
        ((v >> 1) >> (31 as u32)) == 0,
        v == ((v >> 1) << 1u32) ^ (v & 1),
        k < 32 ==> ((v & 1) == 1 ==> ((v & 1) << k) == (1 as u32) << k),
        k < 32 ==> ((v & 1) == 0 ==> ((v & 1) << k) == 0),
        ((1 as u32) << (0 as u32)) == 1,
        (v & 1) == 0 || (v & 1) == 1,
{
}

/// XOR cancellation on 32-bit values.
pub proof fn lemma_xor_cancel_u32(x: u32, y: u32, s: u32)
    by (bit_vector)
    ensures
        (x ^ y) ^ y == x,
        (x ^ s) == ((y ^ s) ^ (x ^ y)),
        x ^ 0 == x,
        0 ^ x == x,
{
}

/// A matrix that is good for `n` zero bytes maps every register value the
/// way `n` zero bytes do.
proof fn lemma_mat_tail_correct_u32(
    poly: u32,
    reflect: bool,
    m: [u32; 32],
    n: nat,
    v: u32,
    k: u32,
)
    requires
        mat_good_u32(poly, reflect, m, n),
        1 <= k <= 32,
        k < 32 ==> (v >> ((32 - k) as u32)) == 0,
    ensures
        mat_tail_u32(m, v, k as nat) == zero_shifts_u32(poly, reflect, n, lshift_u32(v, k as nat)),
    decreases 32 - k,
{
    if k == 32 {
        lemma_zero_shifts_zero_u32(poly, reflect, n);
    } else {
        let rest = v >> 1;
        let bit = v & 1;
        lemma_mat_bits_u32(v, k);
        lemma_mat_tail_correct_u32(poly, reflect, m, n, rest, (k + 1) as u32);
        let btval: u32 = if bit == 1 {
            1u32 << k
        } else {
            0
        };
        if bit != 1 {
            lemma_zero_shifts_zero_u32(poly, reflect, n);
        }
        if k == 32 - 1 {
            // everything but the lowest bit has shifted out
            lemma_zero_shifts_zero_u32(poly, reflect, n);
            assert(lshift_u32(v, k as nat) == btval);
            assert(mat_tail_u32(m, v, k as nat) == 0 ^ (if v & 1 == 1 {
                m[k as int]
            } else {
                0
            }));
            lemma_xor_cancel_u32(zero_shifts_u32(poly, reflect, n, btval), 0, 0);
        } else {
            lemma_zero_shifts_linear_u32(
                poly,
                reflect,
                n,
                lshift_u32(rest, (k + 1) as nat),
                btval,
            );
            assert(lshift_u32(v, k as nat) == lshift_u32(rest, (k + 1) as nat) ^ btval);
        }
    }
}

/// A good matrix applies as `n` zero bytes on every register value.
proof fn lemma_mat_apply_correct_u32(poly: u32, reflect: bool, m: [u32; 32], n: nat, v: u32)
    requires
        mat_good_u32(poly, reflect, m, n),
    ensures
        mat_apply_u32(m, v) == zero_shifts_u32(poly, reflect, n, v),
{
    let rest = v >> 1;
    let bit = v & 1;
    lemma_mat_bits_u32(v, 1);
    lemma_mat_tail_correct_u32(poly, reflect, m, n, rest, 1);
    lemma_zero_shifts_linear_u32(
        poly,
        reflect,
        n,
        lshift_u32(rest, 1),
        if bit == 1 {
            (1 as u32) << (0 as u32)
        } else {
            0
        },
    );
    lemma_mat_bits_u32(v, 0);
    if bit != 1 {
        lemma_zero_shifts_zero_u32(poly, reflect, n);
    }
    assert(v == lshift_u32(rest, 1) ^ (if bit == 1 {
        (1 as u32) << (0 as u32)
    } else {
        0
    }));
    lemma_xor_cancel_u32(zero_shifts_u32(poly, reflect, n, lshift_u32(rest, 1)), 0, 0);
}

/// One byte's worth of register steps, executably.
fn byte_shift_exec_u32(poly: u32, reflect: bool, v: u32) -> (r: u32)
    ensures
        r == byte_shift_u32(poly, reflect, v),
{
    let mut x: u32 = v;
    let mut i: u8 = 0;
    while i < 8
        invariant
            i <= 8,
            x == bit_steps_u32(poly, reflect, v, i as nat),
        decreases 8 - i,
    {
        if reflect {
            x = if x & 1 == 1 {
                (x >> 1u32) ^ poly
            } else {
                x >> 1u32
            };
        } else {
            x = if (x >> 31u32) & 1 == 1 {
                (x << 1u32) ^ poly
            } else {
                x << 1u32
            };
        }
        i = i + 1;
    }
    proof {
        lemma_byte_shift_is_bit_steps_u32(poly, reflect, v);
    }
    x
}

/// Applies a basis-image matrix to a register value.
fn mat_apply_exec_u32(m: &[u32; 32], v: u32) -> (r: u32)
    ensures
        r == mat_apply_u32(*m, v),
{
    let mut acc: u32 = 0;
    let mut vv: u32 = v;
    let mut k: usize = 0;
    proof {
        lemma_mat_xor_shuffle_u32(mat_tail_u32(*m, v, 0), 0, 0);
    }
    while k < 32
        invariant
            k <= 32,
            mat_apply_u32(*m, v) == acc ^ mat_tail_u32(*m, vv, k as nat),
        decreases 32 - k,
    {
        let ghost tail = mat_tail_u32(*m, vv, k as nat);
        let ghost rest_tail = mat_tail_u32(*m, vv >> 1, (k + 1) as nat);
        let term: u32 = if vv & 1 == 1 {
            m[k]
        } else {
            0
        };
        proof {
            assert(tail == rest_tail ^ term);
            lemma_mat_xor_shuffle_u32(acc, rest_tail, term);
        }
        acc = acc ^ term;
        vv = vv >> 1u32;
        k = k + 1;
    }
    proof {
        lemma_mat_xor_shuffle_u32(acc, 0, 0);
    }
    acc
}

/// Rearranging a three-term XOR.
proof fn lemma_mat_xor_shuffle_u32(a: u32, b: u32, c: u32)
    by (bit_vector)
    ensures
        a ^ (b ^ c) == (a ^ c) ^ b,
        a ^ 0 == a,
        0 ^ a == a,
{
}

/// The identity matrix: zero zero bytes move nothing.
fn identity_matrix_u32(tpoly: Ghost<u32>, reflect: Ghost<bool>) -> (m: [u32; 32])
    ensures
        mat_good_u32(tpoly@, reflect@, m, 0),
{
    let mut m = [0u32; 32];
    let mut k: usize = 0;
    while k < 32
        invariant
            k <= 32,
            forall|j: int| 0 <= j < k ==> #[trigger] m[j] == 1u32 << (j as u32),
        decreases 32 - k,
    {
        m[k] = 1u32 << (k as u32);
        k = k + 1;
    }
    m
}

/// The matrix of one zero byte: each basis bit pushed through eight register
/// steps.
fn byte_matrix_u32(poly: u32, reflect: bool) -> (m: [u32; 32])
    ensures
        mat_good_u32(poly, reflect, m, 1),
{
    let mut m = [0u32; 32];
    let mut k: usize = 0;
    while k < 32
        invariant
            k <= 32,
            forall|j: int|
                0 <= j < k ==> #[trigger] m[j] == byte_shift_u32(poly, reflect, 1u32 << (j as u32)),
        decreases 32 - k,
    {
        m[k] = byte_shift_exec_u32(poly, reflect, 1u32 << (k as u32));
        k = k + 1;
    }
    proof {
        assert forall|k: int| 0 <= k < 32 implies #[trigger] m[k] == zero_shifts_u32(
            poly,
            reflect,
            1,
            (1u32 << (k as u32)),
        ) by {
            assert(zero_shifts_u32(poly, reflect, 0, (1u32 << (k as u32))) == (1u32 << (
            k as u32)));
        }
    }
    m
}

/// Composes two register maps: the columns of the second map, each pushed
/// through the first.
fn compose_u32(
    m1: &[u32; 32],
    m2: &[u32; 32],
    tpoly: Ghost<u32>,
    reflect: Ghost<bool>,
    n1: Ghost<nat>,
    n2: Ghost<nat>,
) -> (m: [u32; 32])
    requires
        mat_good_u32(tpoly@, reflect@, *m1, n1@),
        mat_good_u32(tpoly@, reflect@, *m2, n2@),
    ensures
        mat_good_u32(tpoly@, reflect@, m, n1@ + n2@),
{
    let mut m = [0u32; 32];
    let mut k: usize = 0;
    while k < 32
        invariant
            k <= 32,
            mat_good_u32(tpoly@, reflect@, *m1, n1@),
            mat_good_u32(tpoly@, reflect@, *m2, n2@),
            forall|j: int|
                0 <= j < k ==> #[trigger] m[j] == zero_shifts_u32(
                    tpoly@,
                    reflect@,
                    n1@ + n2@,
                    (1u32 << (j as u32)),
                ),
        decreases 32 - k,
    {
        let col = mat_apply_exec_u32(m1, m2[k]);
        proof {
            lemma_mat_apply_correct_u32(tpoly@, reflect@, *m1, n1@, m2[k as int]);
            lemma_zero_shifts_add_u32(tpoly@, reflect@, n1@, n2@, (1u32 << (k as u32)));
        }
        m[k] = col;
        k = k + 1;
    }
    m
}

/// Pushes a register through `len` zero bytes in logarithmic time, by
/// squaring the one-zero-byte map.
pub fn advance_u32(tpoly: u32, reflect: bool, state: u32, len: u64) -> (r: u32)
    ensures
        r == zero_shifts_u32(tpoly, reflect, len as nat, state),
{
    let mut result = identity_matrix_u32(Ghost(tpoly), Ghost(reflect));
    let mut base = byte_matrix_u32(tpoly, reflect);
    let ghost mut er: nat = 0;
    let ghost mut eb: nat = 1;
    let mut rem: u64 = len;
    while rem > 0
        invariant
            mat_good_u32(tpoly, reflect, result, er),
            mat_good_u32(tpoly, reflect, base, eb),
            er + eb * (rem as nat) == len as nat,
        decreases rem,
    {
        let ghost er0 = er;
        let ghost eb0 = eb;
        let ghost rem0 = rem;
        proof {
            lemma_halving_u64(rem);
        }
        if rem & 1u64 == 1 {
            result = compose_u32(
                &result,
                &base,
                Ghost(tpoly),
                Ghost(reflect),
                Ghost(er),
                Ghost(eb),
            );
            proof {
                er = er + eb;
            }
        }
        base = compose_u32(&base, &base, Ghost(tpoly), Ghost(reflect), Ghost(eb), Ghost(eb));
        proof {
            eb = eb + eb;
        }
        rem = rem >> 1u64;
        proof {
            assert(rem0 as nat == 2 * (rem as nat) + ((rem0 & 1) as nat));
            assert(er0 + eb0 * (((rem0 & 1) as nat)) + (eb0 + eb0) * (rem as nat) == er0 + eb0 * (
            rem0 as nat)) by (nonlinear_arith)
                requires
                    rem0 as nat == 2 * (rem as nat) + ((rem0 & 1) as nat),
            ;
        }
    }
    let out = mat_apply_exec_u32(&result, state);
    proof {
        lemma_mat_apply_correct_u32(tpoly, reflect, result, er, state);
    }
    out
}

/// Combining at the register level: the CRC of a concatenation is the CRC of
/// the second part, XOR the first part's register (offset by the initial
/// value) pushed forward by the second part's length.
pub proof fn lemma_raw_combine_u32(poly: u32, reflect: bool, init: u32, a: Seq<u8>, b: Seq<u8>)
    ensures
        crc_bytes_u32(poly, reflect, init, a + b) == crc_bytes_u32(poly, reflect, init, b)
            ^ zero_shifts_u32(
            poly,
            reflect,
            b.len(),
            crc_bytes_u32(poly, reflect, init, a) ^ init,
        ),
{
    let raw_a = crc_bytes_u32(poly, reflect, init, a);
    lemma_crc_bytes_append_u32(poly, reflect, init, a, b);
    lemma_crc_bytes_sum_u32(poly, reflect, raw_a, b);
    lemma_crc_bytes_sum_u32(poly, reflect, init, b);
    lemma_zero_shifts_linear_u32(poly, reflect, b.len(), raw_a, init);
    lemma_xor_cancel_u32(
        zero_shifts_u32(poly, reflect, b.len(), raw_a),
        zero_shifts_u32(poly, reflect, b.len(), init),
        lane_sum_u32(poly, reflect, b),
    );
}


// ===========================================================================
// 64-bit register maps
// ===========================================================================

/// `v` shifted left by `k` bit positions, zero once everything is shifted
/// out.
pub open spec fn lshift_u64(v: u64, k: nat) -> u64 {
    if k >= 64 {
        0
    } else {
        v << (k as u64)
    }
}

/// The tail of a matrix application: the images of basis bits `k` and above,
/// XORed together for every such bit set in `v`.
pub open spec fn mat_tail_u64(m: [u64; 64], v: u64, k: nat) -> u64
    decreases 64 - k,
{
    if k >= 64 {
        0
    } else {
        mat_tail_u64(m, v >> 1, k + 1) ^ (if v & 1 == 1 {
            m[k as int]
        } else {
            0
        })
    }
}

/// Applying a basis-image matrix to a register value.
pub open spec fn mat_apply_u64(m: [u64; 64], v: u64) -> u64 {
    mat_tail_u64(m, v, 0)
}

/// `m` represents the map "push the register through `n` zero bytes": each
/// column holds that map's image of one basis bit.
pub open spec fn mat_good_u64(poly: u64, reflect: bool, m: [u64; 64], n: nat) -> bool {
    forall|k: int| 0 <= k < 64 ==> #[trigger] m[k] == zero_shifts_u64(poly, reflect, n, (1u64 << (k as u64)))
}

/// Shift facts used when peeling one bit off a matrix application.
proof fn lemma_mat_bits_u64(v: u64, k: u64)
    by (bit_vector)
    ensures
        1 <= k < 64 ==> ((v >> ((64 - k) as u64)) == 0 ==> ((v >> 1) >> ((64 - k - 1) as u64))
            == 0),
        k < 64 - 1 ==> (v << k) == (((v >> 1) << ((k + 1) as u64)) ^ ((v & 1) << k)),
        (v << (63 as u64)) == ((v & 1) << (63 as u64)),
        ((v >> 1) >> (63 as u64)) == 0,
        v == ((v >> 1) << 1u64) ^ (v & 1),
        k < 64 ==> ((v & 1) == 1 ==> ((v & 1) << k) == (1 as u64) << k),
        k < 64 ==> ((v & 1) == 0 ==> ((v & 1) << k) == 0),
        ((1 as u64) << (0 as u64)) == 1,
        (v & 1) == 0 || (v & 1) == 1,
{
}

/// XOR cancellation on 64-bit values.
pub proof fn lemma_xor_cancel_u64(x: u64, y: u64, s: u64)
    by (bit_vector)
    ensures
        (x ^ y) ^ y == x,
        (x ^ s) == ((y ^ s) ^ (x ^ y)),
        x ^ 0 == x,
        0 ^ x == x,
{
}

/// A matrix that is good for `n` zero bytes maps every register value the
/// way `n` zero bytes do.
proof fn lemma_mat_tail_correct_u64(
    poly: u64,
    reflect: bool,
    m: [u64; 64],
    n: nat,
    v: u64,
    k: u64,
)
    requires
        mat_good_u64(poly, reflect, m, n),
        1 <= k <= 64,
        k < 64 ==> (v >> ((64 - k) as u64)) == 0,
    ensures
        mat_tail_u64(m, v, k as nat) == zero_shifts_u64(poly, reflect, n, lshift_u64(v, k as nat)),
    decreases 64 - k,
{
    if k == 64 {
        lemma_zero_shifts_zero_u64(poly, reflect, n);
    } else {
        let rest = v >> 1;
        let bit = v & 1;
        lemma_mat_bits_u64(v, k);
        lemma_mat_tail_correct_u64(poly, reflect, m, n, rest, (k + 1) as u64);
        let btval: u64 = if bit == 1 {
            1u64 << k
        } else {
            0
        };
        if bit != 1 {
            lemma_zero_shifts_zero_u64(poly, reflect, n);
        }
        if k == 64 - 1 {
            // everything but the lowest bit has shifted out
            lemma_zero_shifts_zero_u64(poly, reflect, n);
            assert(lshift_u64(v, k as nat) == btval);
            assert(mat_tail_u64(m, v, k as nat) == 0 ^ (if v & 1 == 1 {
                m[k as int]
            } else {
                0
            }));
            lemma_xor_cancel_u64(zero_shifts_u64(poly, reflect, n, btval), 0, 0);
        } else {
            lemma_zero_shifts_linear_u64(
                poly,
                reflect,
                n,
                lshift_u64(rest, (k + 1) as nat),
                btval,
            );
            assert(lshift_u64(v, k as nat) == lshift_u64(rest, (k + 1) as nat) ^ btval);
        }
    }
}

/// A good matrix applies as `n` zero bytes on every register value.
proof fn lemma_mat_apply_correct_u64(poly: u64, reflect: bool, m: [u64; 64], n: nat, v: u64)
    requires
        mat_good_u64(poly, reflect, m, n),
    ensures
        mat_apply_u64(m, v) == zero_shifts_u64(poly, reflect, n, v),
{
    let rest = v >> 1;
    let bit = v & 1;
    lemma_mat_bits_u64(v, 1);
    lemma_mat_tail_correct_u64(poly, reflect, m, n, rest, 1);
    lemma_zero_shifts_linear_u64(
        poly,
        reflect,
        n,
        lshift_u64(rest, 1),
        if bit == 1 {
            (1 as u64) << (0 as u64)
        } else {
            0
        },
    );
    lemma_mat_bits_u64(v, 0);
    if bit != 1 {
        lemma_zero_shifts_zero_u64(poly, reflect, n);
    }
    assert(v == lshift_u64(rest, 1) ^ (if bit == 1 {
        (1 as u64) << (0 as u64)
    } else {
        0
    }));
    lemma_xor_cancel_u64(zero_shifts_u64(poly, reflect, n, lshift_u64(rest, 1)), 0, 0);
}

/// One byte's worth of register steps, executably.
fn byte_shift_exec_u64(poly: u64, reflect: bool, v: u64) -> (r: u64)
    ensures
        r == byte_shift_u64(poly, reflect, v),
{
    let mut x: u64 = v;
    let mut i: u8 = 0;
    while i < 8
        invariant
            i <= 8,
            x == bit_steps_u64(poly, reflect, v, i as nat),
        decreases 8 - i,
    {
        if reflect {
            x = if x & 1 == 1 {
                (x >> 1u64) ^ poly
            } else {
                x >> 1u64
            };
        } else {
            x = if (x >> 63u64) & 1 == 1 {
                (x << 1u64) ^ poly
            } else {
                x << 1u64
            };
        }
        i = i + 1;
    }
    proof {
        lemma_byte_shift_is_bit_steps_u64(poly, reflect, v);
    }
    x
}

/// Applies a basis-image matrix to a register value.
fn mat_apply_exec_u64(m: &[u64; 64], v: u64) -> (r: u64)
    ensures
        r == mat_apply_u64(*m, v),
{
    let mut acc: u64 = 0;
    let mut vv: u64 = v;
    let mut k: usize = 0;
    proof {
        lemma_mat_xor_shuffle_u64(mat_tail_u64(*m, v, 0), 0, 0);
    }
    while k < 64
        invariant
            k <= 64,
            mat_apply_u64(*m, v) == acc ^ mat_tail_u64(*m, vv, k as nat),
        decreases 64 - k,
    {
        let ghost tail = mat_tail_u64(*m, vv, k as nat);
        let ghost rest_tail = mat_tail_u64(*m, vv >> 1, (k + 1) as nat);
        let term: u64 = if vv & 1 == 1 {
            m[k]
        } else {
            0
        };
        proof {
            assert(tail == rest_tail ^ term);
            lemma_mat_xor_shuffle_u64(acc, rest_tail, term);
        }
        acc = acc ^ term;
        vv = vv >> 1u64;
        k = k + 1;
    }
    proof {
        lemma_mat_xor_shuffle_u64(acc, 0, 0);
    }
    acc
}

/// Rearranging a three-term XOR.
proof fn lemma_mat_xor_shuffle_u64(a: u64, b: u64, c: u64)
    by (bit_vector)
    ensures
        a ^ (b ^ c) == (a ^ c) ^ b,
        a ^ 0 == a,
        0 ^ a == a,
{
}

/// The identity matrix: zero zero bytes move nothing.
fn identity_matrix_u64(tpoly: Ghost<u64>, reflect: Ghost<bool>) -> (m: [u64; 64])
    ensures
        mat_good_u64(tpoly@, reflect@, m, 0),
{
    let mut m = [0u64; 64];
    let mut k: usize = 0;
    while k < 64
        invariant
            k <= 64,
            forall|j: int| 0 <= j < k ==> #[trigger] m[j] == 1u64 << (j as u64),
        decreases 64 - k,
    {
        m[k] = 1u64 << (k as u64);
        k = k + 1;
    }
    m
}

/// The matrix of one zero byte: each basis bit pushed through eight register
/// steps.
fn byte_matrix_u64(poly: u64, reflect: bool) -> (m: [u64; 64])
    ensures
        mat_good_u64(poly, reflect, m, 1),
{
    let mut m = [0u64; 64];
    let mut k: usize = 0;
    while k < 64
        invariant
            k <= 64,
            forall|j: int|
                0 <= j < k ==> #[trigger] m[j] == byte_shift_u64(poly, reflect, 1u64 << (j as u64)),
        decreases 64 - k,
    {
        m[k] = byte_shift_exec_u64(poly, reflect, 1u64 << (k as u64));
        k = k + 1;
    }
    proof {
        assert forall|k: int| 0 <= k < 64 implies #[trigger] m[k] == zero_shifts_u64(
            poly,
            reflect,
            1,
            (1u64 << (k as u64)),
        ) by {
            assert(zero_shifts_u64(poly, reflect, 0, (1u64 << (k as u64))) == (1u64 << (
            k as u64)));
        }
    }
    m
}

/// Composes two register maps: the columns of the second map, each pushed
/// through the first.
fn compose_u64(
    m1: &[u64; 64],
    m2: &[u64; 64],
    tpoly: Ghost<u64>,
    reflect: Ghost<bool>,
    n1: Ghost<nat>,
    n2: Ghost<nat>,
) -> (m: [u64; 64])
    requires
        mat_good_u64(tpoly@, reflect@, *m1, n1@),
        mat_good_u64(tpoly@, reflect@, *m2, n2@),
    ensures
        mat_good_u64(tpoly@, reflect@, m, n1@ + n2@),
{
    let mut m = [0u64; 64];
    let mut k: usize = 0;
    while k < 64
        invariant
            k <= 64,
            mat_good_u64(tpoly@, reflect@, *m1, n1@),
            mat_good_u64(tpoly@, reflect@, *m2, n2@),
            forall|j: int|
                0 <= j < k ==> #[trigger] m[j] == zero_shifts_u64(
                    tpoly@,
                    reflect@,
                    n1@ + n2@,
                    (1u64 << (j as u64)),
                ),
        decreases 64 - k,
    {
        let col = mat_apply_exec_u64(m1, m2[k]);
        proof {
            lemma_mat_apply_correct_u64(tpoly@, reflect@, *m1, n1@, m2[k as int]);
            lemma_zero_shifts_add_u64(tpoly@, reflect@, n1@, n2@, (1u64 << (k as u64)));
        }
        m[k] = col;
        k = k + 1;
    }
    m
}

/// Pushes a register through `len` zero bytes in logarithmic time, by
/// squaring the one-zero-byte map.
pub fn advance_u64(tpoly: u64, reflect: bool, state: u64, len: u64) -> (r: u64)
    ensures
        r == zero_shifts_u64(tpoly, reflect, len as nat, state),
{
    let mut result = identity_matrix_u64(Ghost(tpoly), Ghost(reflect));
    let mut base = byte_matrix_u64(tpoly, reflect);
    let ghost mut er: nat = 0;
    let ghost mut eb: nat = 1;
    let mut rem: u64 = len;
    while rem > 0
        invariant
            mat_good_u64(tpoly, reflect, result, er),
            mat_good_u64(tpoly, reflect, base, eb),
            er + eb * (rem as nat) == len as nat,
        decreases rem,
    {
        let ghost er0 = er;
        let ghost eb0 = eb;
        let ghost rem0 = rem;
        proof {
            lemma_halving_u64(rem);
        }
        if rem & 1u64 == 1 {
            result = compose_u64(
                &result,
                &base,
                Ghost(tpoly),
                Ghost(reflect),
                Ghost(er),
                Ghost(eb),
            );
            proof {
                er = er + eb;
            }
        }
        base = compose_u64(&base, &base, Ghost(tpoly), Ghost(reflect), Ghost(eb), Ghost(eb));
        proof {
            eb = eb + eb;
        }
        rem = rem >> 1u64;
        proof {
            assert(rem0 as nat == 2 * (rem as nat) + ((rem0 & 1) as nat));
            assert(er0 + eb0 * (((rem0 & 1) as nat)) + (eb0 + eb0) * (rem as nat) == er0 + eb0 * (
            rem0 as nat)) by (nonlinear_arith)
                requires
                    rem0 as nat == 2 * (rem as nat) + ((rem0 & 1) as nat),
            ;
        }
    }
    let out = mat_apply_exec_u64(&result, state);
    proof {
        lemma_mat_apply_correct_u64(tpoly, reflect, result, er, state);
    }
    out
}

/// Combining at the register level: the CRC of a concatenation is the CRC of
/// the second part, XOR the first part's register (offset by the initial
/// value) pushed forward by the second part's length.
pub proof fn lemma_raw_combine_u64(poly: u64, reflect: bool, init: u64, a: Seq<u8>, b: Seq<u8>)
    ensures
        crc_bytes_u64(poly, reflect, init, a + b) == crc_bytes_u64(poly, reflect, init, b)
            ^ zero_shifts_u64(
            poly,
            reflect,
            b.len(),
            crc_bytes_u64(poly, reflect, init, a) ^ init,
        ),
{
    let raw_a = crc_bytes_u64(poly, reflect, init, a);
    lemma_crc_bytes_append_u64(poly, reflect, init, a, b);
    lemma_crc_bytes_sum_u64(poly, reflect, raw_a, b);
    lemma_crc_bytes_sum_u64(poly, reflect, init, b);
    lemma_zero_shifts_linear_u64(poly, reflect, b.len(), raw_a, init);
    lemma_xor_cancel_u64(
        zero_shifts_u64(poly, reflect, b.len(), raw_a),
        zero_shifts_u64(poly, reflect, b.len(), init),
        lane_sum_u64(poly, reflect, b),
    );
}


/// The scaled polynomial for 16-bit registers, executably.
pub(crate) fn scaled_poly_exec_u16(poly: u64, reflect: bool) -> (r: u16)
    ensures
        r == spec_scaled_poly_u16(16, poly as u16, reflect),
{
    if reflect {
        reverse_u16(#[verifier::truncate] (poly as u16)) >> ((16 - 16) as u16)
    } else {
        (#[verifier::truncate] (poly as u16)) << ((16 - 16) as u16)
    }
}
/// The scaled polynomial for 32-bit registers, executably.
pub(crate) fn scaled_poly_exec_u32(poly: u64, reflect: bool) -> (r: u32)
    ensures
        r == spec_scaled_poly_u32(32, poly as u32, reflect),
{
    if reflect {
        reverse_u32(#[verifier::truncate] (poly as u32)) >> ((32 - 32) as u32)
    } else {
        (#[verifier::truncate] (poly as u32)) << ((32 - 32) as u32)
    }
}
/// The scaled polynomial for 64-bit registers, executably.
pub(crate) fn scaled_poly_exec_u64(poly: u64, reflect: bool) -> (r: u64)
    ensures
        r == spec_scaled_poly_u64(64, poly as u64, reflect),
{
    if reflect {
        reverse_u64(#[verifier::truncate] (poly as u64)) >> ((64 - 64) as u64)
    } else {
        (#[verifier::truncate] (poly as u64)) << ((64 - 64) as u64)
    }
}
/// Combining at the widened-register level: the second register, XOR the
/// first register (offset by the initial value) pushed forward by the second
/// operand's byte length.
pub open spec fn spec_raw_combine_fields(
    width: u8,
    poly: u64,
    reflect: bool,
    init: u64,
    raw1: u64,
    raw2: u64,
    len2: nat,
) -> u64 {
    let start = spec_engine_init(width, init, reflect);
    if width == 16 {
        ((raw2 as u16) ^ zero_shifts_u16(
            spec_scaled_poly_u16(16, poly as u16, reflect),
            reflect,
            len2,
            (raw1 as u16) ^ (start as u16),
        )) as u64
    } else if width == 32 {
        ((raw2 as u32) ^ zero_shifts_u32(
            spec_scaled_poly_u32(32, poly as u32, reflect),
            reflect,
            len2,
            (raw1 as u32) ^ (start as u32),
        )) as u64
    } else {
        raw2 ^ zero_shifts_u64(
            spec_scaled_poly_u64(64, poly, reflect),
            reflect,
            len2,
            raw1 ^ start,
        )
    }
}

/// Combining two presented checksums: strip the final mask, combine the
/// registers, and re-apply the mask.
pub open spec fn spec_checksum_combine_fields(
    width: u8,
    poly: u64,
    reflect: bool,
    init: u64,
    xorout: u64,
    checksum1: u64,
    checksum2: u64,
    len2: nat,
) -> u64 {
    spec_raw_combine_fields(
        width,
        poly,
        reflect,
        init,
        checksum1 ^ xorout,
        checksum2 ^ xorout,
        len2,
    ) ^ xorout
}

/// The checksum-combine of a catalogue variant.
pub open spec fn spec_checksum_combine_algorithm(
    algorithm: CrcAlgorithm,
    checksum1: u64,
    checksum2: u64,
    len2: nat,
) -> u64 {
    let d = spec_alg_data(algorithm);
    spec_checksum_combine_fields(d.0, d.1, d.3, d.2, d.4, checksum1, checksum2, len2)
}

/// Combines two presented checksums as if the bytes behind `checksum2`
/// (`checksum2_len` of them) had been appended to the bytes behind
/// `checksum1`, without re-reading any data.
pub fn checksum_combine_with_params(
    params: CrcParams,
    checksum1: u64,
    checksum2: u64,
    checksum2_len: u64,
) -> (r: u64)
    requires
        params.spec_well_formed(),
    ensures
        r == spec_checksum_combine_fields(
            params.width,
            params.poly,
            params.refin,
            params.init,
            params.xorout,
            checksum1,
            checksum2,
            checksum2_len as nat,
        ),
{
    let raw1 = checksum1 ^ params.xorout;
    let raw2 = checksum2 ^ params.xorout;
    let start = engine_init(params.width, params.init, params.refin);
    if params.width == 16 {
        let tp = scaled_poly_exec_u16(params.poly, params.refin);
        let adv = advance_u16(
            tp,
            params.refin,
            (#[verifier::truncate] (raw1 as u16)) ^ (#[verifier::truncate] (start as u16)),
            checksum2_len,
        );
        (((#[verifier::truncate] (raw2 as u16)) ^ adv) as u64) ^ params.xorout
    } else if params.width == 32 {
        let tp = scaled_poly_exec_u32(params.poly, params.refin);
        let adv = advance_u32(
            tp,
            params.refin,
            (#[verifier::truncate] (raw1 as u32)) ^ (#[verifier::truncate] (start as u32)),
            checksum2_len,
        );
        (((#[verifier::truncate] (raw2 as u32)) ^ adv) as u64) ^ params.xorout
    } else {
        let tp = scaled_poly_exec_u64(params.poly, params.refin);
        let adv = advance_u64(tp, params.refin, raw1 ^ start, checksum2_len);
        (raw2 ^ adv) ^ params.xorout
    }
}

/// Combines two presented checksums of a catalogue variant.
pub fn checksum_combine(
    algorithm: CrcAlgorithm,
    checksum1: u64,
    checksum2: u64,
    checksum2_len: u64,
) -> (r: u64)
    requires
        !algorithm.spec_is_custom(),
    ensures
        r == spec_checksum_combine_algorithm(
            algorithm,
            checksum1,
            checksum2,
            checksum2_len as nat,
        ),
{
    let params = CrcParams::from_algorithm(algorithm);
    checksum_combine_with_params(params, checksum1, checksum2, checksum2_len)
}

/// Combining round-trip: for any two byte sequences, combining their
/// presented checksums (with the second one's length) gives exactly the
/// checksum of their concatenation.
pub proof fn lemma_combine_concat(
    width: u8,
    poly: u64,
    reflect: bool,
    init: u64,
    xorout: u64,
    a: Seq<u8>,
    b: Seq<u8>,
)
    requires
        width == 16 || width == 32 || width == 64,
    ensures
        spec_checksum_combine_fields(
            width,
            poly,
            reflect,
            init,
            xorout,
            spec_checksum_fields(width, poly, reflect, init, xorout, a),
            spec_checksum_fields(width, poly, reflect, init, xorout, b),
            b.len(),
        ) == spec_checksum_fields(width, poly, reflect, init, xorout, a + b),
{
    let start = spec_engine_init(width, init, reflect);
    if width == 16 {
        let tp = spec_scaled_poly_u16(16, poly as u16, reflect);
        let raw_a = crc_bytes_u16(tp, reflect, start as u16, a);
        let raw_b = crc_bytes_u16(tp, reflect, start as u16, b);
        lemma_xor_cancel_u64(raw_a as u64, xorout, 0);
        lemma_xor_cancel_u64(raw_b as u64, xorout, 0);
        lemma_raw_combine_u16(tp, reflect, start as u16, a, b);
    } else if width == 32 {
        let tp = spec_scaled_poly_u32(32, poly as u32, reflect);
        let raw_a = crc_bytes_u32(tp, reflect, start as u32, a);
        let raw_b = crc_bytes_u32(tp, reflect, start as u32, b);
        lemma_xor_cancel_u64(raw_a as u64, xorout, 0);
        lemma_xor_cancel_u64(raw_b as u64, xorout, 0);
        lemma_raw_combine_u32(tp, reflect, start as u32, a, b);
    } else {
        let tp = spec_scaled_poly_u64(64, poly, reflect);
        let raw_a = crc_bytes_u64(tp, reflect, start, a);
        let raw_b = crc_bytes_u64(tp, reflect, start, b);
        lemma_xor_cancel_u64(raw_a, xorout, 0);
        lemma_xor_cancel_u64(raw_b, xorout, 0);
        lemma_raw_combine_u64(tp, reflect, start, a, b);
    }
}

} // verus!
