//! Bit-level model of CRC computation.
//!
//! A CRC register of width W is a linear feedback shift register over GF(2).
//! In reflected mode the register shifts right and feeds back the generator
//! polynomial when the departing low bit is set; in forward mode it shifts
//! left and feeds back when the departing high bit is set.  Feeding one input
//! byte XORs it into the register (at the shift-out end) and performs eight
//! bit steps.  These spec functions state that semantics directly; every
//! executable path of the engine is proved equal to them.
//!
//! The three register widths carry the same definitions and lemmas; only the
//! positions of the shift-out byte and of the feedback bit differ.

use vstd::prelude::*;

verus! {


// ===========================================================================
// 16-bit register
// ===========================================================================

/// One shift of the 16-bit register: out goes one bit, and the generator
/// polynomial is XORed in when that bit was set.
pub open spec fn bit_step_u16(poly: u16, reflect: bool, v: u16) -> u16 {
    if reflect {
        if v & 1 == 1 {
            (v >> 1) ^ poly
        } else {
            v >> 1
        }
    } else {
        if (v >> 15) & 1 == 1 {
            (v << 1) ^ poly
        } else {
            v << 1
        }
    }
}

/// `n` bit steps applied to `v`.
pub open spec fn bit_steps_u16(poly: u16, reflect: bool, v: u16, n: nat) -> u16
    decreases n,
{
    if n == 0 {
        v
    } else {
        bit_step_u16(poly, reflect, bit_steps_u16(poly, reflect, v, (n - 1) as nat))
    }
}

/// One byte's worth (eight) of bit steps, written out so that bit-vector
/// reasoning can unfold it.
pub open spec fn byte_shift_u16(poly: u16, reflect: bool, v: u16) -> u16 {
    bit_step_u16(poly, reflect,
        bit_step_u16(poly, reflect,
            bit_step_u16(poly, reflect,
                bit_step_u16(poly, reflect,
                    bit_step_u16(poly, reflect,
                        bit_step_u16(poly, reflect,
                            bit_step_u16(poly, reflect,
                                bit_step_u16(poly, reflect, v))))))))
}

/// Feeding one input byte: XOR it into the register at the shift-out end and
/// shift it through.
pub open spec fn feed_byte_u16(poly: u16, reflect: bool, crc: u16, b: u8) -> u16 {
    if reflect {
        byte_shift_u16(poly, true, crc ^ (b as u16))
    } else {
        byte_shift_u16(poly, false, crc ^ ((b as u16) << 8u16))
    }
}

/// The bit-by-bit CRC of a whole byte sequence, starting from register value
/// `crc`.  This is the reference meaning of every 16-bit update path.
pub open spec fn crc_bytes_u16(poly: u16, reflect: bool, crc: u16, data: Seq<u8>) -> u16
    decreases data.len(),
{
    if data.len() == 0 {
        crc
    } else {
        crc_bytes_u16(poly, reflect, feed_byte_u16(poly, reflect, crc, data[0]), data.skip(1))
    }
}

/// Entry `idx` of lookup-table lane `lane`: the register after feeding byte
/// `idx` into an all-zero register followed by `lane` zero bytes.
pub open spec fn lane_entry_u16(poly: u16, reflect: bool, lane: nat, idx: u8) -> u16
    decreases lane,
{
    if lane == 0 {
        if reflect {
            byte_shift_u16(poly, true, idx as u16)
        } else {
            byte_shift_u16(poly, false, (idx as u16) << 8u16)
        }
    } else {
        byte_shift_u16(poly, reflect, lane_entry_u16(poly, reflect, (lane - 1) as nat, idx))
    }
}

/// `n` zero bytes shifted through the register.
pub open spec fn zero_shifts_u16(poly: u16, reflect: bool, n: nat, v: u16) -> u16
    decreases n,
{
    if n == 0 {
        v
    } else {
        byte_shift_u16(poly, reflect, zero_shifts_u16(poly, reflect, (n - 1) as nat, v))
    }
}

/// XOR of one table entry per input byte, each at the lane matching its
/// distance from the end of the data.
pub open spec fn lane_sum_u16(poly: u16, reflect: bool, data: Seq<u8>) -> u16
    decreases data.len(),
{
    if data.len() == 0 {
        0
    } else {
        lane_entry_u16(poly, reflect, (data.len() - 1) as nat, data[0])
            ^ lane_sum_u16(poly, reflect, data.skip(1))
    }
}

// ===========================================================================
// Lemmas, 16-bit
// ===========================================================================

/// One bit step is XOR-linear in the register, in either mode.
pub proof fn lemma_bit_step_linear_u16(poly: u16, x: u16, y: u16)
    by (bit_vector)
    ensures
        bit_step_u16(poly, true, x ^ y) == bit_step_u16(poly, true, x) ^ bit_step_u16(
            poly,
            true,
            y,
        ),
        bit_step_u16(poly, false, x ^ y) == bit_step_u16(poly, false, x) ^ bit_step_u16(
            poly,
            false,
            y,
        ),
{
}

/// Eight bit steps are XOR-linear in the register: one application of
/// single-step linearity per step.
pub proof fn lemma_shift_linear_u16(poly: u16, reflect: bool, x: u16, y: u16)
    ensures
        byte_shift_u16(poly, reflect, x ^ y) == byte_shift_u16(poly, reflect, x) ^ byte_shift_u16(
            poly,
            reflect,
            y,
        ),
{
    let s0x = bit_step_u16(poly, reflect, x);
    let s0y = bit_step_u16(poly, reflect, y);
    let s1x = bit_step_u16(poly, reflect, s0x);
    let s1y = bit_step_u16(poly, reflect, s0y);
    let s2x = bit_step_u16(poly, reflect, s1x);
    let s2y = bit_step_u16(poly, reflect, s1y);
    let s3x = bit_step_u16(poly, reflect, s2x);
    let s3y = bit_step_u16(poly, reflect, s2y);
    let s4x = bit_step_u16(poly, reflect, s3x);
    let s4y = bit_step_u16(poly, reflect, s3y);
    let s5x = bit_step_u16(poly, reflect, s4x);
    let s5y = bit_step_u16(poly, reflect, s4y);
    let s6x = bit_step_u16(poly, reflect, s5x);
    let s6y = bit_step_u16(poly, reflect, s5y);
    lemma_bit_step_linear_u16(poly, x, y);
    lemma_bit_step_linear_u16(poly, s0x, s0y);
    lemma_bit_step_linear_u16(poly, s1x, s1y);
    lemma_bit_step_linear_u16(poly, s2x, s2y);
    lemma_bit_step_linear_u16(poly, s3x, s3y);
    lemma_bit_step_linear_u16(poly, s4x, s4y);
    lemma_bit_step_linear_u16(poly, s5x, s5y);
    lemma_bit_step_linear_u16(poly, s6x, s6y);
}

/// A register whose shift-out byte is zero only moves over during a byte's
/// worth of bit steps: no feedback fires.
pub proof fn lemma_byte_moves_u16(poly: u16, x: u16)
    by (bit_vector)
    ensures
        x & 0xFF == 0 ==> bit_step_u16(poly, true, x) == x >> 1u16,
        x & 0xFF == 0 ==> bit_step_u16(poly, true, x >> 1u16) == x >> 2u16,
        x & 0xFF == 0 ==> bit_step_u16(poly, true, x >> 2u16) == x >> 3u16,
        x & 0xFF == 0 ==> bit_step_u16(poly, true, x >> 3u16) == x >> 4u16,
        x & 0xFF == 0 ==> bit_step_u16(poly, true, x >> 4u16) == x >> 5u16,
        x & 0xFF == 0 ==> bit_step_u16(poly, true, x >> 5u16) == x >> 6u16,
        x & 0xFF == 0 ==> bit_step_u16(poly, true, x >> 6u16) == x >> 7u16,
        x & 0xFF == 0 ==> bit_step_u16(poly, true, x >> 7u16) == x >> 8u16,
        x >> 8u16 == 0 ==> bit_step_u16(poly, false, x) == x << 1u16,
        x >> 8u16 == 0 ==> bit_step_u16(poly, false, x << 1u16) == x << 2u16,
        x >> 8u16 == 0 ==> bit_step_u16(poly, false, x << 2u16) == x << 3u16,
        x >> 8u16 == 0 ==> bit_step_u16(poly, false, x << 3u16) == x << 4u16,
        x >> 8u16 == 0 ==> bit_step_u16(poly, false, x << 4u16) == x << 5u16,
        x >> 8u16 == 0 ==> bit_step_u16(poly, false, x << 5u16) == x << 6u16,
        x >> 8u16 == 0 ==> bit_step_u16(poly, false, x << 6u16) == x << 7u16,
        x >> 8u16 == 0 ==> bit_step_u16(poly, false, x << 7u16) == x << 8u16,
{
}

/// Splitting a register value into its shift-out byte and the remainder.
pub proof fn lemma_split_parts_u16(x: u16)
    by (bit_vector)
    ensures
        x == (x & 0xFF) ^ ((x >> 8u16) << 8u16),
        ((x >> 8u16) << 8u16) & 0xFF == 0,
        ((x >> 8u16) << 8u16) >> 8u16 == x >> 8u16,
        x == ((((x >> 8u16) & 0xFF) << 8u16) ^ (x & 0xffu16)),
        (x & 0xffu16) >> 8u16 == 0,
        (x & 0xffu16) << 8u16 == x << 8u16,
        (0 as u16) >> 8u16 == 0,
        (0 as u16) << 8u16 == 0,
        (0 as u16) >> 8u16 == 0,
        (0 as u16) & 0xFF == 0,
{
}

/// Eight bit steps split the register into the byte at the shift-out end,
/// which determines the feedback, plus the remainder, which only moves over;
/// and a zero register stays zero.
pub proof fn lemma_shift_split_u16(poly: u16, x: u16)
    ensures
        byte_shift_u16(poly, true, x) == byte_shift_u16(poly, true, x & 0xFF) ^ (x >> 8u16),
        byte_shift_u16(poly, false, x) == byte_shift_u16(
            poly,
            false,
            ((x >> 8u16) & 0xFF) << 8u16,
        ) ^ (x << 8u16),
        byte_shift_u16(poly, true, 0) == 0,
        byte_shift_u16(poly, false, 0) == 0,
{
    lemma_split_parts_u16(x);
    // reflected: the high part only moves over
    let hi = (x >> 8u16) << 8u16;
    lemma_shift_linear_u16(poly, true, x & 0xFF, hi);
    lemma_byte_moves_u16(poly, hi);
    assert(byte_shift_u16(poly, true, hi) == hi >> 8u16);
    // forward: the low part only moves over
    let hif = ((x >> 8u16) & 0xFF) << 8u16;
    let lof = x & 0xffu16;
    lemma_shift_linear_u16(poly, false, hif, lof);
    lemma_byte_moves_u16(poly, lof);
    assert(byte_shift_u16(poly, false, lof) == lof << 8u16);
    // a zero register stays zero
    lemma_byte_moves_u16(poly, 0);
    assert(byte_shift_u16(poly, true, 0) == (0 as u16) >> 8u16);
    assert(byte_shift_u16(poly, false, 0) == (0 as u16) << 8u16);
}

/// Cast round trips for the register bytes used by the engine.
pub proof fn lemma_reg_casts_u16(x: u16)
    by (bit_vector)
    ensures
        x & 0xFF < 256,
        ((x & 0xFF) as u8) as u16 == x & 0xFF,
        ((x as u8) as u16) == x & 0xFF,
        (((x >> 8u16) & 0xFF) as u8) as u16 == (x >> 8u16) & 0xFF,
        (((x >> 8u16) as u8) as u16) << 8u16 == ((x >> 8u16) & 0xFF) << 8u16,
        x >> 8u16 == (x >> 8u16) & 0xFF,
        (x >> 8u16) >> 8u16 == 0,
        (x << 8u16) << 8u16 == 0,
        ((x << 8u16) >> 8u16) as u8 == x as u8,
{
}

/// XOR of bytes embeds into the register whether the byte sits at the low or
/// the high end.
pub proof fn lemma_u8_xor_embed_u16(a: u8, b: u8)
    by (bit_vector)
    ensures
        ((a ^ b) as u16) == (a as u16) ^ (b as u16),
        (((a ^ b) as u16) << 8u16) == ((a as u16) << 8u16) ^ ((b as u16) << 8u16),
{
}

/// XOR on 16-bit values is associative and commutative with identity 0.
pub proof fn lemma_xor_assoc_u16(a: u16, b: u16, c: u16)
    by (bit_vector)
    ensures
        (a ^ b) ^ c == a ^ (b ^ c),
        a ^ b == b ^ a,
        a ^ 0 == a,
        0 ^ a == a,
        a ^ a == 0,
{
}

/// Eight bit steps written out equal eight recursive bit steps.
pub proof fn lemma_byte_shift_is_bit_steps_u16(poly: u16, reflect: bool, v: u16)
    ensures
        byte_shift_u16(poly, reflect, v) == bit_steps_u16(poly, reflect, v, 8),
{
    reveal_with_fuel(bit_steps_u16, 9);
}

/// Zero-byte shifts compose additively.
pub proof fn lemma_zero_shifts_add_u16(poly: u16, reflect: bool, m: nat, n: nat, v: u16)
    ensures
        zero_shifts_u16(poly, reflect, m + n, v) == zero_shifts_u16(
            poly,
            reflect,
            m,
            zero_shifts_u16(poly, reflect, n, v),
        ),
    decreases m,
{
    if m > 0 {
        lemma_zero_shifts_add_u16(poly, reflect, (m - 1) as nat, n, v);
        assert(m + n == ((m - 1) as nat + n) + 1);
    }
}

/// Zero-byte shifts are XOR-linear.
pub proof fn lemma_zero_shifts_linear_u16(poly: u16, reflect: bool, n: nat, x: u16, y: u16)
    ensures
        zero_shifts_u16(poly, reflect, n, x ^ y) == zero_shifts_u16(poly, reflect, n, x)
            ^ zero_shifts_u16(poly, reflect, n, y),
    decreases n,
{
    if n > 0 {
        lemma_zero_shifts_linear_u16(poly, reflect, (n - 1) as nat, x, y);
        lemma_shift_linear_u16(
            poly,
            reflect,
            zero_shifts_u16(poly, reflect, (n - 1) as nat, x),
            zero_shifts_u16(poly, reflect, (n - 1) as nat, y),
        );
    }
}

/// A table entry at lane `n + lane` is the lane-`lane` entry pushed through
/// `n` more zero bytes.
pub proof fn lemma_zero_shifts_entry_u16(poly: u16, reflect: bool, n: nat, lane: nat, idx: u8)
    ensures
        zero_shifts_u16(poly, reflect, n, lane_entry_u16(poly, reflect, lane, idx))
            == lane_entry_u16(poly, reflect, n + lane, idx),
    decreases n,
{
    if n > 0 {
        lemma_zero_shifts_entry_u16(poly, reflect, (n - 1) as nat, lane, idx);
    }
}

/// A zero register stays zero through any number of zero bytes.
pub proof fn lemma_zero_shifts_zero_u16(poly: u16, reflect: bool, n: nat)
    ensures
        zero_shifts_u16(poly, reflect, n, 0) == 0,
    decreases n,
{
    if n > 0 {
        lemma_zero_shifts_zero_u16(poly, reflect, (n - 1) as nat);
        lemma_shift_split_u16(poly, 0);
    }
}

/// Peeling one register byte off a run of zero-byte shifts: the byte at the
/// shift-out end becomes a table entry, the rest of the register moves over.
pub proof fn lemma_zs_peel_u16(poly: u16, reflect: bool, n: nat, crc: u16)
    requires
        n >= 1,
    ensures
        reflect ==> zero_shifts_u16(poly, true, n, crc) == lane_entry_u16(
            poly,
            true,
            (n - 1) as nat,
            crc as u8,
        ) ^ zero_shifts_u16(poly, true, (n - 1) as nat, crc >> 8u16),
        !reflect ==> zero_shifts_u16(poly, false, n, crc) == lane_entry_u16(
            poly,
            false,
            (n - 1) as nat,
            (crc >> 8u16) as u8,
        ) ^ zero_shifts_u16(poly, false, (n - 1) as nat, crc << 8u16),
{
    lemma_zero_shifts_add_u16(poly, reflect, (n - 1) as nat, 1, crc);
    assert(zero_shifts_u16(poly, reflect, 0, crc) == crc);
    assert(zero_shifts_u16(poly, reflect, 1, crc) == byte_shift_u16(poly, reflect, crc));
    lemma_reg_casts_u16(crc);
    lemma_shift_split_u16(poly, crc);
    if reflect {
        let e0 = lane_entry_u16(poly, true, 0, crc as u8);
        assert(byte_shift_u16(poly, true, crc) == e0 ^ (crc >> 8u16));
        lemma_zero_shifts_linear_u16(poly, true, (n - 1) as nat, e0, crc >> 8u16);
        lemma_zero_shifts_entry_u16(poly, true, (n - 1) as nat, 0, crc as u8);
    } else {
        let e0 = lane_entry_u16(poly, false, 0, (crc >> 8u16) as u8);
        assert(byte_shift_u16(poly, false, crc) == e0 ^ (crc << 8u16));
        lemma_zero_shifts_linear_u16(poly, false, (n - 1) as nat, e0, crc << 8u16);
        lemma_zero_shifts_entry_u16(poly, false, (n - 1) as nat, 0, (crc >> 8u16) as u8);
    }
}

/// Table entries are XOR-linear in the index byte.
pub proof fn lemma_entry_idx_linear_u16(poly: u16, reflect: bool, lane: nat, a: u8, b: u8)
    ensures
        lane_entry_u16(poly, reflect, lane, a ^ b) == lane_entry_u16(poly, reflect, lane, a)
            ^ lane_entry_u16(poly, reflect, lane, b),
    decreases lane,
{
    if lane == 0 {
        lemma_u8_xor_embed_u16(a, b);
        if reflect {
            lemma_shift_linear_u16(poly, true, a as u16, b as u16);
        } else {
            lemma_shift_linear_u16(poly, false, (a as u16) << 8u16, (b as u16) << 8u16);
        }
    } else {
        lemma_entry_idx_linear_u16(poly, reflect, (lane - 1) as nat, a, b);
        lemma_shift_linear_u16(
            poly,
            reflect,
            lane_entry_u16(poly, reflect, (lane - 1) as nat, a),
            lane_entry_u16(poly, reflect, (lane - 1) as nat, b),
        );
    }
}

/// The CRC of a byte sequence splits into the old register contents pushed
/// through the whole sequence length, XOR one table entry per input byte.
pub proof fn lemma_crc_bytes_sum_u16(poly: u16, reflect: bool, crc: u16, data: Seq<u8>)
    ensures
        crc_bytes_u16(poly, reflect, crc, data) == zero_shifts_u16(
            poly,
            reflect,
            data.len(),
            crc,
        ) ^ lane_sum_u16(poly, reflect, data),
    decreases data.len(),
{
    if data.len() == 0 {
        lemma_xor_assoc_u16(crc, 0, 0);
    } else {
        let b = data[0];
        let rest = data.skip(1);
        let fed = feed_byte_u16(poly, reflect, crc, b);
        lemma_crc_bytes_sum_u16(poly, reflect, fed, rest);
        // feed_byte is byte_shift of crc XOR the lane-0 entry of b
        let e0 = lane_entry_u16(poly, reflect, 0, b);
        if reflect {
            lemma_shift_linear_u16(poly, true, crc, b as u16);
        } else {
            lemma_shift_linear_u16(poly, false, crc, (b as u16) << 8u16);
        }
        assert(fed == byte_shift_u16(poly, reflect, crc) ^ e0);
        lemma_zero_shifts_linear_u16(
            poly,
            reflect,
            rest.len(),
            byte_shift_u16(poly, reflect, crc),
            e0,
        );
        lemma_zero_shifts_entry_u16(poly, reflect, rest.len(), 0, b);
        // pushing byte_shift(crc) through |rest| zero bytes equals pushing crc
        // through |data| of them
        lemma_zero_shifts_add_u16(poly, reflect, rest.len(), 1, crc);
        assert(zero_shifts_u16(poly, reflect, 0, crc) == crc);
        assert(zero_shifts_u16(poly, reflect, 1, crc) == byte_shift_u16(poly, reflect, crc));
        lemma_xor_assoc_u16(
            zero_shifts_u16(poly, reflect, data.len(), crc),
            lane_entry_u16(poly, reflect, rest.len(), b),
            lane_sum_u16(poly, reflect, rest),
        );
    }
}

/// Cast and shift facts for the engine's one-byte tail step.
pub proof fn lemma_feed_tail_casts_u16(crc: u16, b: u8)
    by (bit_vector)
    ensures
        (crc ^ (b as u16)) >> 8u16 == crc >> 8u16,
        (((crc ^ ((b as u16) << 8u16)) >> 8u16) & 0xFF) << 8u16 == (((crc >> 8u16)
            ^ (b as u16)) & 0xFF) << 8u16,
        (crc ^ ((b as u16) << 8u16)) << 8u16 == crc << 8u16,
        (crc ^ (b as u16)) & 0xFF < 256,
        (((crc ^ (b as u16)) & 0xFF) as u8) as u16 == (crc ^ (b as u16)) & 0xFF,
        ((crc >> 8u16) ^ (b as u16)) & 0xFF < 256,
        ((((crc >> 8u16) ^ (b as u16)) & 0xFF) as u8) as u16 == ((crc >> 8u16) ^ (b as u16))
            & 0xFF,
{
}

/// What the engine's tail loop computes for one byte: a lane-0 lookup on the
/// mixed byte, XOR the register moved over by one byte.
pub proof fn lemma_feed_byte_tail_u16(poly: u16, crc: u16, b: u8)
    ensures
        feed_byte_u16(poly, true, crc, b) == byte_shift_u16(
            poly,
            true,
            (crc ^ (b as u16)) & 0xFF,
        ) ^ (crc >> 8u16),
        feed_byte_u16(poly, false, crc, b) == byte_shift_u16(
            poly,
            false,
            (((crc >> 8u16) ^ (b as u16)) & 0xFF) << 8u16,
        ) ^ (crc << 8u16),
        (crc ^ (b as u16)) & 0xFF < 256,
        (((crc ^ (b as u16)) & 0xFF) as u8) as u16 == (crc ^ (b as u16)) & 0xFF,
        ((crc >> 8u16) ^ (b as u16)) & 0xFF < 256,
        ((((crc >> 8u16) ^ (b as u16)) & 0xFF) as u8) as u16 == ((crc >> 8u16) ^ (b as u16))
            & 0xFF,
{
    lemma_feed_tail_casts_u16(crc, b);
    lemma_shift_split_u16(poly, crc ^ (b as u16));
    lemma_shift_split_u16(poly, crc ^ ((b as u16) << 8u16));
}

/// Appending byte sequences composes the CRC computation.
pub proof fn lemma_crc_bytes_append_u16(poly: u16, reflect: bool, crc: u16, a: Seq<u8>, b: Seq<u8>)
    ensures
        crc_bytes_u16(poly, reflect, crc, a + b) == crc_bytes_u16(
            poly,
            reflect,
            crc_bytes_u16(poly, reflect, crc, a),
            b,
        ),
    decreases a.len(),
{
    if a.len() == 0 {
        assert(a + b =~= b);
    } else {
        let fed = feed_byte_u16(poly, reflect, crc, a[0]);
        assert((a + b).skip(1) =~= a.skip(1) + b);
        lemma_crc_bytes_append_u16(poly, reflect, fed, a.skip(1), b);
    }
}

/// Pushing the register through 16 zero bytes equals XORing the table entries
/// of its 2 bytes, each at the lane matching its distance from the end.
pub proof fn lemma_reg_decomp_u16(poly: u16, reflect: bool, crc: u16)
    ensures
        reflect ==> zero_shifts_u16(poly, true, 16, crc) == lane_entry_u16(poly, true, 15, crc as u8) ^ (lane_entry_u16(poly, true, 14, (crc >> 8u16) as u8)),
        !reflect ==> zero_shifts_u16(poly, false, 16, crc) == lane_entry_u16(poly, false, 15, (crc >> 8u16) as u8) ^ (lane_entry_u16(poly, false, 14, crc as u8)),
{
    lemma_reg_casts_u16(crc);
    if reflect {
        lemma_zs_peel_u16(poly, true, 16, crc);

        lemma_zs_peel_u16(poly, true, 15, crc >> 8u16);
        lemma_zero_shifts_zero_u16(poly, true, 14);
        lemma_xor_assoc_u16(0, 0, 0);
        assert(lane_entry_u16(poly, true, 14, (crc >> 8u16) as u8) ^ 0 == lane_entry_u16(poly, true, 14, (crc >> 8u16) as u8)) by {
            lemma_xor_assoc_u16(lane_entry_u16(poly, true, 14, (crc >> 8u16) as u8), 0, 0);
        }
    } else {
        lemma_zs_peel_u16(poly, false, 16, crc);

        lemma_zs_peel_u16(poly, false, 15, crc << 8u16);
        lemma_zero_shifts_zero_u16(poly, false, 14);
        assert(lane_entry_u16(poly, false, 14, crc as u8) ^ 0 == lane_entry_u16(poly, false, 14, crc as u8)) by {
            lemma_xor_assoc_u16(lane_entry_u16(poly, false, 14, crc as u8), 0, 0);
        }
    }
}

/// What the engine's 16-byte path computes for one block: sixteen table
/// lookups XORed together, with the 2 register bytes mixed into the first
/// 2 input bytes.
pub open spec fn block_lookup_sum_u16(poly: u16, reflect: bool, crc: u16, block: Seq<u8>) -> u16 {
    let c0: u8 = if reflect {
        crc as u8
    } else {
        (crc >> 8u16) as u8
    };
    let c1: u8 = if reflect {
        (crc >> 8u16) as u8
    } else {
        crc as u8
    };
    lane_entry_u16(poly, reflect, 0, block[15]) ^ lane_entry_u16(poly, reflect, 1, block[14]) ^ lane_entry_u16(poly, reflect, 2, block[13]) ^ lane_entry_u16(poly, reflect, 3, block[12]) ^ lane_entry_u16(poly, reflect, 4, block[11]) ^ lane_entry_u16(poly, reflect, 5, block[10]) ^ lane_entry_u16(poly, reflect, 6, block[9]) ^ lane_entry_u16(poly, reflect, 7, block[8]) ^ lane_entry_u16(poly, reflect, 8, block[7]) ^ lane_entry_u16(poly, reflect, 9, block[6]) ^ lane_entry_u16(poly, reflect, 10, block[5]) ^ lane_entry_u16(poly, reflect, 11, block[4]) ^ lane_entry_u16(poly, reflect, 12, block[3]) ^ lane_entry_u16(poly, reflect, 13, block[2]) ^ lane_entry_u16(poly, reflect, 14, block[1] ^ c1) ^ lane_entry_u16(poly, reflect, 15, block[0] ^ c0)
}

/// The engine's 16-lookup block step equals feeding the 16 bytes through the
/// register one bit at a time.
pub proof fn lemma_block_u16(poly: u16, reflect: bool, crc: u16, block: Seq<u8>)
    requires
        block.len() == 16,
    ensures
        crc_bytes_u16(poly, reflect, crc, block) == block_lookup_sum_u16(
            poly,
            reflect,
            crc,
            block,
        ),
{
    lemma_crc_bytes_sum_u16(poly, reflect, crc, block);
    lemma_reg_decomp_u16(poly, reflect, crc);
    let c0: u8 = if reflect {
        crc as u8
    } else {
        (crc >> 8u16) as u8
    };
    let c1: u8 = if reflect {
        (crc >> 8u16) as u8
    } else {
        crc as u8
    };
    let z0 = lane_entry_u16(poly, reflect, 15, c0);
    let z1 = lane_entry_u16(poly, reflect, 14, c1);
    assert(zero_shifts_u16(poly, reflect, 16, crc) == z0 ^ (z1));
    let t0 = lane_entry_u16(poly, reflect, 0, block[15]);
    let t1 = lane_entry_u16(poly, reflect, 1, block[14]);
    let t2 = lane_entry_u16(poly, reflect, 2, block[13]);
    let t3 = lane_entry_u16(poly, reflect, 3, block[12]);
    let t4 = lane_entry_u16(poly, reflect, 4, block[11]);
    let t5 = lane_entry_u16(poly, reflect, 5, block[10]);
    let t6 = lane_entry_u16(poly, reflect, 6, block[9]);
    let t7 = lane_entry_u16(poly, reflect, 7, block[8]);
    let t8 = lane_entry_u16(poly, reflect, 8, block[7]);
    let t9 = lane_entry_u16(poly, reflect, 9, block[6]);
    let t10 = lane_entry_u16(poly, reflect, 10, block[5]);
    let t11 = lane_entry_u16(poly, reflect, 11, block[4]);
    let t12 = lane_entry_u16(poly, reflect, 12, block[3]);
    let t13 = lane_entry_u16(poly, reflect, 13, block[2]);
    let t14 = lane_entry_u16(poly, reflect, 14, block[1]);
    let t15 = lane_entry_u16(poly, reflect, 15, block[0]);
    let s1 = block.skip(1);
    let s2 = s1.skip(1);
    let s3 = s2.skip(1);
    let s4 = s3.skip(1);
    let s5 = s4.skip(1);
    let s6 = s5.skip(1);
    let s7 = s6.skip(1);
    let s8 = s7.skip(1);
    let s9 = s8.skip(1);
    let s10 = s9.skip(1);
    let s11 = s10.skip(1);
    let s12 = s11.skip(1);
    let s13 = s12.skip(1);
    let s14 = s13.skip(1);
    let s15 = s14.skip(1);
    let s16 = s15.skip(1);
    assert(s1[0] == block[1] && s2[0] == block[2] && s3[0] == block[3] && s4[0] == block[4] && s5[0] == block[5] && s6[0] == block[6] && s7[0] == block[7] && s8[0] == block[8] && s9[0] == block[9] && s10[0] == block[10] && s11[0] == block[11] && s12[0] == block[12] && s13[0] == block[13] && s14[0] == block[14] && s15[0] == block[15]);
    assert(s16.len() == 0);
    assert(lane_sum_u16(poly, reflect, s16) == 0);
    assert(lane_sum_u16(poly, reflect, s15) == t0 ^ (0));
    assert(lane_sum_u16(poly, reflect, s14) == t1 ^ (t0 ^ (0)));
    assert(lane_sum_u16(poly, reflect, s13) == t2 ^ (t1 ^ (t0 ^ (0))));
    assert(lane_sum_u16(poly, reflect, s12) == t3 ^ (t2 ^ (t1 ^ (t0 ^ (0)))));
    assert(lane_sum_u16(poly, reflect, s11) == t4 ^ (t3 ^ (t2 ^ (t1 ^ (t0 ^ (0))))));
    assert(lane_sum_u16(poly, reflect, s10) == t5 ^ (t4 ^ (t3 ^ (t2 ^ (t1 ^ (t0 ^ (0)))))));
    assert(lane_sum_u16(poly, reflect, s9) == t6 ^ (t5 ^ (t4 ^ (t3 ^ (t2 ^ (t1 ^ (t0 ^ (0))))))));
    assert(lane_sum_u16(poly, reflect, s8) == t7 ^ (t6 ^ (t5 ^ (t4 ^ (t3 ^ (t2 ^ (t1 ^ (t0 ^ (0)))))))));
    assert(lane_sum_u16(poly, reflect, s7) == t8 ^ (t7 ^ (t6 ^ (t5 ^ (t4 ^ (t3 ^ (t2 ^ (t1 ^ (t0 ^ (0))))))))));
    assert(lane_sum_u16(poly, reflect, s6) == t9 ^ (t8 ^ (t7 ^ (t6 ^ (t5 ^ (t4 ^ (t3 ^ (t2 ^ (t1 ^ (t0 ^ (0)))))))))));
    assert(lane_sum_u16(poly, reflect, s5) == t10 ^ (t9 ^ (t8 ^ (t7 ^ (t6 ^ (t5 ^ (t4 ^ (t3 ^ (t2 ^ (t1 ^ (t0 ^ (0))))))))))));
    assert(lane_sum_u16(poly, reflect, s4) == t11 ^ (t10 ^ (t9 ^ (t8 ^ (t7 ^ (t6 ^ (t5 ^ (t4 ^ (t3 ^ (t2 ^ (t1 ^ (t0 ^ (0)))))))))))));
    assert(lane_sum_u16(poly, reflect, s3) == t12 ^ (t11 ^ (t10 ^ (t9 ^ (t8 ^ (t7 ^ (t6 ^ (t5 ^ (t4 ^ (t3 ^ (t2 ^ (t1 ^ (t0 ^ (0))))))))))))));
    assert(lane_sum_u16(poly, reflect, s2) == t13 ^ (t12 ^ (t11 ^ (t10 ^ (t9 ^ (t8 ^ (t7 ^ (t6 ^ (t5 ^ (t4 ^ (t3 ^ (t2 ^ (t1 ^ (t0 ^ (0)))))))))))))));
    assert(lane_sum_u16(poly, reflect, s1) == t14 ^ (t13 ^ (t12 ^ (t11 ^ (t10 ^ (t9 ^ (t8 ^ (t7 ^ (t6 ^ (t5 ^ (t4 ^ (t3 ^ (t2 ^ (t1 ^ (t0 ^ (0))))))))))))))));
    assert(lane_sum_u16(poly, reflect, block) == t15 ^ (t14 ^ (t13 ^ (t12 ^ (t11 ^ (t10 ^ (t9 ^ (t8 ^ (t7 ^ (t6 ^ (t5 ^ (t4 ^ (t3 ^ (t2 ^ (t1 ^ (t0 ^ (0)))))))))))))))));
    lemma_entry_idx_linear_u16(poly, reflect, 15, block[0], c0);
    lemma_entry_idx_linear_u16(poly, reflect, 14, block[1], c1);
    assert((z0 ^ (z1)) ^ (t15 ^ (t14 ^ (t13 ^ (t12 ^ (t11 ^ (t10 ^ (t9 ^ (t8 ^ (t7 ^ (t6 ^ (t5 ^ (t4 ^ (t3 ^ (t2 ^ (t1 ^ (t0 ^ (0))))))))))))))))) == t0 ^ t1 ^ t2 ^ t3 ^ t4 ^ t5 ^ t6 ^ t7 ^ t8 ^ t9 ^ t10 ^ t11 ^ t12 ^ t13 ^ (t14 ^ z1) ^ (t15 ^ z0)) by (bit_vector);
}

// ===========================================================================
// 32-bit register
// ===========================================================================

/// One shift of the 32-bit register: out goes one bit, and the generator
/// polynomial is XORed in when that bit was set.
pub open spec fn bit_step_u32(poly: u32, reflect: bool, v: u32) -> u32 {
    if reflect {
        if v & 1 == 1 {
            (v >> 1) ^ poly
        } else {
            v >> 1
        }
    } else {
        if (v >> 31) & 1 == 1 {
            (v << 1) ^ poly
        } else {
            v << 1
        }
    }
}

/// `n` bit steps applied to `v`.
pub open spec fn bit_steps_u32(poly: u32, reflect: bool, v: u32, n: nat) -> u32
    decreases n,
{
    if n == 0 {
        v
    } else {
        bit_step_u32(poly, reflect, bit_steps_u32(poly, reflect, v, (n - 1) as nat))
    }
}

/// One byte's worth (eight) of bit steps, written out so that bit-vector
/// reasoning can unfold it.
pub open spec fn byte_shift_u32(poly: u32, reflect: bool, v: u32) -> u32 {
    bit_step_u32(poly, reflect,
        bit_step_u32(poly, reflect,
            bit_step_u32(poly, reflect,
                bit_step_u32(poly, reflect,
                    bit_step_u32(poly, reflect,
                        bit_step_u32(poly, reflect,
                            bit_step_u32(poly, reflect,
                                bit_step_u32(poly, reflect, v))))))))
}

/// Feeding one input byte: XOR it into the register at the shift-out end and
/// shift it through.
pub open spec fn feed_byte_u32(poly: u32, reflect: bool, crc: u32, b: u8) -> u32 {
    if reflect {
        byte_shift_u32(poly, true, crc ^ (b as u32))
    } else {
        byte_shift_u32(poly, false, crc ^ ((b as u32) << 24u32))
    }
}

/// The bit-by-bit CRC of a whole byte sequence, starting from register value
/// `crc`.  This is the reference meaning of every 32-bit update path.
pub open spec fn crc_bytes_u32(poly: u32, reflect: bool, crc: u32, data: Seq<u8>) -> u32
    decreases data.len(),
{
    if data.len() == 0 {
        crc
    } else {
        crc_bytes_u32(poly, reflect, feed_byte_u32(poly, reflect, crc, data[0]), data.skip(1))
    }
}

/// Entry `idx` of lookup-table lane `lane`: the register after feeding byte
/// `idx` into an all-zero register followed by `lane` zero bytes.
pub open spec fn lane_entry_u32(poly: u32, reflect: bool, lane: nat, idx: u8) -> u32
    decreases lane,
{
    if lane == 0 {
        if reflect {
            byte_shift_u32(poly, true, idx as u32)
        } else {
            byte_shift_u32(poly, false, (idx as u32) << 24u32)
        }
    } else {
        byte_shift_u32(poly, reflect, lane_entry_u32(poly, reflect, (lane - 1) as nat, idx))
    }
}

/// `n` zero bytes shifted through the register.
pub open spec fn zero_shifts_u32(poly: u32, reflect: bool, n: nat, v: u32) -> u32
    decreases n,
{
    if n == 0 {
        v
    } else {
        byte_shift_u32(poly, reflect, zero_shifts_u32(poly, reflect, (n - 1) as nat, v))
    }
}

/// XOR of one table entry per input byte, each at the lane matching its
/// distance from the end of the data.
pub open spec fn lane_sum_u32(poly: u32, reflect: bool, data: Seq<u8>) -> u32
    decreases data.len(),
{
    if data.len() == 0 {
        0
    } else {
        lane_entry_u32(poly, reflect, (data.len() - 1) as nat, data[0])
            ^ lane_sum_u32(poly, reflect, data.skip(1))
    }
}

// ===========================================================================
// Lemmas, 32-bit
// ===========================================================================

/// One bit step is XOR-linear in the register, in either mode.
pub proof fn lemma_bit_step_linear_u32(poly: u32, x: u32, y: u32)
    by (bit_vector)
    ensures
        bit_step_u32(poly, true, x ^ y) == bit_step_u32(poly, true, x) ^ bit_step_u32(
            poly,
            true,
            y,
        ),
        bit_step_u32(poly, false, x ^ y) == bit_step_u32(poly, false, x) ^ bit_step_u32(
            poly,
            false,
            y,
        ),
{
}

/// Eight bit steps are XOR-linear in the register: one application of
/// single-step linearity per step.
pub proof fn lemma_shift_linear_u32(poly: u32, reflect: bool, x: u32, y: u32)
    ensures
        byte_shift_u32(poly, reflect, x ^ y) == byte_shift_u32(poly, reflect, x) ^ byte_shift_u32(
            poly,
            reflect,
            y,
        ),
{
    let s0x = bit_step_u32(poly, reflect, x);
    let s0y = bit_step_u32(poly, reflect, y);
    let s1x = bit_step_u32(poly, reflect, s0x);
    let s1y = bit_step_u32(poly, reflect, s0y);
    let s2x = bit_step_u32(poly, reflect, s1x);
    let s2y = bit_step_u32(poly, reflect, s1y);
    let s3x = bit_step_u32(poly, reflect, s2x);
    let s3y = bit_step_u32(poly, reflect, s2y);
    let s4x = bit_step_u32(poly, reflect, s3x);
    let s4y = bit_step_u32(poly, reflect, s3y);
    let s5x = bit_step_u32(poly, reflect, s4x);
    let s5y = bit_step_u32(poly, reflect, s4y);
    let s6x = bit_step_u32(poly, reflect, s5x);
    let s6y = bit_step_u32(poly, reflect, s5y);
    lemma_bit_step_linear_u32(poly, x, y);
    lemma_bit_step_linear_u32(poly, s0x, s0y);
    lemma_bit_step_linear_u32(poly, s1x, s1y);
    lemma_bit_step_linear_u32(poly, s2x, s2y);
    lemma_bit_step_linear_u32(poly, s3x, s3y);
    lemma_bit_step_linear_u32(poly, s4x, s4y);
    lemma_bit_step_linear_u32(poly, s5x, s5y);
    lemma_bit_step_linear_u32(poly, s6x, s6y);
}

/// A register whose shift-out byte is zero only moves over during a byte's
/// worth of bit steps: no feedback fires.
pub proof fn lemma_byte_moves_u32(poly: u32, x: u32)
    by (bit_vector)
    ensures
        x & 0xFF == 0 ==> bit_step_u32(poly, true, x) == x >> 1u32,
        x & 0xFF == 0 ==> bit_step_u32(poly, true, x >> 1u32) == x >> 2u32,
        x & 0xFF == 0 ==> bit_step_u32(poly, true, x >> 2u32) == x >> 3u32,
        x & 0xFF == 0 ==> bit_step_u32(poly, true, x >> 3u32) == x >> 4u32,
        x & 0xFF == 0 ==> bit_step_u32(poly, true, x >> 4u32) == x >> 5u32,
        x & 0xFF == 0 ==> bit_step_u32(poly, true, x >> 5u32) == x >> 6u32,
        x & 0xFF == 0 ==> bit_step_u32(poly, true, x >> 6u32) == x >> 7u32,
        x & 0xFF == 0 ==> bit_step_u32(poly, true, x >> 7u32) == x >> 8u32,
        x >> 24u32 == 0 ==> bit_step_u32(poly, false, x) == x << 1u32,
        x >> 24u32 == 0 ==> bit_step_u32(poly, false, x << 1u32) == x << 2u32,
        x >> 24u32 == 0 ==> bit_step_u32(poly, false, x << 2u32) == x << 3u32,
        x >> 24u32 == 0 ==> bit_step_u32(poly, false, x << 3u32) == x << 4u32,
        x >> 24u32 == 0 ==> bit_step_u32(poly, false, x << 4u32) == x << 5u32,
        x >> 24u32 == 0 ==> bit_step_u32(poly, false, x << 5u32) == x << 6u32,
        x >> 24u32 == 0 ==> bit_step_u32(poly, false, x << 6u32) == x << 7u32,
        x >> 24u32 == 0 ==> bit_step_u32(poly, false, x << 7u32) == x << 8u32,
{
}

/// Splitting a register value into its shift-out byte and the remainder.
pub proof fn lemma_split_parts_u32(x: u32)
    by (bit_vector)
    ensures
        x == (x & 0xFF) ^ ((x >> 8u32) << 8u32),
        ((x >> 8u32) << 8u32) & 0xFF == 0,
        ((x >> 8u32) << 8u32) >> 8u32 == x >> 8u32,
        x == ((((x >> 24u32) & 0xFF) << 24u32) ^ (x & 0xffffffu32)),
        (x & 0xffffffu32) >> 24u32 == 0,
        (x & 0xffffffu32) << 8u32 == x << 8u32,
        (0 as u32) >> 8u32 == 0,
        (0 as u32) << 8u32 == 0,
        (0 as u32) >> 24u32 == 0,
        (0 as u32) & 0xFF == 0,
{
}

/// Eight bit steps split the register into the byte at the shift-out end,
/// which determines the feedback, plus the remainder, which only moves over;
/// and a zero register stays zero.
pub proof fn lemma_shift_split_u32(poly: u32, x: u32)
    ensures
        byte_shift_u32(poly, true, x) == byte_shift_u32(poly, true, x & 0xFF) ^ (x >> 8u32),
        byte_shift_u32(poly, false, x) == byte_shift_u32(
            poly,
            false,
            ((x >> 24u32) & 0xFF) << 24u32,
        ) ^ (x << 8u32),
        byte_shift_u32(poly, true, 0) == 0,
        byte_shift_u32(poly, false, 0) == 0,
{
    lemma_split_parts_u32(x);
    // reflected: the high part only moves over
    let hi = (x >> 8u32) << 8u32;
    lemma_shift_linear_u32(poly, true, x & 0xFF, hi);
    lemma_byte_moves_u32(poly, hi);
    assert(byte_shift_u32(poly, true, hi) == hi >> 8u32);
    // forward: the low part only moves over
    let hif = ((x >> 24u32) & 0xFF) << 24u32;
    let lof = x & 0xffffffu32;
    lemma_shift_linear_u32(poly, false, hif, lof);
    lemma_byte_moves_u32(poly, lof);
    assert(byte_shift_u32(poly, false, lof) == lof << 8u32);
    // a zero register stays zero
    lemma_byte_moves_u32(poly, 0);
    assert(byte_shift_u32(poly, true, 0) == (0 as u32) >> 8u32);
    assert(byte_shift_u32(poly, false, 0) == (0 as u32) << 8u32);
}

/// Cast round trips for the register bytes used by the engine.
pub proof fn lemma_reg_casts_u32(x: u32)
    by (bit_vector)
    ensures
        x & 0xFF < 256,
        ((x & 0xFF) as u8) as u32 == x & 0xFF,
        ((x as u8) as u32) == x & 0xFF,
        (((x >> 24u32) & 0xFF) as u8) as u32 == (x >> 24u32) & 0xFF,
        (((x >> 24u32) as u8) as u32) << 24u32 == ((x >> 24u32) & 0xFF) << 24u32,
        x >> 24u32 == (x >> 24u32) & 0xFF,
        (x >> 8u32) >> 8u32 == x >> 16u32,
        (x << 8u32) << 8u32 == x << 16u32,
        ((x << 8u32) >> 24u32) as u8 == (x >> 16u32) as u8,
        (x >> 16u32) >> 8u32 == x >> 24u32,
        (x << 16u32) << 8u32 == x << 24u32,
        ((x << 16u32) >> 24u32) as u8 == (x >> 8u32) as u8,
        (x >> 24u32) >> 8u32 == 0,
        (x << 24u32) << 8u32 == 0,
        ((x << 24u32) >> 24u32) as u8 == x as u8,
{
}

/// XOR of bytes embeds into the register whether the byte sits at the low or
/// the high end.
pub proof fn lemma_u8_xor_embed_u32(a: u8, b: u8)
    by (bit_vector)
    ensures
        ((a ^ b) as u32) == (a as u32) ^ (b as u32),
        (((a ^ b) as u32) << 24u32) == ((a as u32) << 24u32) ^ ((b as u32) << 24u32),
{
}

/// XOR on 32-bit values is associative and commutative with identity 0.
pub proof fn lemma_xor_assoc_u32(a: u32, b: u32, c: u32)
    by (bit_vector)
    ensures
        (a ^ b) ^ c == a ^ (b ^ c),
        a ^ b == b ^ a,
        a ^ 0 == a,
        0 ^ a == a,
        a ^ a == 0,
{
}

/// Eight bit steps written out equal eight recursive bit steps.
pub proof fn lemma_byte_shift_is_bit_steps_u32(poly: u32, reflect: bool, v: u32)
    ensures
        byte_shift_u32(poly, reflect, v) == bit_steps_u32(poly, reflect, v, 8),
{
    reveal_with_fuel(bit_steps_u32, 9);
}

/// Zero-byte shifts compose additively.
pub proof fn lemma_zero_shifts_add_u32(poly: u32, reflect: bool, m: nat, n: nat, v: u32)
    ensures
        zero_shifts_u32(poly, reflect, m + n, v) == zero_shifts_u32(
            poly,
            reflect,
            m,
            zero_shifts_u32(poly, reflect, n, v),
        ),
    decreases m,
{
    if m > 0 {
        lemma_zero_shifts_add_u32(poly, reflect, (m - 1) as nat, n, v);
        assert(m + n == ((m - 1) as nat + n) + 1);
    }
}

/// Zero-byte shifts are XOR-linear.
pub proof fn lemma_zero_shifts_linear_u32(poly: u32, reflect: bool, n: nat, x: u32, y: u32)
    ensures
        zero_shifts_u32(poly, reflect, n, x ^ y) == zero_shifts_u32(poly, reflect, n, x)
            ^ zero_shifts_u32(poly, reflect, n, y),
    decreases n,
{
    if n > 0 {
        lemma_zero_shifts_linear_u32(poly, reflect, (n - 1) as nat, x, y);
        lemma_shift_linear_u32(
            poly,
            reflect,
            zero_shifts_u32(poly, reflect, (n - 1) as nat, x),
            zero_shifts_u32(poly, reflect, (n - 1) as nat, y),
        );
    }
}

/// A table entry at lane `n + lane` is the lane-`lane` entry pushed through
/// `n` more zero bytes.
pub proof fn lemma_zero_shifts_entry_u32(poly: u32, reflect: bool, n: nat, lane: nat, idx: u8)
    ensures
        zero_shifts_u32(poly, reflect, n, lane_entry_u32(poly, reflect, lane, idx))
            == lane_entry_u32(poly, reflect, n + lane, idx),
    decreases n,
{
    if n > 0 {
        lemma_zero_shifts_entry_u32(poly, reflect, (n - 1) as nat, lane, idx);
    }
}

/// A zero register stays zero through any number of zero bytes.
pub proof fn lemma_zero_shifts_zero_u32(poly: u32, reflect: bool, n: nat)
    ensures
        zero_shifts_u32(poly, reflect, n, 0) == 0,
    decreases n,
{
    if n > 0 {
        lemma_zero_shifts_zero_u32(poly, reflect, (n - 1) as nat);
        lemma_shift_split_u32(poly, 0);
    }
}

/// Peeling one register byte off a run of zero-byte shifts: the byte at the
/// shift-out end becomes a table entry, the rest of the register moves over.
pub proof fn lemma_zs_peel_u32(poly: u32, reflect: bool, n: nat, crc: u32)
    requires
        n >= 1,
    ensures
        reflect ==> zero_shifts_u32(poly, true, n, crc) == lane_entry_u32(
            poly,
            true,
            (n - 1) as nat,
            crc as u8,
        ) ^ zero_shifts_u32(poly, true, (n - 1) as nat, crc >> 8u32),
        !reflect ==> zero_shifts_u32(poly, false, n, crc) == lane_entry_u32(
            poly,
            false,
            (n - 1) as nat,
            (crc >> 24u32) as u8,
        ) ^ zero_shifts_u32(poly, false, (n - 1) as nat, crc << 8u32),
{
    lemma_zero_shifts_add_u32(poly, reflect, (n - 1) as nat, 1, crc);
    assert(zero_shifts_u32(poly, reflect, 0, crc) == crc);
    assert(zero_shifts_u32(poly, reflect, 1, crc) == byte_shift_u32(poly, reflect, crc));
    lemma_reg_casts_u32(crc);
    lemma_shift_split_u32(poly, crc);
    if reflect {
        let e0 = lane_entry_u32(poly, true, 0, crc as u8);
        assert(byte_shift_u32(poly, true, crc) == e0 ^ (crc >> 8u32));
        lemma_zero_shifts_linear_u32(poly, true, (n - 1) as nat, e0, crc >> 8u32);
        lemma_zero_shifts_entry_u32(poly, true, (n - 1) as nat, 0, crc as u8);
    } else {
        let e0 = lane_entry_u32(poly, false, 0, (crc >> 24u32) as u8);
        assert(byte_shift_u32(poly, false, crc) == e0 ^ (crc << 8u32));
        lemma_zero_shifts_linear_u32(poly, false, (n - 1) as nat, e0, crc << 8u32);
        lemma_zero_shifts_entry_u32(poly, false, (n - 1) as nat, 0, (crc >> 24u32) as u8);
    }
}

/// Table entries are XOR-linear in the index byte.
pub proof fn lemma_entry_idx_linear_u32(poly: u32, reflect: bool, lane: nat, a: u8, b: u8)
    ensures
        lane_entry_u32(poly, reflect, lane, a ^ b) == lane_entry_u32(poly, reflect, lane, a)
            ^ lane_entry_u32(poly, reflect, lane, b),
    decreases lane,
{
    if lane == 0 {
        lemma_u8_xor_embed_u32(a, b);
        if reflect {
            lemma_shift_linear_u32(poly, true, a as u32, b as u32);
        } else {
            lemma_shift_linear_u32(poly, false, (a as u32) << 24u32, (b as u32) << 24u32);
        }
    } else {
        lemma_entry_idx_linear_u32(poly, reflect, (lane - 1) as nat, a, b);
        lemma_shift_linear_u32(
            poly,
            reflect,
            lane_entry_u32(poly, reflect, (lane - 1) as nat, a),
            lane_entry_u32(poly, reflect, (lane - 1) as nat, b),
        );
    }
}

/// The CRC of a byte sequence splits into the old register contents pushed
/// through the whole sequence length, XOR one table entry per input byte.
pub proof fn lemma_crc_bytes_sum_u32(poly: u32, reflect: bool, crc: u32, data: Seq<u8>)
    ensures
        crc_bytes_u32(poly, reflect, crc, data) == zero_shifts_u32(
            poly,
            reflect,
            data.len(),
            crc,
        ) ^ lane_sum_u32(poly, reflect, data),
    decreases data.len(),
{
    if data.len() == 0 {
        lemma_xor_assoc_u32(crc, 0, 0);
    } else {
        let b = data[0];
        let rest = data.skip(1);
        let fed = feed_byte_u32(poly, reflect, crc, b);
        lemma_crc_bytes_sum_u32(poly, reflect, fed, rest);
        // feed_byte is byte_shift of crc XOR the lane-0 entry of b
        let e0 = lane_entry_u32(poly, reflect, 0, b);
        if reflect {
            lemma_shift_linear_u32(poly, true, crc, b as u32);
        } else {
            lemma_shift_linear_u32(poly, false, crc, (b as u32) << 24u32);
        }
        assert(fed == byte_shift_u32(poly, reflect, crc) ^ e0);
        lemma_zero_shifts_linear_u32(
            poly,
            reflect,
            rest.len(),
            byte_shift_u32(poly, reflect, crc),
            e0,
        );
        lemma_zero_shifts_entry_u32(poly, reflect, rest.len(), 0, b);
        // pushing byte_shift(crc) through |rest| zero bytes equals pushing crc
        // through |data| of them
        lemma_zero_shifts_add_u32(poly, reflect, rest.len(), 1, crc);
        assert(zero_shifts_u32(poly, reflect, 0, crc) == crc);
        assert(zero_shifts_u32(poly, reflect, 1, crc) == byte_shift_u32(poly, reflect, crc));
        lemma_xor_assoc_u32(
            zero_shifts_u32(poly, reflect, data.len(), crc),
            lane_entry_u32(poly, reflect, rest.len(), b),
            lane_sum_u32(poly, reflect, rest),
        );
    }
}

/// Cast and shift facts for the engine's one-byte tail step.
pub proof fn lemma_feed_tail_casts_u32(crc: u32, b: u8)
    by (bit_vector)
    ensures
        (crc ^ (b as u32)) >> 8u32 == crc >> 8u32,
        (((crc ^ ((b as u32) << 24u32)) >> 24u32) & 0xFF) << 24u32 == (((crc >> 24u32)
            ^ (b as u32)) & 0xFF) << 24u32,
        (crc ^ ((b as u32) << 24u32)) << 8u32 == crc << 8u32,
        (crc ^ (b as u32)) & 0xFF < 256,
        (((crc ^ (b as u32)) & 0xFF) as u8) as u32 == (crc ^ (b as u32)) & 0xFF,
        ((crc >> 24u32) ^ (b as u32)) & 0xFF < 256,
        ((((crc >> 24u32) ^ (b as u32)) & 0xFF) as u8) as u32 == ((crc >> 24u32) ^ (b as u32))
            & 0xFF,
{
}

/// What the engine's tail loop computes for one byte: a lane-0 lookup on the
/// mixed byte, XOR the register moved over by one byte.
pub proof fn lemma_feed_byte_tail_u32(poly: u32, crc: u32, b: u8)
    ensures
        feed_byte_u32(poly, true, crc, b) == byte_shift_u32(
            poly,
            true,
            (crc ^ (b as u32)) & 0xFF,
        ) ^ (crc >> 8u32),
        feed_byte_u32(poly, false, crc, b) == byte_shift_u32(
            poly,
            false,
            (((crc >> 24u32) ^ (b as u32)) & 0xFF) << 24u32,
        ) ^ (crc << 8u32),
        (crc ^ (b as u32)) & 0xFF < 256,
        (((crc ^ (b as u32)) & 0xFF) as u8) as u32 == (crc ^ (b as u32)) & 0xFF,
        ((crc >> 24u32) ^ (b as u32)) & 0xFF < 256,
        ((((crc >> 24u32) ^ (b as u32)) & 0xFF) as u8) as u32 == ((crc >> 24u32) ^ (b as u32))
            & 0xFF,
{
    lemma_feed_tail_casts_u32(crc, b);
    lemma_shift_split_u32(poly, crc ^ (b as u32));
    lemma_shift_split_u32(poly, crc ^ ((b as u32) << 24u32));
}

/// Appending byte sequences composes the CRC computation.
pub proof fn lemma_crc_bytes_append_u32(poly: u32, reflect: bool, crc: u32, a: Seq<u8>, b: Seq<u8>)
    ensures
        crc_bytes_u32(poly, reflect, crc, a + b) == crc_bytes_u32(
            poly,
            reflect,
            crc_bytes_u32(poly, reflect, crc, a),
            b,
        ),
    decreases a.len(),
{
    if a.len() == 0 {
        assert(a + b =~= b);
    } else {
        let fed = feed_byte_u32(poly, reflect, crc, a[0]);
        assert((a + b).skip(1) =~= a.skip(1) + b);
        lemma_crc_bytes_append_u32(poly, reflect, fed, a.skip(1), b);
    }
}

/// Pushing the register through 16 zero bytes equals XORing the table entries
/// of its 4 bytes, each at the lane matching its distance from the end.
pub proof fn lemma_reg_decomp_u32(poly: u32, reflect: bool, crc: u32)
    ensures
        reflect ==> zero_shifts_u32(poly, true, 16, crc) == lane_entry_u32(poly, true, 15, crc as u8) ^ (lane_entry_u32(poly, true, 14, (crc >> 8u32) as u8) ^ (lane_entry_u32(poly, true, 13, (crc >> 16u32) as u8) ^ (lane_entry_u32(poly, true, 12, (crc >> 24u32) as u8)))),
        !reflect ==> zero_shifts_u32(poly, false, 16, crc) == lane_entry_u32(poly, false, 15, (crc >> 24u32) as u8) ^ (lane_entry_u32(poly, false, 14, (crc >> 16u32) as u8) ^ (lane_entry_u32(poly, false, 13, (crc >> 8u32) as u8) ^ (lane_entry_u32(poly, false, 12, crc as u8)))),
{
    lemma_reg_casts_u32(crc);
    if reflect {
        lemma_zs_peel_u32(poly, true, 16, crc);

        lemma_zs_peel_u32(poly, true, 15, crc >> 8u32);
        lemma_reg_casts_u32(crc >> 8u32);
        lemma_zs_peel_u32(poly, true, 14, crc >> 16u32);
        lemma_reg_casts_u32(crc >> 16u32);
        lemma_zs_peel_u32(poly, true, 13, crc >> 24u32);
        lemma_zero_shifts_zero_u32(poly, true, 12);
        lemma_xor_assoc_u32(0, 0, 0);
        assert(lane_entry_u32(poly, true, 12, (crc >> 24u32) as u8) ^ 0 == lane_entry_u32(poly, true, 12, (crc >> 24u32) as u8)) by {
            lemma_xor_assoc_u32(lane_entry_u32(poly, true, 12, (crc >> 24u32) as u8), 0, 0);
        }
    } else {
        lemma_zs_peel_u32(poly, false, 16, crc);

        lemma_zs_peel_u32(poly, false, 15, crc << 8u32);
        lemma_reg_casts_u32(crc << 8u32);
        lemma_zs_peel_u32(poly, false, 14, crc << 16u32);
        lemma_reg_casts_u32(crc << 16u32);
        lemma_zs_peel_u32(poly, false, 13, crc << 24u32);
        lemma_zero_shifts_zero_u32(poly, false, 12);
        assert(lane_entry_u32(poly, false, 12, crc as u8) ^ 0 == lane_entry_u32(poly, false, 12, crc as u8)) by {
            lemma_xor_assoc_u32(lane_entry_u32(poly, false, 12, crc as u8), 0, 0);
        }
    }
}

/// What the engine's 16-byte path computes for one block: sixteen table
/// lookups XORed together, with the 4 register bytes mixed into the first
/// 4 input bytes.
pub open spec fn block_lookup_sum_u32(poly: u32, reflect: bool, crc: u32, block: Seq<u8>) -> u32 {
    let c0: u8 = if reflect {
        crc as u8
    } else {
        (crc >> 24u32) as u8
    };
    let c1: u8 = if reflect {
        (crc >> 8u32) as u8
    } else {
        (crc >> 16u32) as u8
    };
    let c2: u8 = if reflect {
        (crc >> 16u32) as u8
    } else {
        (crc >> 8u32) as u8
    };
    let c3: u8 = if reflect {
        (crc >> 24u32) as u8
    } else {
        crc as u8
    };
    lane_entry_u32(poly, reflect, 0, block[15]) ^ lane_entry_u32(poly, reflect, 1, block[14]) ^ lane_entry_u32(poly, reflect, 2, block[13]) ^ lane_entry_u32(poly, reflect, 3, block[12]) ^ lane_entry_u32(poly, reflect, 4, block[11]) ^ lane_entry_u32(poly, reflect, 5, block[10]) ^ lane_entry_u32(poly, reflect, 6, block[9]) ^ lane_entry_u32(poly, reflect, 7, block[8]) ^ lane_entry_u32(poly, reflect, 8, block[7]) ^ lane_entry_u32(poly, reflect, 9, block[6]) ^ lane_entry_u32(poly, reflect, 10, block[5]) ^ lane_entry_u32(poly, reflect, 11, block[4]) ^ lane_entry_u32(poly, reflect, 12, block[3] ^ c3) ^ lane_entry_u32(poly, reflect, 13, block[2] ^ c2) ^ lane_entry_u32(poly, reflect, 14, block[1] ^ c1) ^ lane_entry_u32(poly, reflect, 15, block[0] ^ c0)
}

/// The engine's 16-lookup block step equals feeding the 16 bytes through the
/// register one bit at a time.
pub proof fn lemma_block_u32(poly: u32, reflect: bool, crc: u32, block: Seq<u8>)
    requires
        block.len() == 16,
    ensures
        crc_bytes_u32(poly, reflect, crc, block) == block_lookup_sum_u32(
            poly,
            reflect,
            crc,
            block,
        ),
{
    lemma_crc_bytes_sum_u32(poly, reflect, crc, block);
    lemma_reg_decomp_u32(poly, reflect, crc);
    let c0: u8 = if reflect {
        crc as u8
    } else {
        (crc >> 24u32) as u8
    };
    let c1: u8 = if reflect {
        (crc >> 8u32) as u8
    } else {
        (crc >> 16u32) as u8
    };
    let c2: u8 = if reflect {
        (crc >> 16u32) as u8
    } else {
        (crc >> 8u32) as u8
    };
    let c3: u8 = if reflect {
        (crc >> 24u32) as u8
    } else {
        crc as u8
    };
    let z0 = lane_entry_u32(poly, reflect, 15, c0);
    let z1 = lane_entry_u32(poly, reflect, 14, c1);
    let z2 = lane_entry_u32(poly, reflect, 13, c2);
    let z3 = lane_entry_u32(poly, reflect, 12, c3);
    assert(zero_shifts_u32(poly, reflect, 16, crc) == z0 ^ (z1 ^ (z2 ^ (z3))));
    let t0 = lane_entry_u32(poly, reflect, 0, block[15]);
    let t1 = lane_entry_u32(poly, reflect, 1, block[14]);
    let t2 = lane_entry_u32(poly, reflect, 2, block[13]);
    let t3 = lane_entry_u32(poly, reflect, 3, block[12]);
    let t4 = lane_entry_u32(poly, reflect, 4, block[11]);
    let t5 = lane_entry_u32(poly, reflect, 5, block[10]);
    let t6 = lane_entry_u32(poly, reflect, 6, block[9]);
    let t7 = lane_entry_u32(poly, reflect, 7, block[8]);
    let t8 = lane_entry_u32(poly, reflect, 8, block[7]);
    let t9 = lane_entry_u32(poly, reflect, 9, block[6]);
    let t10 = lane_entry_u32(poly, reflect, 10, block[5]);
    let t11 = lane_entry_u32(poly, reflect, 11, block[4]);
    let t12 = lane_entry_u32(poly, reflect, 12, block[3]);
    let t13 = lane_entry_u32(poly, reflect, 13, block[2]);
    let t14 = lane_entry_u32(poly, reflect, 14, block[1]);
    let t15 = lane_entry_u32(poly, reflect, 15, block[0]);
    let s1 = block.skip(1);
    let s2 = s1.skip(1);
    let s3 = s2.skip(1);
    let s4 = s3.skip(1);
    let s5 = s4.skip(1);
    let s6 = s5.skip(1);
    let s7 = s6.skip(1);
    let s8 = s7.skip(1);
    let s9 = s8.skip(1);
    let s10 = s9.skip(1);
    let s11 = s10.skip(1);
    let s12 = s11.skip(1);
    let s13 = s12.skip(1);
    let s14 = s13.skip(1);
    let s15 = s14.skip(1);
    let s16 = s15.skip(1);
    assert(s1[0] == block[1] && s2[0] == block[2] && s3[0] == block[3] && s4[0] == block[4] && s5[0] == block[5] && s6[0] == block[6] && s7[0] == block[7] && s8[0] == block[8] && s9[0] == block[9] && s10[0] == block[10] && s11[0] == block[11] && s12[0] == block[12] && s13[0] == block[13] && s14[0] == block[14] && s15[0] == block[15]);
    assert(s16.len() == 0);
    assert(lane_sum_u32(poly, reflect, s16) == 0);
    assert(lane_sum_u32(poly, reflect, s15) == t0 ^ (0));
    assert(lane_sum_u32(poly, reflect, s14) == t1 ^ (t0 ^ (0)));
    assert(lane_sum_u32(poly, reflect, s13) == t2 ^ (t1 ^ (t0 ^ (0))));
    assert(lane_sum_u32(poly, reflect, s12) == t3 ^ (t2 ^ (t1 ^ (t0 ^ (0)))));
    assert(lane_sum_u32(poly, reflect, s11) == t4 ^ (t3 ^ (t2 ^ (t1 ^ (t0 ^ (0))))));
    assert(lane_sum_u32(poly, reflect, s10) == t5 ^ (t4 ^ (t3 ^ (t2 ^ (t1 ^ (t0 ^ (0)))))));
    assert(lane_sum_u32(poly, reflect, s9) == t6 ^ (t5 ^ (t4 ^ (t3 ^ (t2 ^ (t1 ^ (t0 ^ (0))))))));
    assert(lane_sum_u32(poly, reflect, s8) == t7 ^ (t6 ^ (t5 ^ (t4 ^ (t3 ^ (t2 ^ (t1 ^ (t0 ^ (0)))))))));
    assert(lane_sum_u32(poly, reflect, s7) == t8 ^ (t7 ^ (t6 ^ (t5 ^ (t4 ^ (t3 ^ (t2 ^ (t1 ^ (t0 ^ (0))))))))));
    assert(lane_sum_u32(poly, reflect, s6) == t9 ^ (t8 ^ (t7 ^ (t6 ^ (t5 ^ (t4 ^ (t3 ^ (t2 ^ (t1 ^ (t0 ^ (0)))))))))));
    assert(lane_sum_u32(poly, reflect, s5) == t10 ^ (t9 ^ (t8 ^ (t7 ^ (t6 ^ (t5 ^ (t4 ^ (t3 ^ (t2 ^ (t1 ^ (t0 ^ (0))))))))))));
    assert(lane_sum_u32(poly, reflect, s4) == t11 ^ (t10 ^ (t9 ^ (t8 ^ (t7 ^ (t6 ^ (t5 ^ (t4 ^ (t3 ^ (t2 ^ (t1 ^ (t0 ^ (0)))))))))))));
    assert(lane_sum_u32(poly, reflect, s3) == t12 ^ (t11 ^ (t10 ^ (t9 ^ (t8 ^ (t7 ^ (t6 ^ (t5 ^ (t4 ^ (t3 ^ (t2 ^ (t1 ^ (t0 ^ (0))))))))))))));
    assert(lane_sum_u32(poly, reflect, s2) == t13 ^ (t12 ^ (t11 ^ (t10 ^ (t9 ^ (t8 ^ (t7 ^ (t6 ^ (t5 ^ (t4 ^ (t3 ^ (t2 ^ (t1 ^ (t0 ^ (0)))))))))))))));
    assert(lane_sum_u32(poly, reflect, s1) == t14 ^ (t13 ^ (t12 ^ (t11 ^ (t10 ^ (t9 ^ (t8 ^ (t7 ^ (t6 ^ (t5 ^ (t4 ^ (t3 ^ (t2 ^ (t1 ^ (t0 ^ (0))))))))))))))));
    assert(lane_sum_u32(poly, reflect, block) == t15 ^ (t14 ^ (t13 ^ (t12 ^ (t11 ^ (t10 ^ (t9 ^ (t8 ^ (t7 ^ (t6 ^ (t5 ^ (t4 ^ (t3 ^ (t2 ^ (t1 ^ (t0 ^ (0)))))))))))))))));
    lemma_entry_idx_linear_u32(poly, reflect, 15, block[0], c0);
    lemma_entry_idx_linear_u32(poly, reflect, 14, block[1], c1);
    lemma_entry_idx_linear_u32(poly, reflect, 13, block[2], c2);
    lemma_entry_idx_linear_u32(poly, reflect, 12, block[3], c3);
    assert((z0 ^ (z1 ^ (z2 ^ (z3)))) ^ (t15 ^ (t14 ^ (t13 ^ (t12 ^ (t11 ^ (t10 ^ (t9 ^ (t8 ^ (t7 ^ (t6 ^ (t5 ^ (t4 ^ (t3 ^ (t2 ^ (t1 ^ (t0 ^ (0))))))))))))))))) == t0 ^ t1 ^ t2 ^ t3 ^ t4 ^ t5 ^ t6 ^ t7 ^ t8 ^ t9 ^ t10 ^ t11 ^ (t12 ^ z3) ^ (t13 ^ z2) ^ (t14 ^ z1) ^ (t15 ^ z0)) by (bit_vector);
}

// ===========================================================================
// 64-bit register
// ===========================================================================

/// One shift of the 64-bit register: out goes one bit, and the generator
/// polynomial is XORed in when that bit was set.
pub open spec fn bit_step_u64(poly: u64, reflect: bool, v: u64) -> u64 {
    if reflect {
        if v & 1 == 1 {
            (v >> 1) ^ poly
        } else {
            v >> 1
        }
    } else {
        if (v >> 63) & 1 == 1 {
            (v << 1) ^ poly
        } else {
            v << 1
        }
    }
}

/// `n` bit steps applied to `v`.
pub open spec fn bit_steps_u64(poly: u64, reflect: bool, v: u64, n: nat) -> u64
    decreases n,
{
    if n == 0 {
        v
    } else {
        bit_step_u64(poly, reflect, bit_steps_u64(poly, reflect, v, (n - 1) as nat))
    }
}

/// One byte's worth (eight) of bit steps, written out so that bit-vector
/// reasoning can unfold it.
pub open spec fn byte_shift_u64(poly: u64, reflect: bool, v: u64) -> u64 {
    bit_step_u64(poly, reflect,
        bit_step_u64(poly, reflect,
            bit_step_u64(poly, reflect,
                bit_step_u64(poly, reflect,
                    bit_step_u64(poly, reflect,
                        bit_step_u64(poly, reflect,
                            bit_step_u64(poly, reflect,
                                bit_step_u64(poly, reflect, v))))))))
}

/// Feeding one input byte: XOR it into the register at the shift-out end and
/// shift it through.
pub open spec fn feed_byte_u64(poly: u64, reflect: bool, crc: u64, b: u8) -> u64 {
    if reflect {
        byte_shift_u64(poly, true, crc ^ (b as u64))
    } else {
        byte_shift_u64(poly, false, crc ^ ((b as u64) << 56u64))
    }
}

/// The bit-by-bit CRC of a whole byte sequence, starting from register value
/// `crc`.  This is the reference meaning of every 64-bit update path.
pub open spec fn crc_bytes_u64(poly: u64, reflect: bool, crc: u64, data: Seq<u8>) -> u64
    decreases data.len(),
{
    if data.len() == 0 {
        crc
    } else {
        crc_bytes_u64(poly, reflect, feed_byte_u64(poly, reflect, crc, data[0]), data.skip(1))
    }
}

/// Entry `idx` of lookup-table lane `lane`: the register after feeding byte
/// `idx` into an all-zero register followed by `lane` zero bytes.
pub open spec fn lane_entry_u64(poly: u64, reflect: bool, lane: nat, idx: u8) -> u64
    decreases lane,
{
    if lane == 0 {
        if reflect {
            byte_shift_u64(poly, true, idx as u64)
        } else {
            byte_shift_u64(poly, false, (idx as u64) << 56u64)
        }
    } else {
        byte_shift_u64(poly, reflect, lane_entry_u64(poly, reflect, (lane - 1) as nat, idx))
    }
}

/// `n` zero bytes shifted through the register.
pub open spec fn zero_shifts_u64(poly: u64, reflect: bool, n: nat, v: u64) -> u64
    decreases n,
{
    if n == 0 {
        v
    } else {
        byte_shift_u64(poly, reflect, zero_shifts_u64(poly, reflect, (n - 1) as nat, v))
    }
}

/// XOR of one table entry per input byte, each at the lane matching its
/// distance from the end of the data.
pub open spec fn lane_sum_u64(poly: u64, reflect: bool, data: Seq<u8>) -> u64
    decreases data.len(),
{
    if data.len() == 0 {
        0
    } else {
        lane_entry_u64(poly, reflect, (data.len() - 1) as nat, data[0])
            ^ lane_sum_u64(poly, reflect, data.skip(1))
    }
}

// ===========================================================================
// Lemmas, 64-bit
// ===========================================================================

/// One bit step is XOR-linear in the register, in either mode.
pub proof fn lemma_bit_step_linear_u64(poly: u64, x: u64, y: u64)
    by (bit_vector)
    ensures
        bit_step_u64(poly, true, x ^ y) == bit_step_u64(poly, true, x) ^ bit_step_u64(
            poly,
            true,
            y,
        ),
        bit_step_u64(poly, false, x ^ y) == bit_step_u64(poly, false, x) ^ bit_step_u64(
            poly,
            false,
            y,
        ),
{
}

/// Eight bit steps are XOR-linear in the register: one application of
/// single-step linearity per step.
pub proof fn lemma_shift_linear_u64(poly: u64, reflect: bool, x: u64, y: u64)
    ensures
        byte_shift_u64(poly, reflect, x ^ y) == byte_shift_u64(poly, reflect, x) ^ byte_shift_u64(
            poly,
            reflect,
            y,
        ),
{
    let s0x = bit_step_u64(poly, reflect, x);
    let s0y = bit_step_u64(poly, reflect, y);
    let s1x = bit_step_u64(poly, reflect, s0x);
    let s1y = bit_step_u64(poly, reflect, s0y);
    let s2x = bit_step_u64(poly, reflect, s1x);
    let s2y = bit_step_u64(poly, reflect, s1y);
    let s3x = bit_step_u64(poly, reflect, s2x);
    let s3y = bit_step_u64(poly, reflect, s2y);
    let s4x = bit_step_u64(poly, reflect, s3x);
    let s4y = bit_step_u64(poly, reflect, s3y);
    let s5x = bit_step_u64(poly, reflect, s4x);
    let s5y = bit_step_u64(poly, reflect, s4y);
    let s6x = bit_step_u64(poly, reflect, s5x);
    let s6y = bit_step_u64(poly, reflect, s5y);
    lemma_bit_step_linear_u64(poly, x, y);
    lemma_bit_step_linear_u64(poly, s0x, s0y);
    lemma_bit_step_linear_u64(poly, s1x, s1y);
    lemma_bit_step_linear_u64(poly, s2x, s2y);
    lemma_bit_step_linear_u64(poly, s3x, s3y);
    lemma_bit_step_linear_u64(poly, s4x, s4y);
    lemma_bit_step_linear_u64(poly, s5x, s5y);
    lemma_bit_step_linear_u64(poly, s6x, s6y);
}

/// A register whose shift-out byte is zero only moves over during a byte's
/// worth of bit steps: no feedback fires.
pub proof fn lemma_byte_moves_u64(poly: u64, x: u64)
    by (bit_vector)
    ensures
        x & 0xFF == 0 ==> bit_step_u64(poly, true, x) == x >> 1u64,
        x & 0xFF == 0 ==> bit_step_u64(poly, true, x >> 1u64) == x >> 2u64,
        x & 0xFF == 0 ==> bit_step_u64(poly, true, x >> 2u64) == x >> 3u64,
        x & 0xFF == 0 ==> bit_step_u64(poly, true, x >> 3u64) == x >> 4u64,
        x & 0xFF == 0 ==> bit_step_u64(poly, true, x >> 4u64) == x >> 5u64,
        x & 0xFF == 0 ==> bit_step_u64(poly, true, x >> 5u64) == x >> 6u64,
        x & 0xFF == 0 ==> bit_step_u64(poly, true, x >> 6u64) == x >> 7u64,
        x & 0xFF == 0 ==> bit_step_u64(poly, true, x >> 7u64) == x >> 8u64,
        x >> 56u64 == 0 ==> bit_step_u64(poly, false, x) == x << 1u64,
        x >> 56u64 == 0 ==> bit_step_u64(poly, false, x << 1u64) == x << 2u64,
        x >> 56u64 == 0 ==> bit_step_u64(poly, false, x << 2u64) == x << 3u64,
        x >> 56u64 == 0 ==> bit_step_u64(poly, false, x << 3u64) == x << 4u64,
        x >> 56u64 == 0 ==> bit_step_u64(poly, false, x << 4u64) == x << 5u64,
        x >> 56u64 == 0 ==> bit_step_u64(poly, false, x << 5u64) == x << 6u64,
        x >> 56u64 == 0 ==> bit_step_u64(poly, false, x << 6u64) == x << 7u64,
        x >> 56u64 == 0 ==> bit_step_u64(poly, false, x << 7u64) == x << 8u64,
{
}

/// Splitting a register value into its shift-out byte and the remainder.
pub proof fn lemma_split_parts_u64(x: u64)
    by (bit_vector)
    ensures
        x == (x & 0xFF) ^ ((x >> 8u64) << 8u64),
        ((x >> 8u64) << 8u64) & 0xFF == 0,
        ((x >> 8u64) << 8u64) >> 8u64 == x >> 8u64,
        x == ((((x >> 56u64) & 0xFF) << 56u64) ^ (x & 0xffffffffffffffu64)),
        (x & 0xffffffffffffffu64) >> 56u64 == 0,
        (x & 0xffffffffffffffu64) << 8u64 == x << 8u64,
        (0 as u64) >> 8u64 == 0,
        (0 as u64) << 8u64 == 0,
        (0 as u64) >> 56u64 == 0,
        (0 as u64) & 0xFF == 0,
{
}

/// Eight bit steps split the register into the byte at the shift-out end,
/// which determines the feedback, plus the remainder, which only moves over;
/// and a zero register stays zero.
pub proof fn lemma_shift_split_u64(poly: u64, x: u64)
    ensures
        byte_shift_u64(poly, true, x) == byte_shift_u64(poly, true, x & 0xFF) ^ (x >> 8u64),
        byte_shift_u64(poly, false, x) == byte_shift_u64(
            poly,
            false,
            ((x >> 56u64) & 0xFF) << 56u64,
        ) ^ (x << 8u64),
        byte_shift_u64(poly, true, 0) == 0,
        byte_shift_u64(poly, false, 0) == 0,
{
    lemma_split_parts_u64(x);
    // reflected: the high part only moves over
    let hi = (x >> 8u64) << 8u64;
    lemma_shift_linear_u64(poly, true, x & 0xFF, hi);
    lemma_byte_moves_u64(poly, hi);
    assert(byte_shift_u64(poly, true, hi) == hi >> 8u64);
    // forward: the low part only moves over
    let hif = ((x >> 56u64) & 0xFF) << 56u64;
    let lof = x & 0xffffffffffffffu64;
    lemma_shift_linear_u64(poly, false, hif, lof);
    lemma_byte_moves_u64(poly, lof);
    assert(byte_shift_u64(poly, false, lof) == lof << 8u64);
    // a zero register stays zero
    lemma_byte_moves_u64(poly, 0);
    assert(byte_shift_u64(poly, true, 0) == (0 as u64) >> 8u64);
    assert(byte_shift_u64(poly, false, 0) == (0 as u64) << 8u64);
}

/// Cast round trips for the register bytes used by the engine.
pub proof fn lemma_reg_casts_u64(x: u64)
    by (bit_vector)
    ensures
        x & 0xFF < 256,
        ((x & 0xFF) as u8) as u64 == x & 0xFF,
        ((x as u8) as u64) == x & 0xFF,
        (((x >> 56u64) & 0xFF) as u8) as u64 == (x >> 56u64) & 0xFF,
        (((x >> 56u64) as u8) as u64) << 56u64 == ((x >> 56u64) & 0xFF) << 56u64,
        x >> 56u64 == (x >> 56u64) & 0xFF,
        (x >> 8u64) >> 8u64 == x >> 16u64,
        (x << 8u64) << 8u64 == x << 16u64,
        ((x << 8u64) >> 56u64) as u8 == (x >> 48u64) as u8,
        (x >> 16u64) >> 8u64 == x >> 24u64,
        (x << 16u64) << 8u64 == x << 24u64,
        ((x << 16u64) >> 56u64) as u8 == (x >> 40u64) as u8,
        (x >> 24u64) >> 8u64 == x >> 32u64,
        (x << 24u64) << 8u64 == x << 32u64,
        ((x << 24u64) >> 56u64) as u8 == (x >> 32u64) as u8,
        (x >> 32u64) >> 8u64 == x >> 40u64,
        (x << 32u64) << 8u64 == x << 40u64,
        ((x << 32u64) >> 56u64) as u8 == (x >> 24u64) as u8,
        (x >> 40u64) >> 8u64 == x >> 48u64,
        (x << 40u64) << 8u64 == x << 48u64,
        ((x << 40u64) >> 56u64) as u8 == (x >> 16u64) as u8,
        (x >> 48u64) >> 8u64 == x >> 56u64,
        (x << 48u64) << 8u64 == x << 56u64,
        ((x << 48u64) >> 56u64) as u8 == (x >> 8u64) as u8,
        (x >> 56u64) >> 8u64 == 0,
        (x << 56u64) << 8u64 == 0,
        ((x << 56u64) >> 56u64) as u8 == x as u8,
{
}

/// XOR of bytes embeds into the register whether the byte sits at the low or
/// the high end.
pub proof fn lemma_u8_xor_embed_u64(a: u8, b: u8)
    by (bit_vector)
    ensures
        ((a ^ b) as u64) == (a as u64) ^ (b as u64),
        (((a ^ b) as u64) << 56u64) == ((a as u64) << 56u64) ^ ((b as u64) << 56u64),
{
}

/// XOR on 64-bit values is associative and commutative with identity 0.
pub proof fn lemma_xor_assoc_u64(a: u64, b: u64, c: u64)
    by (bit_vector)
    ensures
        (a ^ b) ^ c == a ^ (b ^ c),
        a ^ b == b ^ a,
        a ^ 0 == a,
        0 ^ a == a,
        a ^ a == 0,
{
}

/// Eight bit steps written out equal eight recursive bit steps.
pub proof fn lemma_byte_shift_is_bit_steps_u64(poly: u64, reflect: bool, v: u64)
    ensures
        byte_shift_u64(poly, reflect, v) == bit_steps_u64(poly, reflect, v, 8),
{
    reveal_with_fuel(bit_steps_u64, 9);
}

/// Zero-byte shifts compose additively.
pub proof fn lemma_zero_shifts_add_u64(poly: u64, reflect: bool, m: nat, n: nat, v: u64)
    ensures
        zero_shifts_u64(poly, reflect, m + n, v) == zero_shifts_u64(
            poly,
            reflect,
            m,
            zero_shifts_u64(poly, reflect, n, v),
        ),
    decreases m,
{
    if m > 0 {
        lemma_zero_shifts_add_u64(poly, reflect, (m - 1) as nat, n, v);
        assert(m + n == ((m - 1) as nat + n) + 1);
    }
}

/// Zero-byte shifts are XOR-linear.
pub proof fn lemma_zero_shifts_linear_u64(poly: u64, reflect: bool, n: nat, x: u64, y: u64)
    ensures
        zero_shifts_u64(poly, reflect, n, x ^ y) == zero_shifts_u64(poly, reflect, n, x)
            ^ zero_shifts_u64(poly, reflect, n, y),
    decreases n,
{
    if n > 0 {
        lemma_zero_shifts_linear_u64(poly, reflect, (n - 1) as nat, x, y);
        lemma_shift_linear_u64(
            poly,
            reflect,
            zero_shifts_u64(poly, reflect, (n - 1) as nat, x),
            zero_shifts_u64(poly, reflect, (n - 1) as nat, y),
        );
    }
}

/// A table entry at lane `n + lane` is the lane-`lane` entry pushed through
/// `n` more zero bytes.
pub proof fn lemma_zero_shifts_entry_u64(poly: u64, reflect: bool, n: nat, lane: nat, idx: u8)
    ensures
        zero_shifts_u64(poly, reflect, n, lane_entry_u64(poly, reflect, lane, idx))
            == lane_entry_u64(poly, reflect, n + lane, idx),
    decreases n,
{
    if n > 0 {
        lemma_zero_shifts_entry_u64(poly, reflect, (n - 1) as nat, lane, idx);
    }
}

/// A zero register stays zero through any number of zero bytes.
pub proof fn lemma_zero_shifts_zero_u64(poly: u64, reflect: bool, n: nat)
    ensures
        zero_shifts_u64(poly, reflect, n, 0) == 0,
    decreases n,
{
    if n > 0 {
        lemma_zero_shifts_zero_u64(poly, reflect, (n - 1) as nat);
        lemma_shift_split_u64(poly, 0);
    }
}

/// Peeling one register byte off a run of zero-byte shifts: the byte at the
/// shift-out end becomes a table entry, the rest of the register moves over.
pub proof fn lemma_zs_peel_u64(poly: u64, reflect: bool, n: nat, crc: u64)
    requires
        n >= 1,
    ensures
        reflect ==> zero_shifts_u64(poly, true, n, crc) == lane_entry_u64(
            poly,
            true,
            (n - 1) as nat,
            crc as u8,
        ) ^ zero_shifts_u64(poly, true, (n - 1) as nat, crc >> 8u64),
        !reflect ==> zero_shifts_u64(poly, false, n, crc) == lane_entry_u64(
            poly,
            false,
            (n - 1) as nat,
            (crc >> 56u64) as u8,
        ) ^ zero_shifts_u64(poly, false, (n - 1) as nat, crc << 8u64),
{
    lemma_zero_shifts_add_u64(poly, reflect, (n - 1) as nat, 1, crc);
    assert(zero_shifts_u64(poly, reflect, 0, crc) == crc);
    assert(zero_shifts_u64(poly, reflect, 1, crc) == byte_shift_u64(poly, reflect, crc));
    lemma_reg_casts_u64(crc);
    lemma_shift_split_u64(poly, crc);
    if reflect {
        let e0 = lane_entry_u64(poly, true, 0, crc as u8);
        assert(byte_shift_u64(poly, true, crc) == e0 ^ (crc >> 8u64));
        lemma_zero_shifts_linear_u64(poly, true, (n - 1) as nat, e0, crc >> 8u64);
        lemma_zero_shifts_entry_u64(poly, true, (n - 1) as nat, 0, crc as u8);
    } else {
        let e0 = lane_entry_u64(poly, false, 0, (crc >> 56u64) as u8);
        assert(byte_shift_u64(poly, false, crc) == e0 ^ (crc << 8u64));
        lemma_zero_shifts_linear_u64(poly, false, (n - 1) as nat, e0, crc << 8u64);
        lemma_zero_shifts_entry_u64(poly, false, (n - 1) as nat, 0, (crc >> 56u64) as u8);
    }
}

/// Table entries are XOR-linear in the index byte.
pub proof fn lemma_entry_idx_linear_u64(poly: u64, reflect: bool, lane: nat, a: u8, b: u8)
    ensures
        lane_entry_u64(poly, reflect, lane, a ^ b) == lane_entry_u64(poly, reflect, lane, a)
            ^ lane_entry_u64(poly, reflect, lane, b),
    decreases lane,
{
    if lane == 0 {
        lemma_u8_xor_embed_u64(a, b);
        if reflect {
            lemma_shift_linear_u64(poly, true, a as u64, b as u64);
        } else {
            lemma_shift_linear_u64(poly, false, (a as u64) << 56u64, (b as u64) << 56u64);
        }
    } else {
        lemma_entry_idx_linear_u64(poly, reflect, (lane - 1) as nat, a, b);
        lemma_shift_linear_u64(
            poly,
            reflect,
            lane_entry_u64(poly, reflect, (lane - 1) as nat, a),
            lane_entry_u64(poly, reflect, (lane - 1) as nat, b),
        );
    }
}

/// The CRC of a byte sequence splits into the old register contents pushed
/// through the whole sequence length, XOR one table entry per input byte.
pub proof fn lemma_crc_bytes_sum_u64(poly: u64, reflect: bool, crc: u64, data: Seq<u8>)
    ensures
        crc_bytes_u64(poly, reflect, crc, data) == zero_shifts_u64(
            poly,
            reflect,
            data.len(),
            crc,
        ) ^ lane_sum_u64(poly, reflect, data),
    decreases data.len(),
{
    if data.len() == 0 {
        lemma_xor_assoc_u64(crc, 0, 0);
    } else {
        let b = data[0];
        let rest = data.skip(1);
        let fed = feed_byte_u64(poly, reflect, crc, b);
        lemma_crc_bytes_sum_u64(poly, reflect, fed, rest);
        // feed_byte is byte_shift of crc XOR the lane-0 entry of b
        let e0 = lane_entry_u64(poly, reflect, 0, b);
        if reflect {
            lemma_shift_linear_u64(poly, true, crc, b as u64);
        } else {
            lemma_shift_linear_u64(poly, false, crc, (b as u64) << 56u64);
        }
        assert(fed == byte_shift_u64(poly, reflect, crc) ^ e0);
        lemma_zero_shifts_linear_u64(
            poly,
            reflect,
            rest.len(),
            byte_shift_u64(poly, reflect, crc),
            e0,
        );
        lemma_zero_shifts_entry_u64(poly, reflect, rest.len(), 0, b);
        // pushing byte_shift(crc) through |rest| zero bytes equals pushing crc
        // through |data| of them
        lemma_zero_shifts_add_u64(poly, reflect, rest.len(), 1, crc);
        assert(zero_shifts_u64(poly, reflect, 0, crc) == crc);
        assert(zero_shifts_u64(poly, reflect, 1, crc) == byte_shift_u64(poly, reflect, crc));
        lemma_xor_assoc_u64(
            zero_shifts_u64(poly, reflect, data.len(), crc),
            lane_entry_u64(poly, reflect, rest.len(), b),
            lane_sum_u64(poly, reflect, rest),
        );
    }
}

/// Cast and shift facts for the engine's one-byte tail step.
pub proof fn lemma_feed_tail_casts_u64(crc: u64, b: u8)
    by (bit_vector)
    ensures
        (crc ^ (b as u64)) >> 8u64 == crc >> 8u64,
        (((crc ^ ((b as u64) << 56u64)) >> 56u64) & 0xFF) << 56u64 == (((crc >> 56u64)
            ^ (b as u64)) & 0xFF) << 56u64,
        (crc ^ ((b as u64) << 56u64)) << 8u64 == crc << 8u64,
        (crc ^ (b as u64)) & 0xFF < 256,
        (((crc ^ (b as u64)) & 0xFF) as u8) as u64 == (crc ^ (b as u64)) & 0xFF,
        ((crc >> 56u64) ^ (b as u64)) & 0xFF < 256,
        ((((crc >> 56u64) ^ (b as u64)) & 0xFF) as u8) as u64 == ((crc >> 56u64) ^ (b as u64))
            & 0xFF,
{
}

/// What the engine's tail loop computes for one byte: a lane-0 lookup on the
/// mixed byte, XOR the register moved over by one byte.
pub proof fn lemma_feed_byte_tail_u64(poly: u64, crc: u64, b: u8)
    ensures
        feed_byte_u64(poly, true, crc, b) == byte_shift_u64(
            poly,
            true,
            (crc ^ (b as u64)) & 0xFF,
        ) ^ (crc >> 8u64),
        feed_byte_u64(poly, false, crc, b) == byte_shift_u64(
            poly,
            false,
            (((crc >> 56u64) ^ (b as u64)) & 0xFF) << 56u64,
        ) ^ (crc << 8u64),
        (crc ^ (b as u64)) & 0xFF < 256,
        (((crc ^ (b as u64)) & 0xFF) as u8) as u64 == (crc ^ (b as u64)) & 0xFF,
        ((crc >> 56u64) ^ (b as u64)) & 0xFF < 256,
        ((((crc >> 56u64) ^ (b as u64)) & 0xFF) as u8) as u64 == ((crc >> 56u64) ^ (b as u64))
            & 0xFF,
{
    lemma_feed_tail_casts_u64(crc, b);
    lemma_shift_split_u64(poly, crc ^ (b as u64));
    lemma_shift_split_u64(poly, crc ^ ((b as u64) << 56u64));
}

/// Appending byte sequences composes the CRC computation.
pub proof fn lemma_crc_bytes_append_u64(poly: u64, reflect: bool, crc: u64, a: Seq<u8>, b: Seq<u8>)
    ensures
        crc_bytes_u64(poly, reflect, crc, a + b) == crc_bytes_u64(
            poly,
            reflect,
            crc_bytes_u64(poly, reflect, crc, a),
            b,
        ),
    decreases a.len(),
{
    if a.len() == 0 {
        assert(a + b =~= b);
    } else {
        let fed = feed_byte_u64(poly, reflect, crc, a[0]);
        assert((a + b).skip(1) =~= a.skip(1) + b);
        lemma_crc_bytes_append_u64(poly, reflect, fed, a.skip(1), b);
    }
}

/// Pushing the register through 16 zero bytes equals XORing the table entries
/// of its 8 bytes, each at the lane matching its distance from the end.
pub proof fn lemma_reg_decomp_u64(poly: u64, reflect: bool, crc: u64)
    ensures
        reflect ==> zero_shifts_u64(poly, true, 16, crc) == lane_entry_u64(poly, true, 15, crc as u8) ^ (lane_entry_u64(poly, true, 14, (crc >> 8u64) as u8) ^ (lane_entry_u64(poly, true, 13, (crc >> 16u64) as u8) ^ (lane_entry_u64(poly, true, 12, (crc >> 24u64) as u8) ^ (lane_entry_u64(poly, true, 11, (crc >> 32u64) as u8) ^ (lane_entry_u64(poly, true, 10, (crc >> 40u64) as u8) ^ (lane_entry_u64(poly, true, 9, (crc >> 48u64) as u8) ^ (lane_entry_u64(poly, true, 8, (crc >> 56u64) as u8)))))))),
        !reflect ==> zero_shifts_u64(poly, false, 16, crc) == lane_entry_u64(poly, false, 15, (crc >> 56u64) as u8) ^ (lane_entry_u64(poly, false, 14, (crc >> 48u64) as u8) ^ (lane_entry_u64(poly, false, 13, (crc >> 40u64) as u8) ^ (lane_entry_u64(poly, false, 12, (crc >> 32u64) as u8) ^ (lane_entry_u64(poly, false, 11, (crc >> 24u64) as u8) ^ (lane_entry_u64(poly, false, 10, (crc >> 16u64) as u8) ^ (lane_entry_u64(poly, false, 9, (crc >> 8u64) as u8) ^ (lane_entry_u64(poly, false, 8, crc as u8)))))))),
{
    lemma_reg_casts_u64(crc);
    if reflect {
        lemma_zs_peel_u64(poly, true, 16, crc);

        lemma_zs_peel_u64(poly, true, 15, crc >> 8u64);
        lemma_reg_casts_u64(crc >> 8u64);
        lemma_zs_peel_u64(poly, true, 14, crc >> 16u64);
        lemma_reg_casts_u64(crc >> 16u64);
        lemma_zs_peel_u64(poly, true, 13, crc >> 24u64);
        lemma_reg_casts_u64(crc >> 24u64);
        lemma_zs_peel_u64(poly, true, 12, crc >> 32u64);
        lemma_reg_casts_u64(crc >> 32u64);
        lemma_zs_peel_u64(poly, true, 11, crc >> 40u64);
        lemma_reg_casts_u64(crc >> 40u64);
        lemma_zs_peel_u64(poly, true, 10, crc >> 48u64);
        lemma_reg_casts_u64(crc >> 48u64);
        lemma_zs_peel_u64(poly, true, 9, crc >> 56u64);
        lemma_zero_shifts_zero_u64(poly, true, 8);
        lemma_xor_assoc_u64(0, 0, 0);
        assert(lane_entry_u64(poly, true, 8, (crc >> 56u64) as u8) ^ 0 == lane_entry_u64(poly, true, 8, (crc >> 56u64) as u8)) by {
            lemma_xor_assoc_u64(lane_entry_u64(poly, true, 8, (crc >> 56u64) as u8), 0, 0);
        }
    } else {
        lemma_zs_peel_u64(poly, false, 16, crc);

        lemma_zs_peel_u64(poly, false, 15, crc << 8u64);
        lemma_reg_casts_u64(crc << 8u64);
        lemma_zs_peel_u64(poly, false, 14, crc << 16u64);
        lemma_reg_casts_u64(crc << 16u64);
        lemma_zs_peel_u64(poly, false, 13, crc << 24u64);
        lemma_reg_casts_u64(crc << 24u64);
        lemma_zs_peel_u64(poly, false, 12, crc << 32u64);
        lemma_reg_casts_u64(crc << 32u64);
        lemma_zs_peel_u64(poly, false, 11, crc << 40u64);
        lemma_reg_casts_u64(crc << 40u64);
        lemma_zs_peel_u64(poly, false, 10, crc << 48u64);
        lemma_reg_casts_u64(crc << 48u64);
        lemma_zs_peel_u64(poly, false, 9, crc << 56u64);
        lemma_zero_shifts_zero_u64(poly, false, 8);
        assert(lane_entry_u64(poly, false, 8, crc as u8) ^ 0 == lane_entry_u64(poly, false, 8, crc as u8)) by {
            lemma_xor_assoc_u64(lane_entry_u64(poly, false, 8, crc as u8), 0, 0);
        }
    }
}

/// What the engine's 16-byte path computes for one block: sixteen table
/// lookups XORed together, with the 8 register bytes mixed into the first
/// 8 input bytes.
pub open spec fn block_lookup_sum_u64(poly: u64, reflect: bool, crc: u64, block: Seq<u8>) -> u64 {
    let c0: u8 = if reflect {
        crc as u8
    } else {
        (crc >> 56u64) as u8
    };
    let c1: u8 = if reflect {
        (crc >> 8u64) as u8
    } else {
        (crc >> 48u64) as u8
    };
    let c2: u8 = if reflect {
        (crc >> 16u64) as u8
    } else {
        (crc >> 40u64) as u8
    };
    let c3: u8 = if reflect {
        (crc >> 24u64) as u8
    } else {
        (crc >> 32u64) as u8
    };
    let c4: u8 = if reflect {
        (crc >> 32u64) as u8
    } else {
        (crc >> 24u64) as u8
    };
    let c5: u8 = if reflect {
        (crc >> 40u64) as u8
    } else {
        (crc >> 16u64) as u8
    };
    let c6: u8 = if reflect {
        (crc >> 48u64) as u8
    } else {
        (crc >> 8u64) as u8
    };
    let c7: u8 = if reflect {
        (crc >> 56u64) as u8
    } else {
        crc as u8
    };
    lane_entry_u64(poly, reflect, 0, block[15]) ^ lane_entry_u64(poly, reflect, 1, block[14]) ^ lane_entry_u64(poly, reflect, 2, block[13]) ^ lane_entry_u64(poly, reflect, 3, block[12]) ^ lane_entry_u64(poly, reflect, 4, block[11]) ^ lane_entry_u64(poly, reflect, 5, block[10]) ^ lane_entry_u64(poly, reflect, 6, block[9]) ^ lane_entry_u64(poly, reflect, 7, block[8]) ^ lane_entry_u64(poly, reflect, 8, block[7] ^ c7) ^ lane_entry_u64(poly, reflect, 9, block[6] ^ c6) ^ lane_entry_u64(poly, reflect, 10, block[5] ^ c5) ^ lane_entry_u64(poly, reflect, 11, block[4] ^ c4) ^ lane_entry_u64(poly, reflect, 12, block[3] ^ c3) ^ lane_entry_u64(poly, reflect, 13, block[2] ^ c2) ^ lane_entry_u64(poly, reflect, 14, block[1] ^ c1) ^ lane_entry_u64(poly, reflect, 15, block[0] ^ c0)
}

/// The engine's 16-lookup block step equals feeding the 16 bytes through the
/// register one bit at a time.
pub proof fn lemma_block_u64(poly: u64, reflect: bool, crc: u64, block: Seq<u8>)
    requires
        block.len() == 16,
    ensures
        crc_bytes_u64(poly, reflect, crc, block) == block_lookup_sum_u64(
            poly,
            reflect,
            crc,
            block,
        ),
{
    lemma_crc_bytes_sum_u64(poly, reflect, crc, block);
    lemma_reg_decomp_u64(poly, reflect, crc);
    let c0: u8 = if reflect {
        crc as u8
    } else {
        (crc >> 56u64) as u8
    };
    let c1: u8 = if reflect {
        (crc >> 8u64) as u8
    } else {
        (crc >> 48u64) as u8
    };
    let c2: u8 = if reflect {
        (crc >> 16u64) as u8
    } else {
        (crc >> 40u64) as u8
    };
    let c3: u8 = if reflect {
        (crc >> 24u64) as u8
    } else {
        (crc >> 32u64) as u8
    };
    let c4: u8 = if reflect {
        (crc >> 32u64) as u8
    } else {
        (crc >> 24u64) as u8
    };
    let c5: u8 = if reflect {
        (crc >> 40u64) as u8
    } else {
        (crc >> 16u64) as u8
    };
    let c6: u8 = if reflect {
        (crc >> 48u64) as u8
    } else {
        (crc >> 8u64) as u8
    };
    let c7: u8 = if reflect {
        (crc >> 56u64) as u8
    } else {
        crc as u8
    };
    let z0 = lane_entry_u64(poly, reflect, 15, c0);
    let z1 = lane_entry_u64(poly, reflect, 14, c1);
    let z2 = lane_entry_u64(poly, reflect, 13, c2);
    let z3 = lane_entry_u64(poly, reflect, 12, c3);
    let z4 = lane_entry_u64(poly, reflect, 11, c4);
    let z5 = lane_entry_u64(poly, reflect, 10, c5);
    let z6 = lane_entry_u64(poly, reflect, 9, c6);
    let z7 = lane_entry_u64(poly, reflect, 8, c7);
    assert(zero_shifts_u64(poly, reflect, 16, crc) == z0 ^ (z1 ^ (z2 ^ (z3 ^ (z4 ^ (z5 ^ (z6 ^ (z7))))))));
    let t0 = lane_entry_u64(poly, reflect, 0, block[15]);
    let t1 = lane_entry_u64(poly, reflect, 1, block[14]);
    let t2 = lane_entry_u64(poly, reflect, 2, block[13]);
    let t3 = lane_entry_u64(poly, reflect, 3, block[12]);
    let t4 = lane_entry_u64(poly, reflect, 4, block[11]);
    let t5 = lane_entry_u64(poly, reflect, 5, block[10]);
    let t6 = lane_entry_u64(poly, reflect, 6, block[9]);
    let t7 = lane_entry_u64(poly, reflect, 7, block[8]);
    let t8 = lane_entry_u64(poly, reflect, 8, block[7]);
    let t9 = lane_entry_u64(poly, reflect, 9, block[6]);
    let t10 = lane_entry_u64(poly, reflect, 10, block[5]);
    let t11 = lane_entry_u64(poly, reflect, 11, block[4]);
    let t12 = lane_entry_u64(poly, reflect, 12, block[3]);
    let t13 = lane_entry_u64(poly, reflect, 13, block[2]);
    let t14 = lane_entry_u64(poly, reflect, 14, block[1]);
    let t15 = lane_entry_u64(poly, reflect, 15, block[0]);
    let s1 = block.skip(1);
    let s2 = s1.skip(1);
    let s3 = s2.skip(1);
    let s4 = s3.skip(1);
    let s5 = s4.skip(1);
    let s6 = s5.skip(1);
    let s7 = s6.skip(1);
    let s8 = s7.skip(1);
    let s9 = s8.skip(1);
    let s10 = s9.skip(1);
    let s11 = s10.skip(1);
    let s12 = s11.skip(1);
    let s13 = s12.skip(1);
    let s14 = s13.skip(1);
    let s15 = s14.skip(1);
    let s16 = s15.skip(1);
    assert(s1[0] == block[1] && s2[0] == block[2] && s3[0] == block[3] && s4[0] == block[4] && s5[0] == block[5] && s6[0] == block[6] && s7[0] == block[7] && s8[0] == block[8] && s9[0] == block[9] && s10[0] == block[10] && s11[0] == block[11] && s12[0] == block[12] && s13[0] == block[13] && s14[0] == block[14] && s15[0] == block[15]);
    assert(s16.len() == 0);
    assert(lane_sum_u64(poly, reflect, s16) == 0);
    assert(lane_sum_u64(poly, reflect, s15) == t0 ^ (0));
    assert(lane_sum_u64(poly, reflect, s14) == t1 ^ (t0 ^ (0)));
    assert(lane_sum_u64(poly, reflect, s13) == t2 ^ (t1 ^ (t0 ^ (0))));
    assert(lane_sum_u64(poly, reflect, s12) == t3 ^ (t2 ^ (t1 ^ (t0 ^ (0)))));
    assert(lane_sum_u64(poly, reflect, s11) == t4 ^ (t3 ^ (t2 ^ (t1 ^ (t0 ^ (0))))));
    assert(lane_sum_u64(poly, reflect, s10) == t5 ^ (t4 ^ (t3 ^ (t2 ^ (t1 ^ (t0 ^ (0)))))));
    assert(lane_sum_u64(poly, reflect, s9) == t6 ^ (t5 ^ (t4 ^ (t3 ^ (t2 ^ (t1 ^ (t0 ^ (0))))))));
    assert(lane_sum_u64(poly, reflect, s8) == t7 ^ (t6 ^ (t5 ^ (t4 ^ (t3 ^ (t2 ^ (t1 ^ (t0 ^ (0)))))))));
    assert(lane_sum_u64(poly, reflect, s7) == t8 ^ (t7 ^ (t6 ^ (t5 ^ (t4 ^ (t3 ^ (t2 ^ (t1 ^ (t0 ^ (0))))))))));
    assert(lane_sum_u64(poly, reflect, s6) == t9 ^ (t8 ^ (t7 ^ (t6 ^ (t5 ^ (t4 ^ (t3 ^ (t2 ^ (t1 ^ (t0 ^ (0)))))))))));
    assert(lane_sum_u64(poly, reflect, s5) == t10 ^ (t9 ^ (t8 ^ (t7 ^ (t6 ^ (t5 ^ (t4 ^ (t3 ^ (t2 ^ (t1 ^ (t0 ^ (0))))))))))));
    assert(lane_sum_u64(poly, reflect, s4) == t11 ^ (t10 ^ (t9 ^ (t8 ^ (t7 ^ (t6 ^ (t5 ^ (t4 ^ (t3 ^ (t2 ^ (t1 ^ (t0 ^ (0)))))))))))));
    assert(lane_sum_u64(poly, reflect, s3) == t12 ^ (t11 ^ (t10 ^ (t9 ^ (t8 ^ (t7 ^ (t6 ^ (t5 ^ (t4 ^ (t3 ^ (t2 ^ (t1 ^ (t0 ^ (0))))))))))))));
    assert(lane_sum_u64(poly, reflect, s2) == t13 ^ (t12 ^ (t11 ^ (t10 ^ (t9 ^ (t8 ^ (t7 ^ (t6 ^ (t5 ^ (t4 ^ (t3 ^ (t2 ^ (t1 ^ (t0 ^ (0)))))))))))))));
    assert(lane_sum_u64(poly, reflect, s1) == t14 ^ (t13 ^ (t12 ^ (t11 ^ (t10 ^ (t9 ^ (t8 ^ (t7 ^ (t6 ^ (t5 ^ (t4 ^ (t3 ^ (t2 ^ (t1 ^ (t0 ^ (0))))))))))))))));
    assert(lane_sum_u64(poly, reflect, block) == t15 ^ (t14 ^ (t13 ^ (t12 ^ (t11 ^ (t10 ^ (t9 ^ (t8 ^ (t7 ^ (t6 ^ (t5 ^ (t4 ^ (t3 ^ (t2 ^ (t1 ^ (t0 ^ (0)))))))))))))))));
    lemma_entry_idx_linear_u64(poly, reflect, 15, block[0], c0);
    lemma_entry_idx_linear_u64(poly, reflect, 14, block[1], c1);
    lemma_entry_idx_linear_u64(poly, reflect, 13, block[2], c2);
    lemma_entry_idx_linear_u64(poly, reflect, 12, block[3], c3);
    lemma_entry_idx_linear_u64(poly, reflect, 11, block[4], c4);
    lemma_entry_idx_linear_u64(poly, reflect, 10, block[5], c5);
    lemma_entry_idx_linear_u64(poly, reflect, 9, block[6], c6);
    lemma_entry_idx_linear_u64(poly, reflect, 8, block[7], c7);
    assert((z0 ^ (z1 ^ (z2 ^ (z3 ^ (z4 ^ (z5 ^ (z6 ^ (z7)))))))) ^ (t15 ^ (t14 ^ (t13 ^ (t12 ^ (t11 ^ (t10 ^ (t9 ^ (t8 ^ (t7 ^ (t6 ^ (t5 ^ (t4 ^ (t3 ^ (t2 ^ (t1 ^ (t0 ^ (0))))))))))))))))) == t0 ^ t1 ^ t2 ^ t3 ^ t4 ^ t5 ^ t6 ^ t7 ^ (t8 ^ z7) ^ (t9 ^ z6) ^ (t10 ^ z5) ^ (t11 ^ z4) ^ (t12 ^ z3) ^ (t13 ^ z2) ^ (t14 ^ z1) ^ (t15 ^ z0)) by (bit_vector);
}

} // verus!
