//! Portable table-driven CRC engine.
//!
//! The engine precomputes a 16-lane lookup table for a polynomial and then
//! consumes input 16 bytes at a time, finishing the remainder one byte at a
//! time.  Every function is verified against the bit-level register model in
//! [`crate::model`].

use vstd::prelude::*;

use crate::model::{
    bit_steps_u16, bit_steps_u32, bit_steps_u64, block_lookup_sum_u16, block_lookup_sum_u32,
    block_lookup_sum_u64, byte_shift_u16, byte_shift_u32, byte_shift_u64, crc_bytes_u16,
    crc_bytes_u32, crc_bytes_u64, feed_byte_u16, feed_byte_u32, feed_byte_u64, lane_entry_u16,
    lane_entry_u32, lane_entry_u64, lemma_block_u16, lemma_block_u32, lemma_block_u64,
    lemma_byte_shift_is_bit_steps_u16, lemma_byte_shift_is_bit_steps_u32,
    lemma_byte_shift_is_bit_steps_u64, lemma_crc_bytes_append_u16, lemma_crc_bytes_append_u32,
    lemma_crc_bytes_append_u64, lemma_feed_byte_tail_u16, lemma_feed_byte_tail_u32,
    lemma_feed_byte_tail_u64, lemma_reg_casts_u16, lemma_reg_casts_u32, lemma_reg_casts_u64,
    lemma_shift_split_u16, lemma_shift_split_u32, lemma_shift_split_u64, lemma_xor_assoc_u16,
    lemma_xor_assoc_u32, lemma_xor_assoc_u64,
};

verus! {


// ===========================================================================
// 16-bit engine
// ===========================================================================

/// The low `n` bits of `v` in reverse order (bit 0 of the result is bit
/// `n - 1` of `v`).
pub open spec fn spec_rev_low_u16(v: u16, n: nat) -> u16
    decreases n,
{
    if n == 0 {
        0
    } else {
        (spec_rev_low_u16(v, (n - 1) as nat) << 1) | ((v >> ((n - 1) as u16)) & 1)
    }
}

/// All 16 bits of `v` in reverse order.
pub open spec fn spec_reverse_u16(v: u16) -> u16 {
    spec_rev_low_u16(v, 16)
}

/// Reverses the bit order of a 16-bit value.
pub fn reverse_u16(v: u16) -> (r: u16)
    ensures
        r == spec_reverse_u16(v),
{
    let mut r: u16 = 0;
    let mut i: u16 = 0;
    while i < 16
        invariant
            i <= 16,
            r == spec_rev_low_u16(v, i as nat),
        decreases 16 - i,
    {
        r = (r << 1u16) | ((v >> i) & 1);
        i = i + 1;
    }
    r
}

/// The polynomial actually fed to the shift register for a nominal `width`:
/// reflected polynomials are bit-reversed, and narrower widths are positioned
/// at the register's shift-out end.
pub open spec fn spec_scaled_poly_u16(width: u8, poly: u16, reflect: bool) -> u16 {
    if reflect {
        spec_reverse_u16(poly) >> ((16 - width) as u16)
    } else {
        poly << ((16 - width) as u16)
    }
}

/// What one table-generation step computes: the value shifted through one
/// byte's worth of register steps, after forward values are positioned at the
/// register's high end.
pub open spec fn spec_crc16_single(poly: u16, reflect: bool, value: u16) -> u16 {
    if reflect {
        byte_shift_u16(poly, true, value)
    } else {
        byte_shift_u16(poly, false, value << 8)
    }
}

/// Computes a single CRC-16 value for table generation.
pub fn crc16_single(poly: u16, reflect: bool, value: u16) -> (r: u16)
    ensures
        r == spec_crc16_single(poly, reflect, value),
{
    let start: u16 = if reflect {
        value
    } else {
        value << 8u16
    };
    let mut v: u16 = start;
    let mut i: u8 = 0;
    while i < 8
        invariant
            i <= 8,
            v == bit_steps_u16(poly, reflect, start, i as nat),
        decreases 8 - i,
    {
        if reflect {
            v = if v & 1 == 1 {
                (v >> 1u16) ^ poly
            } else {
                v >> 1u16
            };
        } else {
            v = if (v >> 15u16) & 1 == 1 {
                (v << 1u16) ^ poly
            } else {
                v << 1u16
            };
        }
        i = i + 1;
    }
    proof {
        lemma_byte_shift_is_bit_steps_u16(poly, reflect, start);
    }
    v
}

/// All 16 lanes of `table` hold the register state after one index byte and
/// `lane` zero bytes.
pub open spec fn spec_table_ok_u16(tpoly: u16, reflect: bool, table: [[u16; 256]; 16]) -> bool {
    forall|e: int, i: int|
        0 <= e < 16 && 0 <= i < 256 ==> #[trigger] table[e][i] == lane_entry_u16(
            tpoly,
            reflect,
            e as nat,
            i as u8,
        )
}

/// Generates a 16-lane lookup table for CRC-16 calculations.
///
/// Lane 0 holds the register after one index byte; lane `e` pushes lane
/// `e - 1` through one more zero byte, so that 16 lookups can consume 16
/// input bytes at once.
pub fn generate_table_u16(width: u8, poly: u16, reflect: bool) -> (table: [[u16; 256]; 16])
    requires
        1 <= width <= 16,
    ensures
        spec_table_ok_u16(spec_scaled_poly_u16(width, poly, reflect), reflect, table),
{
    let tpoly: u16 = if reflect {
        reverse_u16(poly) >> ((16 - width) as u16)
    } else {
        poly << ((16 - width) as u16)
    };

    let mut row0 = [0u16; 256];
    let mut i: usize = 0;
    while i < 256
        invariant
            i <= 256,
            forall|j: int|
                0 <= j < i ==> #[trigger] row0[j] == lane_entry_u16(tpoly, reflect, 0, j as u8),
        decreases 256 - i,
    {
        row0[i] = crc16_single(tpoly, reflect, i as u16);
        i = i + 1;
    }

    let mut table = [[0u16; 256]; 16];
    table[0] = row0;
    let mut prev = row0;
    let mut e: usize = 1;
    while e < 16
        invariant
            1 <= e <= 16,
            forall|j: int|
                0 <= j < 256 ==> #[trigger] row0[j] == lane_entry_u16(tpoly, reflect, 0, j as u8),
            forall|j: int|
                0 <= j < 256 ==> #[trigger] prev[j] == lane_entry_u16(
                    tpoly,
                    reflect,
                    (e - 1) as nat,
                    j as u8,
                ),
            forall|l: int, j: int|
                0 <= l < e && 0 <= j < 256 ==> #[trigger] table[l][j] == lane_entry_u16(
                    tpoly,
                    reflect,
                    l as nat,
                    j as u8,
                ),
        decreases 16 - e,
    {
        let mut row = [0u16; 256];
        let mut i2: usize = 0;
        while i2 < 256
            invariant
                i2 <= 256,
                1 <= e <= 15,
                forall|j: int|
                    0 <= j < 256 ==> #[trigger] row0[j] == lane_entry_u16(
                        tpoly,
                        reflect,
                        0,
                        j as u8,
                    ),
                forall|j: int|
                    0 <= j < 256 ==> #[trigger] prev[j] == lane_entry_u16(
                        tpoly,
                        reflect,
                        (e - 1) as nat,
                        j as u8,
                    ),
                forall|j: int|
                    0 <= j < i2 ==> #[trigger] row[j] == lane_entry_u16(
                        tpoly,
                        reflect,
                        e as nat,
                        j as u8,
                    ),
            decreases 256 - i2,
        {
            let one_lower = prev[i2];
            proof {
                lemma_reg_casts_u16(one_lower);
                lemma_shift_split_u16(tpoly, one_lower);
            }
            if reflect {
                let idx = (one_lower & 0xFF) as usize;
                row[i2] = (one_lower >> 8u16) ^ row0[idx];
                proof {
                    lemma_xor_assoc_u16(
                        byte_shift_u16(tpoly, true, one_lower & 0xFF),
                        one_lower >> 8u16,
                        0,
                    );
                    assert(row[i2 as int] == byte_shift_u16(tpoly, true, one_lower));
                }
            } else {
                let idx = ((one_lower >> 8u16) & 0xFF) as usize;
                row[i2] = (one_lower << 8u16) ^ row0[idx];
                proof {
                    lemma_xor_assoc_u16(
                        byte_shift_u16(tpoly, false, ((one_lower >> 8u16) & 0xFF) << 8u16),
                        one_lower << 8u16,
                        0,
                    );
                    assert(row[i2 as int] == byte_shift_u16(tpoly, false, one_lower));
                }
            }
            i2 = i2 + 1;
        }
        table[e] = row;
        prev = row;
        e = e + 1;
    }
    table
}

/// Native CRC-16 update function using 16-lane lookup tables.
///
/// Processes 16 bytes at a time, then handles remaining bytes with single-byte
/// lookups.  The result is exactly the bit-by-bit CRC of `bytes` for the
/// polynomial the table was generated from.
pub fn native_update_u16(
    state: u16,
    table: &[[u16; 256]; 16],
    reflect: bool,
    bytes: &[u8],
    tpoly: Ghost<u16>,
) -> (r: u16)
    requires
        spec_table_ok_u16(tpoly@, reflect, *table),
    ensures
        r == crc_bytes_u16(tpoly@, reflect, state, bytes@),
{
    let len = bytes.len();
    let mut crc = state;
    let mut i: usize = 0;

    // Process 16 bytes at a time
    while len - i >= 16
        invariant
            i <= len == bytes@.len(),
            spec_table_ok_u16(tpoly@, reflect, *table),
            crc == crc_bytes_u16(tpoly@, reflect, state, bytes@.take(i as int)),
        decreases len - i,
    {
        let ghost block = bytes@.subrange(i as int, i as int + 16);
        let old_crc = crc;
        let m0: u8 = if reflect {
            bytes[i + 0] ^ (#[verifier::truncate] (crc as u8))
        } else {
            bytes[i + 0] ^ (#[verifier::truncate] ((crc >> 8u16) as u8))
        };
        let m1: u8 = if reflect {
            bytes[i + 1] ^ (#[verifier::truncate] ((crc >> 8u16) as u8))
        } else {
            bytes[i + 1] ^ (#[verifier::truncate] (crc as u8))
        };
        crc = table[0][bytes[i + 15] as usize] ^ table[1][bytes[i + 14] as usize] ^ table[2][bytes[i + 13] as usize] ^ table[3][bytes[i + 12] as usize] ^ table[4][bytes[i + 11] as usize] ^ table[5][bytes[i + 10] as usize] ^ table[6][bytes[i + 9] as usize] ^ table[7][bytes[i + 8] as usize] ^ table[8][bytes[i + 7] as usize] ^ table[9][bytes[i + 6] as usize] ^ table[10][bytes[i + 5] as usize] ^ table[11][bytes[i + 4] as usize] ^ table[12][bytes[i + 3] as usize] ^ table[13][bytes[i + 2] as usize] ^ table[14][m1 as usize] ^ table[15][m0 as usize];
        proof {
            assert(block[0] == bytes@[i as int + 0] && block[1] == bytes@[i as int + 1]);
            assert(crc == block_lookup_sum_u16(tpoly@, reflect, old_crc, block));
            lemma_block_u16(tpoly@, reflect, old_crc, block);
            assert(bytes@.take(i as int + 16) =~= bytes@.take(i as int) + block);
            lemma_crc_bytes_append_u16(tpoly@, reflect, state, bytes@.take(i as int), block);
        }
        i = i + 16;
    }

    // Process remaining bytes one at a time
    while i < len
        invariant
            i <= len == bytes@.len(),
            spec_table_ok_u16(tpoly@, reflect, *table),
            crc == crc_bytes_u16(tpoly@, reflect, state, bytes@.take(i as int)),
        decreases len - i,
    {
        let b = bytes[i];
        let old_crc = crc;
        proof {
            lemma_feed_byte_tail_u16(tpoly@, crc, b);
        }
        if reflect {
            let table_index = ((crc ^ (b as u16)) & 0xFF) as usize;
            crc = table[0][table_index] ^ (crc >> 8u16);
        } else {
            let table_index = (((crc >> 8u16) ^ (b as u16)) & 0xFF) as usize;
            crc = table[0][table_index] ^ (crc << 8u16);
        }
        proof {
            assert(crc == feed_byte_u16(tpoly@, reflect, old_crc, b));
            let prefix = bytes@.take(i as int);
            let one = bytes@.subrange(i as int, i as int + 1);
            assert(one.len() == 1 && one[0] == b);
            assert(bytes@.take(i as int + 1) =~= prefix + one);
            lemma_crc_bytes_append_u16(tpoly@, reflect, state, prefix, one);
            assert(one.skip(1) =~= Seq::<u8>::empty());
            assert(crc_bytes_u16(tpoly@, reflect, old_crc, one) == crc_bytes_u16(
                tpoly@,
                reflect,
                feed_byte_u16(tpoly@, reflect, old_crc, b),
                one.skip(1),
            ));
        }
        i = i + 1;
    }
    proof {
        assert(bytes@.take(len as int) =~= bytes@);
    }
    crc
}

// ===========================================================================
// 32-bit engine
// ===========================================================================

/// The low `n` bits of `v` in reverse order (bit 0 of the result is bit
/// `n - 1` of `v`).
pub open spec fn spec_rev_low_u32(v: u32, n: nat) -> u32
    decreases n,
{
    if n == 0 {
        0
    } else {
        (spec_rev_low_u32(v, (n - 1) as nat) << 1) | ((v >> ((n - 1) as u32)) & 1)
    }
}

/// All 32 bits of `v` in reverse order.
pub open spec fn spec_reverse_u32(v: u32) -> u32 {
    spec_rev_low_u32(v, 32)
}

/// Reverses the bit order of a 32-bit value.
pub fn reverse_u32(v: u32) -> (r: u32)
    ensures
        r == spec_reverse_u32(v),
{
    let mut r: u32 = 0;
    let mut i: u32 = 0;
    while i < 32
        invariant
            i <= 32,
            r == spec_rev_low_u32(v, i as nat),
        decreases 32 - i,
    {
        r = (r << 1u32) | ((v >> i) & 1);
        i = i + 1;
    }
    r
}

/// The polynomial actually fed to the shift register for a nominal `width`:
/// reflected polynomials are bit-reversed, and narrower widths are positioned
/// at the register's shift-out end.
pub open spec fn spec_scaled_poly_u32(width: u8, poly: u32, reflect: bool) -> u32 {
    if reflect {
        spec_reverse_u32(poly) >> ((32 - width) as u32)
    } else {
        poly << ((32 - width) as u32)
    }
}

/// What one table-generation step computes: the value shifted through one
/// byte's worth of register steps, after forward values are positioned at the
/// register's high end.
pub open spec fn spec_crc32_single(poly: u32, reflect: bool, value: u32) -> u32 {
    if reflect {
        byte_shift_u32(poly, true, value)
    } else {
        byte_shift_u32(poly, false, value << 24)
    }
}

/// Computes a single CRC-32 value for table generation.
pub fn crc32_single(poly: u32, reflect: bool, value: u32) -> (r: u32)
    ensures
        r == spec_crc32_single(poly, reflect, value),
{
    let start: u32 = if reflect {
        value
    } else {
        value << 24u32
    };
    let mut v: u32 = start;
    let mut i: u8 = 0;
    while i < 8
        invariant
            i <= 8,
            v == bit_steps_u32(poly, reflect, start, i as nat),
        decreases 8 - i,
    {
        if reflect {
            v = if v & 1 == 1 {
                (v >> 1u32) ^ poly
            } else {
                v >> 1u32
            };
        } else {
            v = if (v >> 31u32) & 1 == 1 {
                (v << 1u32) ^ poly
            } else {
                v << 1u32
            };
        }
        i = i + 1;
    }
    proof {
        lemma_byte_shift_is_bit_steps_u32(poly, reflect, start);
    }
    v
}

/// All 16 lanes of `table` hold the register state after one index byte and
/// `lane` zero bytes.
pub open spec fn spec_table_ok_u32(tpoly: u32, reflect: bool, table: [[u32; 256]; 16]) -> bool {
    forall|e: int, i: int|
        0 <= e < 16 && 0 <= i < 256 ==> #[trigger] table[e][i] == lane_entry_u32(
            tpoly,
            reflect,
            e as nat,
            i as u8,
        )
}

/// Generates a 16-lane lookup table for CRC-32 calculations.
///
/// Lane 0 holds the register after one index byte; lane `e` pushes lane
/// `e - 1` through one more zero byte, so that 16 lookups can consume 16
/// input bytes at once.
pub fn generate_table_u32(width: u8, poly: u32, reflect: bool) -> (table: [[u32; 256]; 16])
    requires
        1 <= width <= 32,
    ensures
        spec_table_ok_u32(spec_scaled_poly_u32(width, poly, reflect), reflect, table),
{
    let tpoly: u32 = if reflect {
        reverse_u32(poly) >> ((32 - width) as u32)
    } else {
        poly << ((32 - width) as u32)
    };

    let mut row0 = [0u32; 256];
    let mut i: usize = 0;
    while i < 256
        invariant
            i <= 256,
            forall|j: int|
                0 <= j < i ==> #[trigger] row0[j] == lane_entry_u32(tpoly, reflect, 0, j as u8),
        decreases 256 - i,
    {
        row0[i] = crc32_single(tpoly, reflect, i as u32);
        i = i + 1;
    }

    let mut table = [[0u32; 256]; 16];
    table[0] = row0;
    let mut prev = row0;
    let mut e: usize = 1;
    while e < 16
        invariant
            1 <= e <= 16,
            forall|j: int|
                0 <= j < 256 ==> #[trigger] row0[j] == lane_entry_u32(tpoly, reflect, 0, j as u8),
            forall|j: int|
                0 <= j < 256 ==> #[trigger] prev[j] == lane_entry_u32(
                    tpoly,
                    reflect,
                    (e - 1) as nat,
                    j as u8,
                ),
            forall|l: int, j: int|
                0 <= l < e && 0 <= j < 256 ==> #[trigger] table[l][j] == lane_entry_u32(
                    tpoly,
                    reflect,
                    l as nat,
                    j as u8,
                ),
        decreases 16 - e,
    {
        let mut row = [0u32; 256];
        let mut i2: usize = 0;
        while i2 < 256
            invariant
                i2 <= 256,
                1 <= e <= 15,
                forall|j: int|
                    0 <= j < 256 ==> #[trigger] row0[j] == lane_entry_u32(
                        tpoly,
                        reflect,
                        0,
                        j as u8,
                    ),
                forall|j: int|
                    0 <= j < 256 ==> #[trigger] prev[j] == lane_entry_u32(
                        tpoly,
                        reflect,
                        (e - 1) as nat,
                        j as u8,
                    ),
                forall|j: int|
                    0 <= j < i2 ==> #[trigger] row[j] == lane_entry_u32(
                        tpoly,
                        reflect,
                        e as nat,
                        j as u8,
                    ),
            decreases 256 - i2,
        {
            let one_lower = prev[i2];
            proof {
                lemma_reg_casts_u32(one_lower);
                lemma_shift_split_u32(tpoly, one_lower);
            }
            if reflect {
                let idx = (one_lower & 0xFF) as usize;
                row[i2] = (one_lower >> 8u32) ^ row0[idx];
                proof {
                    lemma_xor_assoc_u32(
                        byte_shift_u32(tpoly, true, one_lower & 0xFF),
                        one_lower >> 8u32,
                        0,
                    );
                    assert(row[i2 as int] == byte_shift_u32(tpoly, true, one_lower));
                }
            } else {
                let idx = ((one_lower >> 24u32) & 0xFF) as usize;
                row[i2] = (one_lower << 8u32) ^ row0[idx];
                proof {
                    lemma_xor_assoc_u32(
                        byte_shift_u32(tpoly, false, ((one_lower >> 24u32) & 0xFF) << 24u32),
                        one_lower << 8u32,
                        0,
                    );
                    assert(row[i2 as int] == byte_shift_u32(tpoly, false, one_lower));
                }
            }
            i2 = i2 + 1;
        }
        table[e] = row;
        prev = row;
        e = e + 1;
    }
    table
}

/// Native CRC-32 update function using 16-lane lookup tables.
///
/// Processes 16 bytes at a time, then handles remaining bytes with single-byte
/// lookups.  The result is exactly the bit-by-bit CRC of `bytes` for the
/// polynomial the table was generated from.
pub fn native_update_u32(
    state: u32,
    table: &[[u32; 256]; 16],
    reflect: bool,
    bytes: &[u8],
    tpoly: Ghost<u32>,
) -> (r: u32)
    requires
        spec_table_ok_u32(tpoly@, reflect, *table),
    ensures
        r == crc_bytes_u32(tpoly@, reflect, state, bytes@),
{
    let len = bytes.len();
    let mut crc = state;
    let mut i: usize = 0;

    // Process 16 bytes at a time
    while len - i >= 16
        invariant
            i <= len == bytes@.len(),
            spec_table_ok_u32(tpoly@, reflect, *table),
            crc == crc_bytes_u32(tpoly@, reflect, state, bytes@.take(i as int)),
        decreases len - i,
    {
        let ghost block = bytes@.subrange(i as int, i as int + 16);
        let old_crc = crc;
        let m0: u8 = if reflect {
            bytes[i + 0] ^ (#[verifier::truncate] (crc as u8))
        } else {
            bytes[i + 0] ^ (#[verifier::truncate] ((crc >> 24u32) as u8))
        };
        let m1: u8 = if reflect {
            bytes[i + 1] ^ (#[verifier::truncate] ((crc >> 8u32) as u8))
        } else {
            bytes[i + 1] ^ (#[verifier::truncate] ((crc >> 16u32) as u8))
        };
        let m2: u8 = if reflect {
            bytes[i + 2] ^ (#[verifier::truncate] ((crc >> 16u32) as u8))
        } else {
            bytes[i + 2] ^ (#[verifier::truncate] ((crc >> 8u32) as u8))
        };
        let m3: u8 = if reflect {
            bytes[i + 3] ^ (#[verifier::truncate] ((crc >> 24u32) as u8))
        } else {
            bytes[i + 3] ^ (#[verifier::truncate] (crc as u8))
        };
        crc = table[0][bytes[i + 15] as usize] ^ table[1][bytes[i + 14] as usize] ^ table[2][bytes[i + 13] as usize] ^ table[3][bytes[i + 12] as usize] ^ table[4][bytes[i + 11] as usize] ^ table[5][bytes[i + 10] as usize] ^ table[6][bytes[i + 9] as usize] ^ table[7][bytes[i + 8] as usize] ^ table[8][bytes[i + 7] as usize] ^ table[9][bytes[i + 6] as usize] ^ table[10][bytes[i + 5] as usize] ^ table[11][bytes[i + 4] as usize] ^ table[12][m3 as usize] ^ table[13][m2 as usize] ^ table[14][m1 as usize] ^ table[15][m0 as usize];
        proof {
            assert(block[0] == bytes@[i as int + 0] && block[1] == bytes@[i as int + 1] && block[2] == bytes@[i as int + 2] && block[3] == bytes@[i as int + 3]);
            assert(crc == block_lookup_sum_u32(tpoly@, reflect, old_crc, block));
            lemma_block_u32(tpoly@, reflect, old_crc, block);
            assert(bytes@.take(i as int + 16) =~= bytes@.take(i as int) + block);
            lemma_crc_bytes_append_u32(tpoly@, reflect, state, bytes@.take(i as int), block);
        }
        i = i + 16;
    }

    // Process remaining bytes one at a time
    while i < len
        invariant
            i <= len == bytes@.len(),
            spec_table_ok_u32(tpoly@, reflect, *table),
            crc == crc_bytes_u32(tpoly@, reflect, state, bytes@.take(i as int)),
        decreases len - i,
    {
        let b = bytes[i];
        let old_crc = crc;
        proof {
            lemma_feed_byte_tail_u32(tpoly@, crc, b);
        }
        if reflect {
            let table_index = ((crc ^ (b as u32)) & 0xFF) as usize;
            crc = table[0][table_index] ^ (crc >> 8u32);
        } else {
            let table_index = (((crc >> 24u32) ^ (b as u32)) & 0xFF) as usize;
            crc = table[0][table_index] ^ (crc << 8u32);
        }
        proof {
            assert(crc == feed_byte_u32(tpoly@, reflect, old_crc, b));
            let prefix = bytes@.take(i as int);
            let one = bytes@.subrange(i as int, i as int + 1);
            assert(one.len() == 1 && one[0] == b);
            assert(bytes@.take(i as int + 1) =~= prefix + one);
            lemma_crc_bytes_append_u32(tpoly@, reflect, state, prefix, one);
            assert(one.skip(1) =~= Seq::<u8>::empty());
            assert(crc_bytes_u32(tpoly@, reflect, old_crc, one) == crc_bytes_u32(
                tpoly@,
                reflect,
                feed_byte_u32(tpoly@, reflect, old_crc, b),
                one.skip(1),
            ));
        }
        i = i + 1;
    }
    proof {
        assert(bytes@.take(len as int) =~= bytes@);
    }
    crc
}

// ===========================================================================
// 64-bit engine
// ===========================================================================

/// The low `n` bits of `v` in reverse order (bit 0 of the result is bit
/// `n - 1` of `v`).
pub open spec fn spec_rev_low_u64(v: u64, n: nat) -> u64
    decreases n,
{
    if n == 0 {
        0
    } else {
        (spec_rev_low_u64(v, (n - 1) as nat) << 1) | ((v >> ((n - 1) as u64)) & 1)
    }
}

/// All 64 bits of `v` in reverse order.
pub open spec fn spec_reverse_u64(v: u64) -> u64 {
    spec_rev_low_u64(v, 64)
}

/// Reverses the bit order of a 64-bit value.
pub fn reverse_u64(v: u64) -> (r: u64)
    ensures
        r == spec_reverse_u64(v),
{
    let mut r: u64 = 0;
    let mut i: u64 = 0;
    while i < 64
        invariant
            i <= 64,
            r == spec_rev_low_u64(v, i as nat),
        decreases 64 - i,
    {
        r = (r << 1u64) | ((v >> i) & 1);
        i = i + 1;
    }
    r
}

/// The polynomial actually fed to the shift register for a nominal `width`:
/// reflected polynomials are bit-reversed, and narrower widths are positioned
/// at the register's shift-out end.
pub open spec fn spec_scaled_poly_u64(width: u8, poly: u64, reflect: bool) -> u64 {
    if reflect {
        spec_reverse_u64(poly) >> ((64 - width) as u64)
    } else {
        poly << ((64 - width) as u64)
    }
}

/// What one table-generation step computes: the value shifted through one
/// byte's worth of register steps, after forward values are positioned at the
/// register's high end.
pub open spec fn spec_crc64_single(poly: u64, reflect: bool, value: u64) -> u64 {
    if reflect {
        byte_shift_u64(poly, true, value)
    } else {
        byte_shift_u64(poly, false, value << 56)
    }
}

/// Computes a single CRC-64 value for table generation.
pub fn crc64_single(poly: u64, reflect: bool, value: u64) -> (r: u64)
    ensures
        r == spec_crc64_single(poly, reflect, value),
{
    let start: u64 = if reflect {
        value
    } else {
        value << 56u64
    };
    let mut v: u64 = start;
    let mut i: u8 = 0;
    while i < 8
        invariant
            i <= 8,
            v == bit_steps_u64(poly, reflect, start, i as nat),
        decreases 8 - i,
    {
        if reflect {
            v = if v & 1 == 1 {
                (v >> 1u64) ^ poly
            } else {
                v >> 1u64
            };
        } else {
            v = if (v >> 63u64) & 1 == 1 {
                (v << 1u64) ^ poly
            } else {
                v << 1u64
            };
        }
        i = i + 1;
    }
    proof {
        lemma_byte_shift_is_bit_steps_u64(poly, reflect, start);
    }
    v
}

/// All 16 lanes of `table` hold the register state after one index byte and
/// `lane` zero bytes.
pub open spec fn spec_table_ok_u64(tpoly: u64, reflect: bool, table: [[u64; 256]; 16]) -> bool {
    forall|e: int, i: int|
        0 <= e < 16 && 0 <= i < 256 ==> #[trigger] table[e][i] == lane_entry_u64(
            tpoly,
            reflect,
            e as nat,
            i as u8,
        )
}

/// Generates a 16-lane lookup table for CRC-64 calculations.
///
/// Lane 0 holds the register after one index byte; lane `e` pushes lane
/// `e - 1` through one more zero byte, so that 16 lookups can consume 16
/// input bytes at once.
pub fn generate_table_u64(width: u8, poly: u64, reflect: bool) -> (table: [[u64; 256]; 16])
    requires
        1 <= width <= 64,
    ensures
        spec_table_ok_u64(spec_scaled_poly_u64(width, poly, reflect), reflect, table),
{
    let tpoly: u64 = if reflect {
        reverse_u64(poly) >> ((64 - width) as u64)
    } else {
        poly << ((64 - width) as u64)
    };

    let mut row0 = [0u64; 256];
    let mut i: usize = 0;
    while i < 256
        invariant
            i <= 256,
            forall|j: int|
                0 <= j < i ==> #[trigger] row0[j] == lane_entry_u64(tpoly, reflect, 0, j as u8),
        decreases 256 - i,
    {
        row0[i] = crc64_single(tpoly, reflect, i as u64);
        i = i + 1;
    }

    let mut table = [[0u64; 256]; 16];
    table[0] = row0;
    let mut prev = row0;
    let mut e: usize = 1;
    while e < 16
        invariant
            1 <= e <= 16,
            forall|j: int|
                0 <= j < 256 ==> #[trigger] row0[j] == lane_entry_u64(tpoly, reflect, 0, j as u8),
            forall|j: int|
                0 <= j < 256 ==> #[trigger] prev[j] == lane_entry_u64(
                    tpoly,
                    reflect,
                    (e - 1) as nat,
                    j as u8,
                ),
            forall|l: int, j: int|
                0 <= l < e && 0 <= j < 256 ==> #[trigger] table[l][j] == lane_entry_u64(
                    tpoly,
                    reflect,
                    l as nat,
                    j as u8,
                ),
        decreases 16 - e,
    {
        let mut row = [0u64; 256];
        let mut i2: usize = 0;
        while i2 < 256
            invariant
                i2 <= 256,
                1 <= e <= 15,
                forall|j: int|
                    0 <= j < 256 ==> #[trigger] row0[j] == lane_entry_u64(
                        tpoly,
                        reflect,
                        0,
                        j as u8,
                    ),
                forall|j: int|
                    0 <= j < 256 ==> #[trigger] prev[j] == lane_entry_u64(
                        tpoly,
                        reflect,
                        (e - 1) as nat,
                        j as u8,
                    ),
                forall|j: int|
                    0 <= j < i2 ==> #[trigger] row[j] == lane_entry_u64(
                        tpoly,
                        reflect,
                        e as nat,
                        j as u8,
                    ),
            decreases 256 - i2,
        {
            let one_lower = prev[i2];
            proof {
                lemma_reg_casts_u64(one_lower);
                lemma_shift_split_u64(tpoly, one_lower);
            }
            if reflect {
                let idx = (one_lower & 0xFF) as usize;
                row[i2] = (one_lower >> 8u64) ^ row0[idx];
                proof {
                    lemma_xor_assoc_u64(
                        byte_shift_u64(tpoly, true, one_lower & 0xFF),
                        one_lower >> 8u64,
                        0,
                    );
                    assert(row[i2 as int] == byte_shift_u64(tpoly, true, one_lower));
                }
            } else {
                let idx = ((one_lower >> 56u64) & 0xFF) as usize;
                row[i2] = (one_lower << 8u64) ^ row0[idx];
                proof {
                    lemma_xor_assoc_u64(
                        byte_shift_u64(tpoly, false, ((one_lower >> 56u64) & 0xFF) << 56u64),
                        one_lower << 8u64,
                        0,
                    );
                    assert(row[i2 as int] == byte_shift_u64(tpoly, false, one_lower));
                }
            }
            i2 = i2 + 1;
        }
        table[e] = row;
        prev = row;
        e = e + 1;
    }
    table
}

/// Native CRC-64 update function using 16-lane lookup tables.
///
/// Processes 16 bytes at a time, then handles remaining bytes with single-byte
/// lookups.  The result is exactly the bit-by-bit CRC of `bytes` for the
/// polynomial the table was generated from.
pub fn native_update_u64(
    state: u64,
    table: &[[u64; 256]; 16],
    reflect: bool,
    bytes: &[u8],
    tpoly: Ghost<u64>,
) -> (r: u64)
    requires
        spec_table_ok_u64(tpoly@, reflect, *table),
    ensures
        r == crc_bytes_u64(tpoly@, reflect, state, bytes@),
{
    let len = bytes.len();
    let mut crc = state;
    let mut i: usize = 0;

    // Process 16 bytes at a time
    while len - i >= 16
        invariant
            i <= len == bytes@.len(),
            spec_table_ok_u64(tpoly@, reflect, *table),
            crc == crc_bytes_u64(tpoly@, reflect, state, bytes@.take(i as int)),
        decreases len - i,
    {
        let ghost block = bytes@.subrange(i as int, i as int + 16);
        let old_crc = crc;
        let m0: u8 = if reflect {
            bytes[i + 0] ^ (#[verifier::truncate] (crc as u8))
        } else {
            bytes[i + 0] ^ (#[verifier::truncate] ((crc >> 56u64) as u8))
        };
        let m1: u8 = if reflect {
            bytes[i + 1] ^ (#[verifier::truncate] ((crc >> 8u64) as u8))
        } else {
            bytes[i + 1] ^ (#[verifier::truncate] ((crc >> 48u64) as u8))
        };
        let m2: u8 = if reflect {
            bytes[i + 2] ^ (#[verifier::truncate] ((crc >> 16u64) as u8))
        } else {
            bytes[i + 2] ^ (#[verifier::truncate] ((crc >> 40u64) as u8))
        };
        let m3: u8 = if reflect {
            bytes[i + 3] ^ (#[verifier::truncate] ((crc >> 24u64) as u8))
        } else {
            bytes[i + 3] ^ (#[verifier::truncate] ((crc >> 32u64) as u8))
        };
        let m4: u8 = if reflect {
            bytes[i + 4] ^ (#[verifier::truncate] ((crc >> 32u64) as u8))
        } else {
            bytes[i + 4] ^ (#[verifier::truncate] ((crc >> 24u64) as u8))
        };
        let m5: u8 = if reflect {
            bytes[i + 5] ^ (#[verifier::truncate] ((crc >> 40u64) as u8))
        } else {
            bytes[i + 5] ^ (#[verifier::truncate] ((crc >> 16u64) as u8))
        };
        let m6: u8 = if reflect {
            bytes[i + 6] ^ (#[verifier::truncate] ((crc >> 48u64) as u8))
        } else {
            bytes[i + 6] ^ (#[verifier::truncate] ((crc >> 8u64) as u8))
        };
        let m7: u8 = if reflect {
            bytes[i + 7] ^ (#[verifier::truncate] ((crc >> 56u64) as u8))
        } else {
            bytes[i + 7] ^ (#[verifier::truncate] (crc as u8))
        };
        crc = table[0][bytes[i + 15] as usize] ^ table[1][bytes[i + 14] as usize] ^ table[2][bytes[i + 13] as usize] ^ table[3][bytes[i + 12] as usize] ^ table[4][bytes[i + 11] as usize] ^ table[5][bytes[i + 10] as usize] ^ table[6][bytes[i + 9] as usize] ^ table[7][bytes[i + 8] as usize] ^ table[8][m7 as usize] ^ table[9][m6 as usize] ^ table[10][m5 as usize] ^ table[11][m4 as usize] ^ table[12][m3 as usize] ^ table[13][m2 as usize] ^ table[14][m1 as usize] ^ table[15][m0 as usize];
        proof {
            assert(block[0] == bytes@[i as int + 0] && block[1] == bytes@[i as int + 1] && block[2] == bytes@[i as int + 2] && block[3] == bytes@[i as int + 3] && block[4] == bytes@[i as int + 4] && block[5] == bytes@[i as int + 5] && block[6] == bytes@[i as int + 6] && block[7] == bytes@[i as int + 7]);
            assert(crc == block_lookup_sum_u64(tpoly@, reflect, old_crc, block));
            lemma_block_u64(tpoly@, reflect, old_crc, block);
            assert(bytes@.take(i as int + 16) =~= bytes@.take(i as int) + block);
            lemma_crc_bytes_append_u64(tpoly@, reflect, state, bytes@.take(i as int), block);
        }
        i = i + 16;
    }

    // Process remaining bytes one at a time
    while i < len
        invariant
            i <= len == bytes@.len(),
            spec_table_ok_u64(tpoly@, reflect, *table),
            crc == crc_bytes_u64(tpoly@, reflect, state, bytes@.take(i as int)),
        decreases len - i,
    {
        let b = bytes[i];
        let old_crc = crc;
        proof {
            lemma_feed_byte_tail_u64(tpoly@, crc, b);
        }
        if reflect {
            let table_index = ((crc ^ (b as u64)) & 0xFF) as usize;
            crc = table[0][table_index] ^ (crc >> 8u64);
        } else {
            let table_index = (((crc >> 56u64) ^ (b as u64)) & 0xFF) as usize;
            crc = table[0][table_index] ^ (crc << 8u64);
        }
        proof {
            assert(crc == feed_byte_u64(tpoly@, reflect, old_crc, b));
            let prefix = bytes@.take(i as int);
            let one = bytes@.subrange(i as int, i as int + 1);
            assert(one.len() == 1 && one[0] == b);
            assert(bytes@.take(i as int + 1) =~= prefix + one);
            lemma_crc_bytes_append_u64(tpoly@, reflect, state, prefix, one);
            assert(one.skip(1) =~= Seq::<u8>::empty());
            assert(crc_bytes_u64(tpoly@, reflect, old_crc, one) == crc_bytes_u64(
                tpoly@,
                reflect,
                feed_byte_u64(tpoly@, reflect, old_crc, b),
                one.skip(1),
            ));
        }
        i = i + 1;
    }
    proof {
        assert(bytes@.take(len as int) =~= bytes@);
    }
    crc
}

} // verus!
