//! Parameter and state types for CRC computation.

use vstd::prelude::*;

use crate::arch::software::{
    reverse_u16, reverse_u32, reverse_u64, spec_reverse_u16, spec_reverse_u32, spec_reverse_u64,
    spec_scaled_poly_u16, spec_scaled_poly_u32, spec_scaled_poly_u64,
};
use crate::enums::CrcAlgorithm;
use crate::keys::{generate_keys, spec_keys_ok_u32, spec_keys_ok_u64};
use crate::model::{crc_bytes_u16, crc_bytes_u32, crc_bytes_u64};

verus! {

/// The register after feeding `data` starting from `state`, for the variant
/// that `(width, poly, reflect)` describe: the width-matching bit-by-bit
/// model, widened to 64 bits.
pub open spec fn spec_raw_fields(
    width: u8,
    poly: u64,
    reflect: bool,
    state: u64,
    data: Seq<u8>,
) -> u64 {
    if width == 16 {
        crc_bytes_u16(
            spec_scaled_poly_u16(16, poly as u16, reflect),
            reflect,
            state as u16,
            data,
        ) as u64
    } else if width == 32 {
        crc_bytes_u32(
            spec_scaled_poly_u32(32, poly as u32, reflect),
            reflect,
            state as u32,
            data,
        ) as u64
    } else {
        crc_bytes_u64(spec_scaled_poly_u64(64, poly, reflect), reflect, state, data)
    }
}

/// The initial register value as the engine consumes it: reflected variants
/// hold the bit-reversed register, so their catalogue `init` enters the
/// engine bit-reversed over the register width.
pub open spec fn spec_engine_init(width: u8, init: u64, reflect: bool) -> u64 {
    if !reflect {
        init
    } else if width == 16 {
        spec_reverse_u16(init as u16) as u64
    } else if width == 32 {
        spec_reverse_u32(init as u32) as u64
    } else {
        spec_reverse_u64(init)
    }
}

/// The initial register value as the engine consumes it, executably.
pub fn engine_init(width: u8, init: u64, reflect: bool) -> (r: u64)
    ensures
        r == spec_engine_init(width, init, reflect),
{
    if !reflect {
        init
    } else if width == 16 {
        reverse_u16(#[verifier::truncate] (init as u16)) as u64
    } else if width == 32 {
        reverse_u32(#[verifier::truncate] (init as u32)) as u64
    } else {
        reverse_u64(init)
    }
}

/// The presented checksum of `data` for the variant that the scalar fields
/// describe: the register after `data` (starting from the engine's form of
/// the initial value), XORed with the final mask.  The result depends on
/// nothing but these five parameters and the input.
pub open spec fn spec_checksum_fields(
    width: u8,
    poly: u64,
    reflect: bool,
    init: u64,
    xorout: u64,
    data: Seq<u8>,
) -> u64 {
    spec_raw_fields(width, poly, reflect, spec_engine_init(width, init, reflect), data) ^ xorout
}

/// The register after feeding `data` starting from `state`, under `params`.
pub open spec fn spec_raw_update(params: CrcParams, state: u64, data: Seq<u8>) -> u64 {
    spec_raw_fields(params.width, params.poly, params.refin, state, data)
}

/// Two parameter sets that describe the same checksum function: they agree
/// on every field the computation reads.
pub open spec fn spec_same_variant(p: CrcParams, q: CrcParams) -> bool {
    p.width == q.width && p.poly == q.poly && p.init == q.init && p.refin == q.refin && p.refout
        == q.refout && p.xorout == q.xorout
}

/// The presented checksum of `data` under `params`.
pub open spec fn spec_checksum(params: CrcParams, data: Seq<u8>) -> u64 {
    spec_checksum_fields(params.width, params.poly, params.refin, params.init, params.xorout, data)
}

/// Feeding a concatenation equals feeding its parts one after the other, at
/// the widened-register level: the register may be carried across calls.
pub proof fn lemma_raw_fields_append(
    width: u8,
    poly: u64,
    reflect: bool,
    state: u64,
    a: Seq<u8>,
    b: Seq<u8>,
)
    ensures
        spec_raw_fields(width, poly, reflect, state, a + b) == spec_raw_fields(
            width,
            poly,
            reflect,
            spec_raw_fields(width, poly, reflect, state, a),
            b,
        ),
{
    if width == 16 {
        crate::model::lemma_crc_bytes_append_u16(
            spec_scaled_poly_u16(16, poly as u16, reflect),
            reflect,
            state as u16,
            a,
            b,
        );
    } else if width == 32 {
        crate::model::lemma_crc_bytes_append_u32(
            spec_scaled_poly_u32(32, poly as u32, reflect),
            reflect,
            state as u32,
            a,
            b,
        );
    } else {
        crate::model::lemma_crc_bytes_append_u64(
            spec_scaled_poly_u64(64, poly, reflect),
            reflect,
            state,
            a,
            b,
        );
    }
}

/// CRC algorithm parameters matching the CRC catalogue specification.
///
/// This struct describes a CRC algorithm using the fields of the catalogue of
/// parametrised CRC algorithms (width, polynomial, initial value, reflection
/// flags, final XOR and check value).
#[derive(Clone, Copy, Debug, PartialEq, Eq)]
pub struct Algorithm<W> {
    /// The number of bit cells in the linear feedback shift register; the
    /// degree of the generator polynomial.
    pub width: u8,
    /// The generator polynomial that sets the feedback tap positions of the
    /// shift register.
    pub poly: W,
    /// The settings of the bit cells at the start of each calculation, before
    /// reading the first message bit.
    pub init: W,
    /// If `true`, characters are read bit-by-bit, least significant bit (LSB)
    /// first; if `false`, most significant bit (MSB) first.
    pub refin: bool,
    /// If `true`, the contents of the register after reading the last message
    /// bit are reflected before presentation; if `false`, they are
    /// unreflected.
    pub refout: bool,
    /// The XOR value applied to the contents of the register after the last
    /// message bit has been read and after the optional reflection.
    pub xorout: W,
    /// The contents of the register after initialising, reading the UTF-8
    /// string `"123456789"`, optionally reflecting, and applying the final
    /// XOR.
    pub check: W,
    /// The contents of the register after initialising, reading an error-free
    /// codeword and optionally reflecting the register, but not applying the
    /// final XOR.
    pub residue: W,
}

/// CRC-16 width marker: 16-bit registers folded in 32-bit lanes.
#[derive(Clone, Copy)]
pub struct Width16;

/// CRC-32 width marker: 32-bit registers folded in 32-bit lanes.
#[derive(Clone, Copy)]
pub struct Width32;

/// CRC-64 width marker: 64-bit registers folded in 64-bit lanes.
#[derive(Clone, Copy)]
pub struct Width64;

/// CRC state wrapper pairing a register carrier with its reflection mode.
#[derive(Debug, Clone, Copy)]
pub struct CrcState<T> {
    pub value: T,
    pub reflected: bool,
}

/// Storage for a generated set of reduction constants.  The single current
/// format holds the 23 keys used by 256-byte folding; the enum leaves room
/// for future formats with more keys.
#[derive(Clone, Copy, Debug)]
pub enum CrcKeysStorage {
    KeysFold256([u64; 23]),
}

impl CrcKeysStorage {
    /// The stored keys as an array, whatever the storage format.
    pub open spec fn spec_keys(self) -> [u64; 23] {
        match self {
            CrcKeysStorage::KeysFold256(keys) => keys,
        }
    }

    /// Wraps a 23-key array in the 256-byte-folding storage format.
    pub fn from_keys_fold_256(keys: [u64; 23]) -> (r: CrcKeysStorage)
        ensures
            r.spec_keys() == keys,
    {
        CrcKeysStorage::KeysFold256(keys)
    }

    /// Gets the key at `index`, or 0 when `index` is out of bounds.
    pub fn get_key(&self, index: usize) -> (r: u64)
        ensures
            r == if index < 23 {
                self.spec_keys()[index as int]
            } else {
                0u64
            },
    {
        match self {
            CrcKeysStorage::KeysFold256(keys) => {
                if index < 23 {
                    keys[index]
                } else {
                    0
                }
            },
        }
    }

    /// The number of keys this storage format holds.
    pub fn key_count(&self) -> (r: usize)
        ensures
            r == 23,
    {
        match self {
            CrcKeysStorage::KeysFold256(_) => 23,
        }
    }

    /// The stored keys as a plain 23-element array.
    pub fn to_keys_array_23(&self) -> (r: [u64; 23])
        ensures
            r == self.spec_keys(),
    {
        match self {
            CrcKeysStorage::KeysFold256(keys) => *keys,
        }
    }
}

/// Complete description of one CRC variant: its catalogue parameters plus the
/// reduction constants generated for them.
#[derive(Clone, Copy, Debug)]
pub struct CrcParams {
    pub algorithm: CrcAlgorithm,
    pub name: &'static str,
    pub width: u8,
    pub poly: u64,
    pub init: u64,
    /// The initial register value as the folding engine consumes it: for
    /// reflected 16-bit variants the 16-bit value is bit-reversed.
    pub init_algorithm: u64,
    pub refin: bool,
    pub refout: bool,
    pub xorout: u64,
    pub check: u64,
    pub keys: CrcKeysStorage,
}

impl CrcParams {
    /// The widths the engine supports, with matching input and output
    /// reflection.
    pub open spec fn spec_well_formed(self) -> bool {
        (self.width == 16 || self.width == 32 || self.width == 64) && self.refin == self.refout
    }

    /// The invariant of every constructed parameter set: the stored keys were
    /// generated from exactly this `(width, poly, refin)` triple.
    pub open spec fn spec_keys_consistent(self) -> bool {
        if self.width <= 32 {
            spec_keys_ok_u32(
                (self.poly as u32) << ((32 - self.width) as u32),
                self.refin,
                self.keys.spec_keys(),
            )
        } else {
            spec_keys_ok_u64(self.poly, self.refin, self.keys.spec_keys())
        }
    }

    /// The initial register value handed to the folding engine for the given
    /// width, initial value and reflection mode.
    pub open spec fn spec_init_algorithm(width: u8, init: u64, reflected: bool) -> u64 {
        spec_engine_init(width, init, reflected)
    }

    /// Creates custom CRC parameters for a given set of catalogue-style CRC
    /// parameters, generating the reduction constants for the polynomial.
    ///
    /// Does not support mismatched `refin`/`refout` parameters, so both take
    /// the single `reflected` value.  The `check` value is recorded for the
    /// caller's own self-tests and is not verified here.
    pub fn new(
        name: &'static str,
        width: u8,
        poly: u64,
        init: u64,
        reflected: bool,
        xorout: u64,
        check: u64,
    ) -> (r: Self)
        requires
            width == 16 || width == 32 || width == 64,
        ensures
            r.algorithm == CrcAlgorithm::CrcCustom,
            r.width == width,
            r.poly == poly,
            r.init == init,
            r.init_algorithm == Self::spec_init_algorithm(width, init, reflected),
            r.refin == reflected,
            r.refout == reflected,
            r.xorout == xorout,
            r.check == check,
            r.spec_well_formed(),
            r.spec_keys_consistent(),
    {
        let keys_array = generate_keys(width, poly, reflected);
        let keys = CrcKeysStorage::from_keys_fold_256(keys_array);

        // For reflected variants, bit-reverse the init value for the folding
        // engine
        let init_algorithm = engine_init(width, init, reflected);

        CrcParams {
            algorithm: CrcAlgorithm::CrcCustom,
            name,
            width,
            poly,
            init,
            init_algorithm,
            refin: reflected,
            refout: reflected,
            xorout,
            check,
            keys,
        }
    }

    /// Gets a key at the specified index, returning 0 if out of bounds.
    /// This provides safe access regardless of internal key storage format.
    pub fn get_key(&self, index: usize) -> (r: u64)
        ensures
            r == if index < 23 {
                self.keys.spec_keys()[index as int]
            } else {
                0u64
            },
    {
        self.keys.get_key(index)
    }

    /// Gets a key at the specified index, returning `None` if out of bounds.
    /// This provides optional key access for cases where bounds checking is
    /// needed.
    pub fn get_key_checked(&self, index: usize) -> (r: Option<u64>)
        ensures
            index < 23 ==> r == Some(self.keys.spec_keys()[index as int]),
            index >= 23 ==> r is None,
    {
        if index < self.keys.key_count() {
            Some(self.keys.get_key(index))
        } else {
            None
        }
    }

    /// Returns the number of keys available in this `CrcParams` instance.
    pub fn key_count(&self) -> (r: usize)
        ensures
            r == 23,
    {
        self.keys.key_count()
    }
}

} // verus!
