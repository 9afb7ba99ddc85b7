//! Fast, verified CRC checksum computation for 16-, 32- and 64-bit variants.
//!
//! The library computes CRC checksums for the variants of the public CRC
//! catalogue (plus user-defined polynomials) with a portable 16-lane
//! table-driven engine.  The engine is verified against a bit-level model of
//! the Rocksoft CRC semantics: every update is proved equal to processing the
//! input one bit at a time through the linear feedback shift register that the
//! catalogue parameters describe.

use vstd::prelude::*;

pub mod arch;
pub mod catalog;
pub mod combine;
pub mod consts;
pub mod digest;
pub mod enums;
pub mod ffi;
pub mod keys;
pub mod laws;
pub mod model;
pub mod structs;

pub use catalog::spec_alg_data;
pub use combine::{
    checksum_combine, checksum_combine_with_params, spec_checksum_combine_algorithm,
    spec_checksum_combine_fields,
};
pub use digest::Digest;
pub use ffi::{CrcFastAlgorithm, CrcFastParams};
pub use enums::{CrcAlgorithm, DataChunkProcessor};
pub use structs::{
    engine_init, spec_checksum, spec_checksum_fields, spec_engine_init, spec_raw_fields,
    spec_raw_update, Algorithm, CrcKeysStorage, CrcParams, CrcState, Width16, Width32, Width64,
};

verus! {

/// The presented checksum of `data` for a catalogue variant.
pub open spec fn spec_checksum_algorithm(algorithm: CrcAlgorithm, data: Seq<u8>) -> u64 {
    let d = spec_alg_data(algorithm);
    spec_checksum_fields(d.0, d.1, d.3, d.2, d.4, data)
}

/// Computes a CRC checksum for the specified algorithm in one shot:
/// equivalent to creating a [`Digest`], updating it with all of `data` and
/// finalizing.
pub fn checksum(algorithm: CrcAlgorithm, data: &[u8]) -> (r: u64)
    requires
        !algorithm.spec_is_custom(),
    ensures
        r == spec_checksum_algorithm(algorithm, data@),
{
    let params = CrcParams::from_algorithm(algorithm);
    checksum_with_params(params, data)
}

/// Computes a CRC checksum in one shot for custom parameters.
pub fn checksum_with_params(params: CrcParams, data: &[u8]) -> (r: u64)
    requires
        params.spec_well_formed(),
    ensures
        r == spec_checksum(params, data@),
{
    arch::update(
        engine_init(params.width, params.init, params.refin),
        data,
        params,
    ) ^ params.xorout
}

/// Gets the target build properties (engine implementation identifier) used
/// to calculate checksums for the given algorithm.
pub fn get_calculator_target(_algorithm: CrcAlgorithm) -> (r: String) {
    arch::get_target()
}

} // verus!
