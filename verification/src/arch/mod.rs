//! Entry point for the CRC engine.
//!
//! Every update is served by the portable table-driven implementation in
//! [`software`]; architectures without vector acceleration always take this
//! path, and it is the one whose behaviour is verified here.

use vstd::prelude::*;

pub mod software;

use crate::model::{crc_bytes_u16, crc_bytes_u32, crc_bytes_u64};
use crate::structs::{spec_raw_update, CrcParams};
use software::{
    generate_table_u16, generate_table_u32, generate_table_u64, native_update_u16,
    native_update_u32, native_update_u64, spec_scaled_poly_u16, spec_scaled_poly_u32,
    spec_scaled_poly_u64,
};

verus! {

/// Human-readable identifier of the engine implementation that serves all
/// checksum calls in this build.
pub fn get_target() -> (r: String) {
    "software-table-16-lane".to_string()
}

/// Updates a 16-bit register with `data`: the lookup table for the
/// parameters' polynomial is generated and the table path is run over it.
pub fn update_crc16(state: u16, data: &[u8], params: &CrcParams) -> (r: u16)
    requires
        params.width == 16,
    ensures
        r == crc_bytes_u16(
            spec_scaled_poly_u16(16, params.poly as u16, params.refin),
            params.refin,
            state,
            data@,
        ),
{
    let table = generate_table_u16(
        params.width,
        #[verifier::truncate] (params.poly as u16),
        params.refin,
    );
    native_update_u16(
        state,
        &table,
        params.refin,
        data,
        Ghost(spec_scaled_poly_u16(16, params.poly as u16, params.refin)),
    )
}

/// Updates a 32-bit register with `data` through the table path.
pub fn update_crc32(state: u32, data: &[u8], params: &CrcParams) -> (r: u32)
    requires
        params.width == 32,
    ensures
        r == crc_bytes_u32(
            spec_scaled_poly_u32(32, params.poly as u32, params.refin),
            params.refin,
            state,
            data@,
        ),
{
    let table = generate_table_u32(
        params.width,
        #[verifier::truncate] (params.poly as u32),
        params.refin,
    );
    native_update_u32(
        state,
        &table,
        params.refin,
        data,
        Ghost(spec_scaled_poly_u32(32, params.poly as u32, params.refin)),
    )
}

/// Updates a 64-bit register with `data` through the table path.
pub fn update_crc64(state: u64, data: &[u8], params: &CrcParams) -> (r: u64)
    requires
        params.width == 64,
    ensures
        r == crc_bytes_u64(
            spec_scaled_poly_u64(64, params.poly, params.refin),
            params.refin,
            state,
            data@,
        ),
{
    let table = generate_table_u64(params.width, params.poly, params.refin);
    native_update_u64(
        state,
        &table,
        params.refin,
        data,
        Ghost(spec_scaled_poly_u64(64, params.poly, params.refin)),
    )
}

/// Main entry point: updates a running register (widened to 64 bits) with
/// `data`, dispatching on the parameters' width.  The result is the register
/// after feeding every bit of `data` through the shift register that the
/// parameters describe.
pub fn update(state: u64, bytes: &[u8], params: CrcParams) -> (r: u64)
    requires
        params.width == 16 || params.width == 32 || params.width == 64,
    ensures
        r == spec_raw_update(params, state, bytes@),
{
    if params.width == 16 {
        update_crc16(#[verifier::truncate] (state as u16), bytes, &params) as u64
    } else if params.width == 32 {
        update_crc32(#[verifier::truncate] (state as u32), bytes, &params) as u64
    } else {
        update_crc64(state, bytes, &params)
    }
}

} // verus!
