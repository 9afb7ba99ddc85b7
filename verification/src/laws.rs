//! Library-wide properties of the checksum semantics, stated and proved in
//! one place.

use vstd::prelude::*;

use crate::structs::{
    lemma_raw_fields_append, spec_checksum, spec_checksum_fields, spec_engine_init,
    spec_raw_fields, spec_same_variant, CrcParams,
};

verus! {

/// The register after feeding a list of chunks one update call at a time,
/// starting from `state`.
pub open spec fn spec_chunked_register(
    width: u8,
    poly: u64,
    reflect: bool,
    state: u64,
    chunks: Seq<Seq<u8>>,
) -> u64
    decreases chunks.len(),
{
    if chunks.len() == 0 {
        state
    } else {
        spec_chunked_register(
            width,
            poly,
            reflect,
            spec_raw_fields(width, poly, reflect, state, chunks.first()),
            chunks.drop_first(),
        )
    }
}

/// `state` holds a value that fits the nominal register width.
pub open spec fn spec_state_in_width(width: u8, state: u64) -> bool {
    &&& width == 16 ==> state <= 0xFFFF
    &&& width == 32 ==> state <= 0xFFFF_FFFF
}

/// Chunked updates equal one update over the concatenation, for any way of
/// splitting the input and any starting register.
pub proof fn lemma_chunked_register(
    width: u8,
    poly: u64,
    reflect: bool,
    state: u64,
    chunks: Seq<Seq<u8>>,
)
    requires
        spec_state_in_width(width, state),
    ensures
        spec_chunked_register(width, poly, reflect, state, chunks) == spec_raw_fields(
            width,
            poly,
            reflect,
            state,
            chunks.flatten(),
        ),
    decreases chunks.len(),
{
    if chunks.len() == 0 {
        assert(chunks.flatten() =~= Seq::<u8>::empty());
    } else {
        let fed = spec_raw_fields(width, poly, reflect, state, chunks.first());
        lemma_chunked_register(width, poly, reflect, fed, chunks.drop_first());
        lemma_raw_fields_append(
            width,
            poly,
            reflect,
            state,
            chunks.first(),
            chunks.drop_first().flatten(),
        );
    }
}

/// Incremental equivalence: for every way of splitting a byte sequence into
/// chunks, feeding the chunks through an accumulator one at a time and
/// finalizing equals the one-shot checksum of the whole sequence.  The
/// accumulator starts at the register's initial value and finalizing applies
/// the final XOR mask.
pub proof fn lemma_incremental_equivalence(
    width: u8,
    poly: u64,
    reflect: bool,
    init: u64,
    xorout: u64,
    chunks: Seq<Seq<u8>>,
)
    ensures
        spec_chunked_register(
            width,
            poly,
            reflect,
            spec_raw_fields(
                width,
                poly,
                reflect,
                spec_engine_init(width, init, reflect),
                Seq::empty(),
            ),
            chunks,
        ) ^ xorout == spec_checksum_fields(width, poly, reflect, init, xorout, chunks.flatten()),
{
    let start = spec_engine_init(width, init, reflect);
    let s0 = spec_raw_fields(width, poly, reflect, start, Seq::empty());
    lemma_chunked_register(width, poly, reflect, s0, chunks);
    lemma_raw_fields_append(width, poly, reflect, start, Seq::empty(), chunks.flatten());
    assert(Seq::<u8>::empty() + chunks.flatten() =~= chunks.flatten());
}

/// Custom-parameter equivalence: two parameter sets that agree on width,
/// polynomial, initial value, reflection and final XOR produce identical
/// checksums for every input, whether they came from the catalogue or from a
/// runtime constructor.
pub proof fn lemma_custom_params_equivalence(p: CrcParams, q: CrcParams, data: Seq<u8>)
    requires
        spec_same_variant(p, q),
    ensures
        spec_checksum(p, data) == spec_checksum(q, data),
{
}

} // verus!
