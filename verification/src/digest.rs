//! Incremental CRC accumulation.

use vstd::prelude::*;

use crate::arch;
use crate::catalog::spec_alg_data;
use crate::enums::CrcAlgorithm;
use crate::arch::software::{spec_scaled_poly_u16, spec_scaled_poly_u32, spec_scaled_poly_u64};
use crate::combine::{
    advance_u16, advance_u32, advance_u64, lemma_raw_combine_u16, lemma_raw_combine_u32,
    lemma_raw_combine_u64, scaled_poly_exec_u16, scaled_poly_exec_u32, scaled_poly_exec_u64,
};
use crate::structs::{
    engine_init, lemma_raw_fields_append, spec_checksum, spec_engine_init, spec_raw_update,
    spec_same_variant, CrcParams,
};

verus! {

/// An incremental CRC accumulator: a running register bound to the
/// parameters it was created with, plus a count of the bytes consumed.
///
/// The register always equals the bit-by-bit CRC of everything fed in so
/// far, so any chunking of the input gives the same final checksum.
pub struct Digest {
    params: CrcParams,
    state: u64,
    amount: u64,
    processed: Ghost<Seq<u8>>,
}

impl Digest {
    /// The parameters this accumulator is bound to.
    pub closed spec fn spec_params(self) -> CrcParams {
        self.params
    }

    /// Every byte fed in since creation or the last reset.
    pub closed spec fn spec_processed(self) -> Seq<u8> {
        self.processed@
    }

    /// The running count of bytes consumed.
    pub closed spec fn spec_amount(self) -> u64 {
        self.amount
    }

    /// Internal consistency: the register equals the bit-level CRC of
    /// everything processed so far, and the byte count matches.
    pub closed spec fn wf(self) -> bool {
        &&& self.params.spec_well_formed()
        &&& self.state == spec_raw_update(
            self.params,
            spec_engine_init(self.params.width, self.params.init, self.params.refin),
            self.processed@,
        )
        &&& self.amount == self.processed@.len()
    }

    /// Constructs an accumulator for a catalogue variant, at its initial
    /// value.
    pub fn new(algorithm: CrcAlgorithm) -> (r: Digest)
        requires
            !algorithm.spec_is_custom(),
        ensures
            r.wf(),
            r.spec_processed() == Seq::<u8>::empty(),
            r.spec_amount() == 0,
            r.spec_params().algorithm == algorithm,
            ({
                let d = spec_alg_data(algorithm);
                r.spec_params().width == d.0 && r.spec_params().poly == d.1 && r.spec_params().init
                    == d.2 && r.spec_params().refin == d.3 && r.spec_params().refout == d.3
                    && r.spec_params().xorout == d.4 && r.spec_params().check == d.5
            }),
    {
        let params = CrcParams::from_algorithm(algorithm);
        Self::new_with_params(params)
    }

    /// Constructs an accumulator for the given parameters, at their initial
    /// value.
    pub fn new_with_params(params: CrcParams) -> (r: Digest)
        requires
            params.spec_well_formed(),
        ensures
            r.wf(),
            r.spec_processed() == Seq::<u8>::empty(),
            r.spec_amount() == 0,
            r.spec_params() == params,
    {
        let start = engine_init(params.width, params.init, params.refin);
        let state: u64 = if params.width == 16 {
            (#[verifier::truncate] (start as u16)) as u64
        } else if params.width == 32 {
            (#[verifier::truncate] (start as u32)) as u64
        } else {
            start
        };
        Digest { params, state, amount: 0, processed: Ghost(Seq::empty()) }
    }

    /// Feeds more bytes into the accumulator.  The result of a later
    /// `finalize` does not depend on how the input was chunked across calls.
    pub fn update(&mut self, buf: &[u8])
        requires
            old(self).wf(),
            old(self).spec_amount() + buf@.len() <= u64::MAX,
        ensures
            final(self).wf(),
            final(self).spec_params() == old(self).spec_params(),
            final(self).spec_processed() == old(self).spec_processed() + buf@,
            final(self).spec_amount() == old(self).spec_amount() + buf@.len(),
    {
        proof {
            lemma_raw_fields_append(
                self.params.width,
                self.params.poly,
                self.params.refin,
                spec_engine_init(self.params.width, self.params.init, self.params.refin),
                self.processed@,
                buf@,
            );
        }
        self.state = arch::update(self.state, buf, self.params);
        self.amount = self.amount + (buf.len() as u64);
        self.processed = Ghost(self.processed@ + buf@);
    }

    /// Presents the current value: the register XORed with the final mask.
    /// The internal state is not altered, so updating may continue.
    pub fn finalize(&self) -> (r: u64)
        requires
            self.wf(),
        ensures
            r == spec_checksum(self.spec_params(), self.spec_processed()),
    {
        self.state ^ self.params.xorout
    }

    /// Returns the register to the initial value and clears the byte count.
    pub fn reset(&mut self)
        requires
            old(self).wf(),
        ensures
            final(self).wf(),
            final(self).spec_params() == old(self).spec_params(),
            final(self).spec_processed() == Seq::<u8>::empty(),
            final(self).spec_amount() == 0,
    {
        let start = engine_init(self.params.width, self.params.init, self.params.refin);
        self.state = if self.params.width == 16 {
            (#[verifier::truncate] (start as u16)) as u64
        } else if self.params.width == 32 {
            (#[verifier::truncate] (start as u32)) as u64
        } else {
            start
        };
        self.amount = 0;
        self.processed = Ghost(Seq::empty());
    }

    /// Presents the current value and resets the accumulator in one
    /// operation.
    pub fn finalize_reset(&mut self) -> (r: u64)
        requires
            old(self).wf(),
        ensures
            r == spec_checksum(old(self).spec_params(), old(self).spec_processed()),
            final(self).wf(),
            final(self).spec_params() == old(self).spec_params(),
            final(self).spec_processed() == Seq::<u8>::empty(),
            final(self).spec_amount() == 0,
    {
        let result = self.state ^ self.params.xorout;
        self.reset();
        result
    }

    /// Algebraically merges another accumulator's bytes into this one, as if
    /// they had been appended after this accumulator's own bytes — without
    /// re-reading any data.
    pub fn combine(&mut self, other: &Digest)
        requires
            old(self).wf(),
            other.wf(),
            spec_same_variant(old(self).spec_params(), other.spec_params()),
            old(self).spec_amount() + other.spec_amount() <= u64::MAX,
        ensures
            final(self).wf(),
            final(self).spec_params() == old(self).spec_params(),
            final(self).spec_processed() == old(self).spec_processed() + other.spec_processed(),
            final(self).spec_amount() == old(self).spec_amount() + other.spec_amount(),
    {
        if self.params.width == 16 {
            let tp = scaled_poly_exec_u16(self.params.poly, self.params.refin);
            let start = engine_init(self.params.width, self.params.init, self.params.refin);
            let adv = advance_u16(
                tp,
                self.params.refin,
                (#[verifier::truncate] (self.state as u16)) ^ (#[verifier::truncate] (
                start as u16)),
                other.amount,
            );
            proof {
                lemma_raw_combine_u16(
                    tp,
                    self.params.refin,
                    spec_engine_init(self.params.width, self.params.init, self.params.refin)
                        as u16,
                    self.processed@,
                    other.processed@,
                );
            }
            self.state = ((#[verifier::truncate] (other.state as u16)) ^ adv) as u64;
        } else if self.params.width == 32 {
            let tp = scaled_poly_exec_u32(self.params.poly, self.params.refin);
            let start = engine_init(self.params.width, self.params.init, self.params.refin);
            let adv = advance_u32(
                tp,
                self.params.refin,
                (#[verifier::truncate] (self.state as u32)) ^ (#[verifier::truncate] (
                start as u32)),
                other.amount,
            );
            proof {
                lemma_raw_combine_u32(
                    tp,
                    self.params.refin,
                    spec_engine_init(self.params.width, self.params.init, self.params.refin)
                        as u32,
                    self.processed@,
                    other.processed@,
                );
            }
            self.state = ((#[verifier::truncate] (other.state as u32)) ^ adv) as u64;
        } else {
            let tp = scaled_poly_exec_u64(self.params.poly, self.params.refin);
            let start = engine_init(self.params.width, self.params.init, self.params.refin);
            let adv = advance_u64(tp, self.params.refin, self.state ^ start, other.amount);
            proof {
                lemma_raw_combine_u64(
                    tp,
                    self.params.refin,
                    spec_engine_init(self.params.width, self.params.init, self.params.refin),
                    self.processed@,
                    other.processed@,
                );
            }
            self.state = other.state ^ adv;
        }
        self.amount = self.amount + other.amount;
        self.processed = Ghost(self.processed@ + other.processed@);
    }

    /// Gets the amount of data processed so far, in bytes.
    pub fn get_amount(&self) -> (r: u64)
        ensures
            r == self.spec_amount(),
    {
        self.amount
    }
}

} // verus!
