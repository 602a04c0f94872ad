//! The process-wide configuration that gates the fixed-point domain.
use crate::devices::{AmpFxP, FiltFxP};
use vstd::prelude::*;

verus! {

/// The only sample rate for which the fixed-point prewarping constants are
/// precomputed.
pub const SAMPLE_RATE: u32 = 44100;

/// A fixed-point context: immutable once made, and made only for a sample
/// rate the fixed-point devices support.
pub struct ContextFxP {
    sample_rate: u32,
}

impl ContextFxP {
    pub closed spec fn spec_sample_rate(&self) -> u32 {
        self.sample_rate
    }

    /// A fixed-point context for `sample_rate`, or `None` where the
    /// fixed-point devices have no constants for that rate.
    pub fn maybe_create(sample_rate: u32) -> (r: Option<ContextFxP>)
        ensures
            r.is_some() <==> sample_rate == SAMPLE_RATE,
            r.is_some() ==> r.unwrap().spec_sample_rate() == sample_rate,
    {
        if sample_rate == SAMPLE_RATE {
            Some(ContextFxP { sample_rate })
        } else {
            None
        }
    }

    pub fn sample_rate(&self) -> (r: u32)
        ensures
            r == self.spec_sample_rate(),
    {
        self.sample_rate
    }

    /// A filter at rest, for this context's sample rate.
    pub fn filt(&self) -> (r: FiltFxP)
        ensures
            r.state() == (0int, 0int),
    {
        FiltFxP::new()
    }

    /// An amplifier for this context.
    pub fn amp(&self) -> (r: AmpFxP) {
        AmpFxP::new()
    }
}

} // verus!
