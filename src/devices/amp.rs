//! The amplifier: a per-sample gain stage.
use crate::fixedmath::{sample_mul, SampleFxP};
use crate::{chunk_len, STATIC_BUFFER_SIZE};
use vstd::prelude::*;

verus! {

/// A fixed-point amplifier: multiplies a signal by a per-sample gain,
/// saturating the product.
pub struct AmpFxP {
    outbuf: [SampleFxP; STATIC_BUFFER_SIZE],
}

/// The samples an [AmpFxP] produces for `signal` and `gain`.
pub open spec fn amp_output(signal: Seq<SampleFxP>, gain: Seq<SampleFxP>) -> Seq<SampleFxP> {
    Seq::new(
        chunk_len(signal.len() as int, gain.len() as int) as nat,
        |i: int| SampleFxP { bits: sample_mul(signal[i].bits as int, gain[i].bits as int) as i16 },
    )
}

impl AmpFxP {
    pub fn new() -> (r: Self) {
        AmpFxP { outbuf: [SampleFxP { bits: 0 }; STATIC_BUFFER_SIZE] }
    }

    /// Scales `signal` by `gain`, sample by sample.  Only the first
    /// `min(signal.len(), gain.len(), 256)` samples are processed; callers
    /// consume the returned samples and call again with the rest.
    pub fn process(&mut self, signal: &[SampleFxP], gain: &[SampleFxP]) -> (r: &[SampleFxP])
        ensures
            r@ == amp_output(signal@, gain@),
            r@.len() == chunk_len(signal@.len() as int, gain@.len() as int),
    {
        let numsamples: usize = min_len(signal.len(), gain.len());
        let mut i: usize = 0;
        while i < numsamples
            invariant
                numsamples == chunk_len(signal@.len() as int, gain@.len() as int),
                i <= numsamples,
                forall|j: int|
                    0 <= j < i ==> #[trigger] self.outbuf[j] == amp_output(signal@, gain@)[j],
            decreases numsamples - i,
        {
            self.outbuf[i] = signal[i].saturating_mul(gain[i]);
            i += 1;
        }
        let out = &self.outbuf[0..numsamples];
        assert(out@ =~= amp_output(signal@, gain@));
        out
    }
}

/// `min(a, b, STATIC_BUFFER_SIZE)`.
pub fn min_len(a: usize, b: usize) -> (r: usize)
    ensures
        r == chunk_len(a as int, b as int),
{
    let m = if a < b { a } else { b };
    if m < STATIC_BUFFER_SIZE { m } else { STATIC_BUFFER_SIZE }
}

} // verus!
