//! The two-pole state-variable filter, with simultaneous low-, band- and
//! high-pass outputs.
use crate::fixedmath::{
    floor_shr, lemma_mul_bound, midi_note_to_frequency, note_freq, one_over_one_plus,
    recip_approx, sat_i16, sat_i32, saturate_i16, saturate_i32, shr, tan_approx, tan_fixed,
    NoteFxP, SampleFxP, ScalarFxP,
};
use crate::{chunk_len, STATIC_BUFFER_SIZE};
use vstd::prelude::*;

verus! {

/// The output of a filter, consisting of low-, band-, and high-pass signals.
pub struct FiltOutput<'a, Smp> {
    /// Low-Pass
    pub low: &'a [Smp],
    /// Band-Pass
    pub band: &'a [Smp],
    /// High-Pass
    pub high: &'a [Smp],
}

/// Parameters for a filter.
pub struct FiltParams<'a, Smp> {
    /// The cutoff frequency, expressed as a MIDI note number
    pub cutoff: &'a [Smp],
    /// The resonance, expressed as a value between zero and one
    pub resonance: &'a [Smp],
}

impl<'a, Smp> FiltParams<'a, Smp> {
    /// The length of the input parameters, defined as the length of the
    /// shortest input slice.
    pub fn len(&self) -> (r: usize)
        ensures
            r == (if self.cutoff@.len() < self.resonance@.len() {
                self.cutoff@.len()
            } else {
                self.resonance@.len()
            }),
    {
        if self.cutoff.len() < self.resonance.len() {
            self.cutoff.len()
        } else {
            self.resonance.len()
        }
    }
}

/// The output of a [FiltFxP], consisting of low-, band-, and high-pass signals.
pub struct FiltOutputFxP<'a> {
    /// Low-Pass
    pub low: &'a [SampleFxP],
    /// Band-Pass
    pub band: &'a [SampleFxP],
    /// High-Pass
    pub high: &'a [SampleFxP],
}

/// Parameters for a [FiltFxP].
pub struct FiltParamsFxP<'a> {
    /// The cutoff frequency of the filter, as a fixed-point MIDI note number
    pub cutoff: &'a [NoteFxP],
    /// The resonance of the filter, as a number in `[0, 1)`
    pub resonance: &'a [ScalarFxP],
}

impl<'a> FiltParamsFxP<'a> {
    /// The length of the parameters, defined as the length of the shortest slice.
    pub fn len(&self) -> (r: usize)
        ensures
            r == (if self.cutoff@.len() < self.resonance@.len() {
                self.cutoff@.len()
            } else {
                self.resonance@.len()
            }),
    {
        if self.cutoff.len() < self.resonance.len() {
            self.cutoff.len()
        } else {
            self.resonance.len()
        }
    }
}

/// The highest resonance the filter admits (0.16 format); anything above is
/// clamped to it, which keeps the filter stable.
pub const RES_MAX: u16 = 0xF000;

/// The ratio `4096 * 2 * pi / 44100` as a 0.32 value: turns a 14.2 frequency
/// into the prewarping angle `pi * f / 44100` once shifted.
pub const FRAC_4096_2PI_SR: u64 = 0x9565925d;

/// The angle `pi * f / 44100` in radians (0.16 format) for a 14.2 frequency,
/// saturated below one radian.
pub open spec fn prewarp_angle(f: int) -> int {
    let w = f * FRAC_4096_2PI_SR / 0x8000_0000;
    if w > 0xffff {
        0xffff
    } else {
        w
    }
}

/// The prewarped gain `tan(pi * f_c / sample_rate)` of the analog prototype
/// for a 7.9 cutoff note, as a 1.15 value.
pub open spec fn prewarped_gain(note: int) -> int {
    tan_approx(prewarp_angle(note_freq(note)))
}

/// One sample of the filter: from the state `(low_z, band_z)` (12.20
/// values), an input sample, a cutoff note and a resonance, the low-, band-
/// and high-pass outputs followed by the next state.
pub open spec fn filt_step(low_z: int, band_z: int, x: int, note: int, q: int) -> (
    int,
    int,
    int,
    int,
    int,
) {
    let res = 0xffff - (if q < RES_MAX { q } else { RES_MAX as int });
    let g = prewarped_gain(note);
    let k = g * g / 2 + 2 * (res * g / 4);
    let inv = recip_approx(k).0;
    let s = recip_approx(k).1;
    let g2r = (res + g) / 4;
    let feedback = g2r * sat_i16(shr(band_z, 8));
    let high_num = sat_i16(shr(x * 0x100 - shr(feedback, 5) - low_z, 8));
    let high = sat_i16(shr(high_num * inv, (15 + s) as nat));
    let band_gain = shr(g * high, 7);
    let band = sat_i32(band_gain + band_z);
    let band_out = sat_i16(shr(band, 8));
    let low_gain = shr(g * band_out, 7);
    let low = sat_i32(low_gain + low_z);
    let low_out = sat_i16(shr(low, 8));
    (low_out, band_out, high, sat_i32(low + low_gain), sat_i32(band + band_gain))
}

/// The outputs and final state of a filter run over the first `n` samples.
pub struct FiltTrace {
    pub low: Seq<SampleFxP>,
    pub band: Seq<SampleFxP>,
    pub high: Seq<SampleFxP>,
    pub low_z: int,
    pub band_z: int,
}

/// The filter run from state `(low_z, band_z)` over the first `n` samples
/// of the input and parameter streams.
pub open spec fn filt_run(
    low_z: int,
    band_z: int,
    input: Seq<SampleFxP>,
    cutoff: Seq<NoteFxP>,
    resonance: Seq<ScalarFxP>,
    n: nat,
) -> FiltTrace
    decreases n,
{
    if n == 0 {
        FiltTrace { low: seq![], band: seq![], high: seq![], low_z, band_z }
    } else {
        let prev = filt_run(low_z, band_z, input, cutoff, resonance, (n - 1) as nat);
        let i = n - 1;
        let o = filt_step(
            prev.low_z,
            prev.band_z,
            input[i].bits as int,
            cutoff[i].bits as int,
            resonance[i].bits as int,
        );
        FiltTrace {
            low: prev.low.push(SampleFxP { bits: o.0 as i16 }),
            band: prev.band.push(SampleFxP { bits: o.1 as i16 }),
            high: prev.high.push(SampleFxP { bits: o.2 as i16 }),
            low_z: o.3,
            band_z: o.4,
        }
    }
}

/// A 2-pole, fixed-point, state variable filter with low, band, and high
/// pass output signals.
pub struct FiltFxP {
    low: [SampleFxP; STATIC_BUFFER_SIZE],
    band: [SampleFxP; STATIC_BUFFER_SIZE],
    high: [SampleFxP; STATIC_BUFFER_SIZE],
    low_z: i32,
    band_z: i32,
}

impl FiltFxP {
    /// The filter's memory: the low- and band-pass integrator states, as
    /// 12.20 values.
    pub closed spec fn state(&self) -> (int, int) {
        (self.low_z as int, self.band_z as int)
    }

    /// Constructor: a filter at rest.
    pub fn new() -> (r: Self)
        ensures
            r.state() == (0int, 0int),
    {
        FiltFxP {
            low: [SampleFxP { bits: 0 }; STATIC_BUFFER_SIZE],
            band: [SampleFxP { bits: 0 }; STATIC_BUFFER_SIZE],
            high: [SampleFxP { bits: 0 }; STATIC_BUFFER_SIZE],
            low_z: 0,
            band_z: 0,
        }
    }

    /// The prewarped gain of the equivalent analog circuit.  The tangent
    /// approximation makes it fairly inaccurate at high frequencies (from
    /// about half Nyquist, 11kHz at a 44.1kHz sample rate).
    pub fn prewarped_gain(n: NoteFxP) -> (r: u16)
        ensures
            r as int == prewarped_gain(n.bits as int),
    {
        let f_c: u64 = midi_note_to_frequency(n) as u64;
        assert(f_c * FRAC_4096_2PI_SR < 0x1_0000 * 0x1_0000_0000) by (nonlinear_arith)
            requires
                f_c < 0x1_0000,
        ;
        let w: u64 = f_c * FRAC_4096_2PI_SR / 0x8000_0000;
        let omega_d: u16 = if w > 0xffff {
            0xffff
        } else {
            w as u16
        };
        tan_fixed(omega_d)
    }

    /// One sample of the filter (see [filt_step]).
    fn step(low_z: i32, band_z: i32, x: i16, note: NoteFxP, q: ScalarFxP) -> (r: (
        i16,
        i16,
        i16,
        i32,
        i32,
    ))
        ensures
            (r.0 as int, r.1 as int, r.2 as int, r.3 as int, r.4 as int) == filt_step(
                low_z as int,
                band_z as int,
                x as int,
                note.bits as int,
                q.bits as int,
            ),
    {
        let qb: u64 = q.bits as u64;
        let res: u64 = 0xffff - (if qb < RES_MAX as u64 { qb } else { RES_MAX as u64 });
        let g: u64 = Self::prewarped_gain(note) as u64;
        proof {
            lemma_mul_bound(g as int, g as int, 0xffff, 0xffff);
            lemma_mul_bound(res as int, g as int, 0xffff, 0xffff);
        }
        let k: u64 = g * g / 2 + 2 * (res * g / 4);
        assert(k <= 0xffff_ffff);
        let (inv, s) = one_over_one_plus(k as u32);
        let g2r: i64 = ((res + g) / 4) as i64;
        let band_sat: i64 = saturate_i16(floor_shr(band_z as i64, 8)) as i64;
        proof {
            lemma_mul_bound(g2r as int, band_sat as int, 0x8000, 0x8000);
        }
        let feedback: i64 = g2r * band_sat;
        let high_num: i64 = saturate_i16(
            floor_shr((x as i64) * 0x100 - floor_shr(feedback, 5) - low_z as i64, 8),
        ) as i64;
        proof {
            lemma_mul_bound(high_num as int, inv as int, 0x8000, 0x8000);
        }
        let high: i64 = saturate_i16(floor_shr(high_num * (inv as i64), 15 + s)) as i64;
        proof {
            lemma_mul_bound(g as int, high as int, 0x1_0000, 0x8000);
        }
        let band_gain: i64 = floor_shr((g as i64) * high, 7);
        let band: i64 = saturate_i32(band_gain + band_z as i64) as i64;
        let band_out: i64 = saturate_i16(floor_shr(band, 8)) as i64;
        proof {
            lemma_mul_bound(g as int, band_out as int, 0x1_0000, 0x8000);
        }
        let low_gain: i64 = floor_shr((g as i64) * band_out, 7);
        let low: i64 = saturate_i32(low_gain + low_z as i64) as i64;
        let low_out: i64 = saturate_i16(floor_shr(low, 8)) as i64;
        (
            low_out as i16,
            band_out as i16,
            high as i16,
            saturate_i32(low + low_gain),
            saturate_i32(band + band_gain),
        )
    }

    /// Runs the filter on the provided input and parameters.
    ///
    /// The output slices may be shorter than the inputs: they hold
    /// `min(input.len(), params.len(), 256)` samples.  Callers copy them into
    /// their own buffers before calling again with the remainder.
    pub fn process(&mut self, input: &[SampleFxP], params: FiltParamsFxP) -> (r: FiltOutputFxP)
        ensures
            ({
                let n = chunk_len(
                    input@.len() as int,
                    chunk_len(params.cutoff@.len() as int, params.resonance@.len() as int),
                );
                let t = filt_run(
                    old(self).state().0,
                    old(self).state().1,
                    input@,
                    params.cutoff@,
                    params.resonance@,
                    n as nat,
                );
                &&& r.low@.len() == n
                &&& r.low@ == t.low
                &&& r.band@ == t.band
                &&& r.high@ == t.high
                &&& final(self).state() == (t.low_z, t.band_z)
            }),
    {
        let cutoff = params.cutoff;
        let resonance = params.resonance;
        let plen: usize = if cutoff.len() < resonance.len() {
            cutoff.len()
        } else {
            resonance.len()
        };
        let numsamples: usize = if input.len() < plen {
            input.len()
        } else {
            plen
        };
        let numsamples: usize = if numsamples < STATIC_BUFFER_SIZE {
            numsamples
        } else {
            STATIC_BUFFER_SIZE
        };
        let ghost lz0 = self.low_z as int;
        let ghost bz0 = self.band_z as int;
        let mut i: usize = 0;
        while i < numsamples
            invariant
                numsamples <= STATIC_BUFFER_SIZE,
                numsamples <= input@.len(),
                numsamples <= cutoff@.len(),
                numsamples <= resonance@.len(),
                i <= numsamples,
                ({
                    let t = filt_run(lz0, bz0, input@, cutoff@, resonance@, i as nat);
                    &&& self.low@.subrange(0, i as int) == t.low
                    &&& self.band@.subrange(0, i as int) == t.band
                    &&& self.high@.subrange(0, i as int) == t.high
                    &&& self.low_z as int == t.low_z
                    &&& self.band_z as int == t.band_z
                }),
            decreases numsamples - i,
        {
            let ghost prev_low = self.low@;
            let ghost prev_band = self.band@;
            let ghost prev_high = self.high@;
            let o = Self::step(self.low_z, self.band_z, input[i].bits, cutoff[i], resonance[i]);
            self.low[i] = SampleFxP { bits: o.0 };
            self.band[i] = SampleFxP { bits: o.1 };
            self.high[i] = SampleFxP { bits: o.2 };
            self.low_z = o.3;
            self.band_z = o.4;
            proof {
                assert(self.low@.subrange(0, i + 1) =~= prev_low.subrange(0, i as int).push(
                    SampleFxP { bits: o.0 },
                ));
                assert(self.band@.subrange(0, i + 1) =~= prev_band.subrange(0, i as int).push(
                    SampleFxP { bits: o.1 },
                ));
                assert(self.high@.subrange(0, i + 1) =~= prev_high.subrange(0, i as int).push(
                    SampleFxP { bits: o.2 },
                ));
            }
            i += 1;
        }
        FiltOutputFxP {
            low: &self.low[0..numsamples],
            band: &self.band[0..numsamples],
            high: &self.high[0..numsamples],
        }
    }
}

} // verus!
