//! The low-frequency oscillator: a modulation source with a selectable
//! waveform, read from its own phase accumulator.
use crate::devices::osc::{saw_at, sin_at, sq_at, tri_at};
use crate::fixedmath::{floor_shr, SampleFxP, USampleFxP};
use crate::{min_int, STATIC_BUFFER_SIZE};
use vstd::prelude::*;

verus! {

/// The waveform of an [LfoFxP].
#[derive(Clone, Copy, Debug, PartialEq, Eq, Structural)]
pub enum LfoWave {
    Sine,
    Triangle,
    Square,
    Saw,
}

/// The value of waveform `w` at phase `p` (4.12).
pub open spec fn lfo_value(w: LfoWave, p: int) -> int {
    match w {
        LfoWave::Sine => sin_at(p),
        LfoWave::Triangle => tri_at(p),
        LfoWave::Square => sq_at(p, 0x8000),
        LfoWave::Saw => saw_at(p),
    }
}

/// The phase increment per sample (0.32 of a cycle) of a 4.12 frequency in
/// hertz at 44.1kHz (`4096 * 44100 = 180633600`).
pub open spec fn lfo_inc(f: int) -> int {
    f * 0x1_0000_0000 / 180633600
}

/// The LFO's outputs over `n` samples from phase `phase`, and its final
/// phase.
pub open spec fn lfo_run(phase: int, w: LfoWave, freq: Seq<USampleFxP>, n: nat) -> (Seq<SampleFxP>, int)
    decreases n,
{
    if n == 0 {
        (seq![], phase)
    } else {
        let prev = lfo_run(phase, w, freq, (n - 1) as nat);
        let p = prev.1;
        (
            prev.0.push(SampleFxP { bits: lfo_value(w, p) as i16 }),
            (p + lfo_inc(freq[n - 1].bits as int)) % 0x1_0000_0000,
        )
    }
}

/// A fixed-point low-frequency oscillator.
pub struct LfoFxP {
    outbuf: [SampleFxP; STATIC_BUFFER_SIZE],
    phase: u32,
}

impl LfoFxP {
    pub closed spec fn phase(&self) -> int {
        self.phase as int
    }

    /// An LFO at the start of its cycle.
    pub fn new() -> (r: Self)
        ensures
            r.phase() == 0,
    {
        LfoFxP { outbuf: [SampleFxP { bits: 0 }; STATIC_BUFFER_SIZE], phase: 0 }
    }

    fn value(w: LfoWave, p: u32) -> (r: i16)
        ensures
            r as int == lfo_value(w, p as int),
    {
        let p = p as u64;
        let saw: i64 = (p / 0x8_0000) as i64 - 0x1000;
        match w {
            LfoWave::Saw => saw as i16,
            LfoWave::Square => if p / 0x1_0000 < 0x8000 {
                0x0fff
            } else {
                -0x1000
            },
            LfoWave::Triangle => {
                let t: i64 = (p / 0x4_0000) as i64;
                if t < 0x2000 {
                    (t - 0x1000) as i16
                } else {
                    (0x2fff - t) as i16
                }
            },
            LfoWave::Sine => {
                let ax: i64 = if saw < 0 {
                    -saw
                } else {
                    saw
                };
                assert(-0x1000 * 0x1000 <= saw * (0x1000 - ax) <= 0x1000 * 0x1000) by (nonlinear_arith)
                    requires
                        -0x1000 <= saw < 0x1000,
                        saw < 0 ==> ax == -saw,
                        saw >= 0 ==> ax == saw,
                ;
                let prod: i64 = saw * (0x1000 - ax);
                let s = floor_shr(4 * prod, 12);
                proof {
                    vstd::arithmetic::power2::lemma2_to64();
                    assert(4 * saw * (0x1000 - ax) == 4 * prod) by (nonlinear_arith)
                        requires
                            prod == saw * (0x1000 - ax),
                    ;
                    assert(-0x4000 <= (4 * prod) / 0x1000 <= 0x4000) by (nonlinear_arith)
                        requires
                            -0x1000 * 0x1000 <= prod <= 0x1000 * 0x1000,
                    ;
                }
                s as i16
            },
        }
    }

    /// Runs the LFO with waveform `w` at the per-sample frequencies `freq`
    /// (4.12 hertz): `min(freq.len(), 256)` samples.
    pub fn process(&mut self, w: LfoWave, freq: &[USampleFxP]) -> (r: &[SampleFxP])
        ensures
            ({
                let n = min_int(freq@.len() as int, STATIC_BUFFER_SIZE as int);
                let t = lfo_run(old(self).phase(), w, freq@, n as nat);
                &&& r@.len() == n
                &&& r@ == t.0
                &&& final(self).phase() == t.1
            }),
    {
        let n: usize = if freq.len() < STATIC_BUFFER_SIZE {
            freq.len()
        } else {
            STATIC_BUFFER_SIZE
        };
        let ghost phase0 = self.phase as int;
        let mut i: usize = 0;
        while i < n
            invariant
                n <= STATIC_BUFFER_SIZE,
                n <= freq@.len(),
                i <= n,
                self.outbuf@.subrange(0, i as int) == lfo_run(phase0, w, freq@, i as nat).0,
                self.phase as int == lfo_run(phase0, w, freq@, i as nat).1,
            decreases n - i,
        {
            let ghost prev = self.outbuf@;
            let v = Self::value(w, self.phase);
            self.outbuf[i] = SampleFxP { bits: v };
            let f = freq[i].bits as u64;
            assert(f * 0x1_0000_0000 < 0x1_0000 * 0x1_0000_0000) by (nonlinear_arith)
                requires
                    f < 0x1_0000,
            ;
            let next: u64 = self.phase as u64 + f * 0x1_0000_0000 / 180633600;
            self.phase = (next % 0x1_0000_0000) as u32;
            assert(self.outbuf@.subrange(0, i + 1) =~= prev.subrange(0, i as int).push(
                SampleFxP { bits: v },
            ));
            i += 1;
        }
        &self.outbuf[0..n]
    }
}

} // verus!
