//! Two oscillators and a mixer: the second oscillator may be hard-synced to
//! the first, and the two may be ring-modulated against each other before
//! the three signals are mixed.
use crate::devices::osc::{lemma_osc_run_len, osc_run, OscFxP, OscParamsFxP};
use crate::fixedmath::{
    floor_shr, lemma_mul_bound, sample_mul, sat_i16, saturate_i16, shr, NoteFxP, SampleFxP,
    ScalarFxP,
};
use crate::{min_int, STATIC_BUFFER_SIZE};
use vstd::prelude::*;

verus! {

/// How much of each waveform an oscillator contributes.
#[derive(Clone, Copy, Debug, PartialEq, Eq, Structural)]
pub struct OscLevelsFxP {
    pub sin: ScalarFxP,
    pub tri: ScalarFxP,
    pub sq: ScalarFxP,
    pub saw: ScalarFxP,
}

/// Parameters for a [MixOscFxP].
pub struct MixOscParamsFxP<'a> {
    pub osc1_note: &'a [NoteFxP],
    pub osc1_shape: &'a [ScalarFxP],
    pub osc1_levels: OscLevelsFxP,
    pub osc2_note: &'a [NoteFxP],
    pub osc2_shape: &'a [ScalarFxP],
    pub osc2_levels: OscLevelsFxP,
    /// Restart the second oscillator whenever the first wraps.
    pub sync: bool,
    /// Mix levels of the first oscillator, the second, and their ring
    /// modulation.
    pub osc1_mix: &'a [ScalarFxP],
    pub osc2_mix: &'a [ScalarFxP],
    pub ring_mix: &'a [ScalarFxP],
}

impl<'a> MixOscParamsFxP<'a> {
    pub open spec fn spec_len(&self) -> int {
        min_int(
            min_int(
                min_int(self.osc1_note@.len() as int, self.osc1_shape@.len() as int),
                min_int(self.osc2_note@.len() as int, self.osc2_shape@.len() as int),
            ),
            min_int(
                min_int(self.osc1_mix@.len() as int, self.osc2_mix@.len() as int),
                self.ring_mix@.len() as int,
            ),
        )
    }

    /// The length of the parameters: that of the shortest slice.
    pub fn len(&self) -> (r: usize)
        ensures
            r == self.spec_len(),
    {
        let mut m = self.osc1_note.len();
        if self.osc1_shape.len() < m {
            m = self.osc1_shape.len();
        }
        if self.osc2_note.len() < m {
            m = self.osc2_note.len();
        }
        if self.osc2_shape.len() < m {
            m = self.osc2_shape.len();
        }
        if self.osc1_mix.len() < m {
            m = self.osc1_mix.len();
        }
        if self.osc2_mix.len() < m {
            m = self.osc2_mix.len();
        }
        if self.ring_mix.len() < m {
            m = self.ring_mix.len();
        }
        m
    }
}

/// An oscillator's waveforms weighted by `lv` and summed (4.12).
pub open spec fn blend(sin: int, tri: int, sq: int, saw: int, lv: OscLevelsFxP) -> int {
    shr(sin * lv.sin.bits + tri * lv.tri.bits + sq * lv.sq.bits + saw * lv.saw.bits, 16)
}

/// The mixer's output for oscillator signals `a` and `b` (4.12, saturated
/// to the sample range before the ring modulator) and mix levels `ma`,
/// `mb` and `mr` (0.16).
pub open spec fn mix(a: int, b: int, ma: int, mb: int, mr: int) -> int {
    sat_i16(shr(a * ma + b * mb + sample_mul(sat_i16(a), sat_i16(b)) * mr, 16))
}

/// The mixer's outputs over the first `n` samples, with the oscillators
/// starting from phases `phase1` and `phase2`, and their final phases.
pub open spec fn mixosc_run(
    osc1_note: Seq<NoteFxP>,
    osc1_shape: Seq<ScalarFxP>,
    osc1_levels: OscLevelsFxP,
    osc2_note: Seq<NoteFxP>,
    osc2_shape: Seq<ScalarFxP>,
    osc2_levels: OscLevelsFxP,
    sync: bool,
    osc1_mix: Seq<ScalarFxP>,
    osc2_mix: Seq<ScalarFxP>,
    ring_mix: Seq<ScalarFxP>,
    phase1: int,
    phase2: int,
    n: nat,
) -> (
    Seq<SampleFxP>,
    int,
    int,
) {
    let no_sync = Seq::new(n, |k: int| false);
    let t1 = osc_run(
        phase1,
        osc1_note.subrange(0, n as int),
        osc1_shape.subrange(0, n as int),
        no_sync,
        n,
    );
    let sync2 = if sync {
        t1.sync
    } else {
        no_sync
    };
    let t2 = osc_run(
        phase2,
        osc2_note.subrange(0, n as int),
        osc2_shape.subrange(0, n as int),
        sync2,
        n,
    );
    let out = Seq::new(
        n,
        |i: int|
            {
                let a = blend(
                    t1.sin[i].bits as int,
                    t1.tri[i].bits as int,
                    t1.sq[i].bits as int,
                    t1.saw[i].bits as int,
                    osc1_levels,
                );
                let b = blend(
                    t2.sin[i].bits as int,
                    t2.tri[i].bits as int,
                    t2.sq[i].bits as int,
                    t2.saw[i].bits as int,
                    osc2_levels,
                );
                SampleFxP {
                    bits: mix(
                        a,
                        b,
                        osc1_mix[i].bits as int,
                        osc2_mix[i].bits as int,
                        ring_mix[i].bits as int,
                    ) as i16,
                }
            },
    );
    (out, t1.phase, t2.phase)
}

/// Two oscillators and their mixer.
pub struct MixOscFxP {
    osc1: OscFxP,
    osc2: OscFxP,
    no_sync: [bool; STATIC_BUFFER_SIZE],
    outbuf: [SampleFxP; STATIC_BUFFER_SIZE],
}

impl MixOscFxP {
    /// The phases of the two oscillators.
    pub closed spec fn phases(&self) -> (int, int) {
        (self.osc1.phase(), self.osc2.phase())
    }

    pub closed spec fn wf(&self) -> bool {
        forall|i: int| 0 <= i < STATIC_BUFFER_SIZE ==> !#[trigger] self.no_sync[i]
    }

    /// Two oscillators at the start of their cycles.
    pub fn new() -> (r: Self)
        ensures
            r.wf(),
            r.phases() == (0int, 0int),
    {
        MixOscFxP {
            osc1: OscFxP::new(),
            osc2: OscFxP::new(),
            no_sync: [false; STATIC_BUFFER_SIZE],
            outbuf: [SampleFxP { bits: 0 }; STATIC_BUFFER_SIZE],
        }
    }

    fn blend(sin: i16, tri: i16, sq: i16, saw: i16, lv: OscLevelsFxP) -> (r: i64)
        ensures
            r == blend(sin as int, tri as int, sq as int, saw as int, lv),
            -0x2_0000 <= r <= 0x2_0000,
    {
        proof {
            lemma_mul_bound(sin as int, lv.sin.bits as int, 0x8000, 0x1_0000);
            lemma_mul_bound(tri as int, lv.tri.bits as int, 0x8000, 0x1_0000);
            lemma_mul_bound(sq as int, lv.sq.bits as int, 0x8000, 0x1_0000);
            lemma_mul_bound(saw as int, lv.saw.bits as int, 0x8000, 0x1_0000);
            vstd::arithmetic::power2::lemma2_to64();
        }
        let s: i64 = (sin as i64) * (lv.sin.bits as i64) + (tri as i64) * (lv.tri.bits as i64)
            + (sq as i64) * (lv.sq.bits as i64) + (saw as i64) * (lv.saw.bits as i64);
        let r = floor_shr(s, 16);
        proof {
            assert(-0x2_0000 <= s / 0x1_0000 <= 0x2_0000) by (nonlinear_arith)
                requires
                    -0x8000 * 0x1_0000 * 4 <= s <= 0x8000 * 0x1_0000 * 4,
            ;
        }
        r
    }

    fn mix(a: i64, b: i64, ma: u16, mb: u16, mr: u16) -> (r: i16)
        requires
            -0x2_0000 <= a <= 0x2_0000,
            -0x2_0000 <= b <= 0x2_0000,
        ensures
            r as int == mix(a as int, b as int, ma as int, mb as int, mr as int),
    {
        let ring = SampleFxP { bits: saturate_i16(a) }.saturating_mul(
            SampleFxP { bits: saturate_i16(b) },
        );
        proof {
            lemma_mul_bound(a as int, ma as int, 0x2_0000, 0x1_0000);
            lemma_mul_bound(b as int, mb as int, 0x2_0000, 0x1_0000);
            lemma_mul_bound(ring.bits as int, mr as int, 0x8000, 0x1_0000);
        }
        let s: i64 = a * (ma as i64) + b * (mb as i64) + (ring.bits as i64) * (mr as i64);
        saturate_i16(floor_shr(s, 16))
    }

    /// Runs both oscillators and mixes them: `min(params.len(), 256)`
    /// samples.
    pub fn process(&mut self, params: MixOscParamsFxP) -> (r: &[SampleFxP])
        requires
            old(self).wf(),
        ensures
            final(self).wf(),
            ({
                let n = min_int(params.spec_len(), STATIC_BUFFER_SIZE as int);
                let t = mixosc_run(
                    params.osc1_note@,
                    params.osc1_shape@,
                    params.osc1_levels,
                    params.osc2_note@,
                    params.osc2_shape@,
                    params.osc2_levels,
                    params.sync,
                    params.osc1_mix@,
                    params.osc2_mix@,
                    params.ring_mix@,
                    old(self).phases().0,
                    old(self).phases().1,
                    n as nat,
                );
                &&& r@.len() == n
                &&& r@ == t.0
                &&& final(self).phases() == (t.1, t.2)
            }),
    {
        let plen = params.len();
        let n: usize = if plen < STATIC_BUFFER_SIZE {
            plen
        } else {
            STATIC_BUFFER_SIZE
        };
        let ghost ph1 = self.osc1.phase();
        let ghost ph2 = self.osc2.phase();
        let ghost no_sync = Seq::new(n as nat, |k: int| false);
        assert(self.no_sync@.subrange(0, n as int) =~= no_sync);
        let o1 = self.osc1.process(
            OscParamsFxP {
                note: &params.osc1_note[0..n],
                shape: &params.osc1_shape[0..n],
                sync: &self.no_sync[0..n],
            },
        );
        let sync2: &[bool] = if params.sync {
            o1.sync
        } else {
            &self.no_sync[0..n]
        };
        let o2 = self.osc2.process(
            OscParamsFxP {
                note: &params.osc2_note[0..n],
                shape: &params.osc2_shape[0..n],
                sync: sync2,
            },
        );
        let ghost t = mixosc_run(
            params.osc1_note@,
            params.osc1_shape@,
            params.osc1_levels,
            params.osc2_note@,
            params.osc2_shape@,
            params.osc2_levels,
            params.sync,
            params.osc1_mix@,
            params.osc2_mix@,
            params.ring_mix@,
            ph1,
            ph2,
            n as nat,
        );
        proof {
            let t1 = osc_run(
                ph1,
                params.osc1_note@.subrange(0, n as int),
                params.osc1_shape@.subrange(0, n as int),
                no_sync,
                n as nat,
            );
            lemma_osc_run_len(
                ph1,
                params.osc1_note@.subrange(0, n as int),
                params.osc1_shape@.subrange(0, n as int),
                no_sync,
                n as nat,
            );
            let sync2 = if params.sync {
                t1.sync
            } else {
                no_sync
            };
            lemma_osc_run_len(
                ph2,
                params.osc2_note@.subrange(0, n as int),
                params.osc2_shape@.subrange(0, n as int),
                sync2,
                n as nat,
            );
        }
        let mut out: [SampleFxP; STATIC_BUFFER_SIZE] = [SampleFxP { bits: 0 }; STATIC_BUFFER_SIZE];
        let mut i: usize = 0;
        while i < n
            invariant
                n <= STATIC_BUFFER_SIZE,
                n <= params.spec_len(),
                i <= n,
                o1.sin@.len() == n,
                o1.tri@.len() == n,
                o1.sq@.len() == n,
                o1.saw@.len() == n,
                o2.sin@.len() == n,
                o2.tri@.len() == n,
                o2.sq@.len() == n,
                o2.saw@.len() == n,
                t == mixosc_run(
                    params.osc1_note@,
                    params.osc1_shape@,
                    params.osc1_levels,
                    params.osc2_note@,
                    params.osc2_shape@,
                    params.osc2_levels,
                    params.sync,
                    params.osc1_mix@,
                    params.osc2_mix@,
                    params.ring_mix@,
                    ph1,
                    ph2,
                    n as nat,
                ),
                t.0.len() == n,
                ({
                    let no_sync = Seq::new(n as nat, |k: int| false);
                    let t1 = osc_run(
                        ph1,
                        params.osc1_note@.subrange(0, n as int),
                        params.osc1_shape@.subrange(0, n as int),
                        no_sync,
                        n as nat,
                    );
                    let sync2 = if params.sync {
                        t1.sync
                    } else {
                        no_sync
                    };
                    let t2 = osc_run(
                        ph2,
                        params.osc2_note@.subrange(0, n as int),
                        params.osc2_shape@.subrange(0, n as int),
                        sync2,
                        n as nat,
                    );
                    &&& o1.sin@ == t1.sin
                    &&& o1.tri@ == t1.tri
                    &&& o1.sq@ == t1.sq
                    &&& o1.saw@ == t1.saw
                    &&& o2.sin@ == t2.sin
                    &&& o2.tri@ == t2.tri
                    &&& o2.sq@ == t2.sq
                    &&& o2.saw@ == t2.saw
                }),
                forall|j: int| 0 <= j < i ==> #[trigger] out[j] == t.0[j],
            decreases n - i,
        {
            let a = Self::blend(o1.sin[i].bits, o1.tri[i].bits, o1.sq[i].bits, o1.saw[i].bits, params.osc1_levels);
            let b = Self::blend(o2.sin[i].bits, o2.tri[i].bits, o2.sq[i].bits, o2.saw[i].bits, params.osc2_levels);
            let m = Self::mix(a, b, params.osc1_mix[i].bits, params.osc2_mix[i].bits, params.ring_mix[i].bits);
            out[i] = SampleFxP { bits: m };
            assert(out[i as int] == t.0[i as int]);
            i += 1;
        }
        self.outbuf = out;
        let r = &self.outbuf[0..n];
        assert(r@ =~= t.0);
        r
    }
}

} // verus!
