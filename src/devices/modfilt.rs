//! The modulated filter: a state-variable filter whose cutoff is driven by
//! a dedicated envelope, an external modulation amount and keyboard
//! tracking.  It isolates what drives the cutoff from how the filter
//! behaves.
use crate::devices::env::{env_run, EnvFxP, EnvParamsFxP, EnvStage};
use crate::devices::filt::{filt_run, FiltFxP, FiltOutputFxP, FiltParamsFxP};
use crate::fixedmath::{clamp, floor_shr, lemma_mul_bound, NoteFxP, SampleFxP, ScalarFxP};
use crate::{min_int, STATIC_BUFFER_SIZE};
use vstd::prelude::*;

verus! {

/// Parameters for a [ModFiltFxP].
pub struct ModFiltParamsFxP<'a> {
    /// The filter envelope's gate.
    pub gate: &'a [bool],
    /// The filter envelope's parameters.
    pub env: EnvParamsFxP<'a>,
    /// The base cutoff.
    pub cutoff: &'a [NoteFxP],
    /// How far the envelope opens the filter: at one, a full envelope adds
    /// 127 semitones.
    pub env_mod: &'a [ScalarFxP],
    /// An external cutoff offset, in 1/512 semitone.
    pub modulation: &'a [i16],
    /// The note being played, for keyboard tracking.
    pub note: &'a [NoteFxP],
    /// How much the cutoff follows the note's distance from middle C.
    pub keytrack: &'a [ScalarFxP],
    pub resonance: &'a [ScalarFxP],
}

impl<'a> ModFiltParamsFxP<'a> {
    pub open spec fn spec_len(&self) -> int {
        min_int(
            min_int(
                min_int(self.gate@.len() as int, self.env.spec_len()),
                min_int(self.cutoff@.len() as int, self.env_mod@.len() as int),
            ),
            min_int(
                min_int(self.modulation@.len() as int, self.note@.len() as int),
                min_int(self.keytrack@.len() as int, self.resonance@.len() as int),
            ),
        )
    }

    /// The length of the parameters: that of the shortest slice.
    pub fn len(&self) -> (r: usize)
        ensures
            r == self.spec_len(),
    {
        let mut m = self.gate.len();
        let e = self.env.len();
        if e < m {
            m = e;
        }
        if self.cutoff.len() < m {
            m = self.cutoff.len();
        }
        if self.env_mod.len() < m {
            m = self.env_mod.len();
        }
        if self.modulation.len() < m {
            m = self.modulation.len();
        }
        if self.note.len() < m {
            m = self.note.len();
        }
        if self.keytrack.len() < m {
            m = self.keytrack.len();
        }
        if self.resonance.len() < m {
            m = self.resonance.len();
        }
        m
    }
}

/// The effective cutoff (7.9, clamped to the note range) for a base cutoff,
/// an envelope level and depth (0.16), a modulation offset, a note and a
/// key-tracking amount.
pub open spec fn effective_cutoff(base: int, env: int, depth: int, m: int, note: int, track: int) -> int {
    let env_term = (env * depth / 0x1_0000) * (127 * 512) / 0x1_0000;
    let key_term = (note - 60 * 512) * track / 0x1_0000;
    clamp(base + env_term + m + key_term, 0, 0xffff)
}

/// The effective cutoffs for the first `n` samples, given the envelope's
/// levels.
pub open spec fn cutoff_seq(
    cutoff: Seq<NoteFxP>,
    env: Seq<ScalarFxP>,
    env_mod: Seq<ScalarFxP>,
    modulation: Seq<i16>,
    note: Seq<NoteFxP>,
    keytrack: Seq<ScalarFxP>,
    n: nat,
) -> Seq<NoteFxP> {
    Seq::new(
        n,
        |i: int|
            NoteFxP {
                bits: effective_cutoff(
                    cutoff[i].bits as int,
                    env[i].bits as int,
                    env_mod[i].bits as int,
                    modulation[i] as int,
                    note[i].bits as int,
                    keytrack[i].bits as int,
                ) as u16,
            },
    )
}

/// A filter with its own envelope and cutoff modulation.
pub struct ModFiltFxP {
    env: EnvFxP,
    filt: FiltFxP,
}

impl ModFiltFxP {
    pub closed spec fn env_state(&self) -> (EnvStage, int) {
        self.env.state()
    }

    pub closed spec fn filt_state(&self) -> (int, int) {
        self.filt.state()
    }

    pub fn new() -> (r: Self)
        ensures
            r.env_state() == (EnvStage::Idle, 0int),
            r.filt_state() == (0int, 0int),
    {
        ModFiltFxP { env: EnvFxP::new(), filt: FiltFxP::new() }
    }

    fn cutoff(base: u16, env: u16, depth: u16, m: i16, note: u16, track: u16) -> (r: u16)
        ensures
            r as int == effective_cutoff(
                base as int,
                env as int,
                depth as int,
                m as int,
                note as int,
                track as int,
            ),
    {
        proof {
            lemma_mul_bound(env as int, depth as int, 0x1_0000, 0x1_0000);
        }
        let e: u64 = (env as u64) * (depth as u64) / 0x1_0000;
        assert(e < 0x1_0000) by (nonlinear_arith)
            requires
                e == (env as u64) * (depth as u64) / 0x1_0000,
                env < 0x1_0000,
                depth < 0x1_0000,
        ;
        proof {
            lemma_mul_bound(e as int, 65024int, 0x1_0000, 65024int);
        }
        let env_term: i64 = (e * (127 * 512) / 0x1_0000) as i64;
        let d: i64 = note as i64 - 60 * 512;
        proof {
            lemma_mul_bound(d as int, track as int, 0x1_0000, 0x1_0000);
        }
        let k: i64 = floor_shr(d * (track as i64), 16);
        proof {
            vstd::arithmetic::power2::lemma2_to64();
        }
        let sum: i64 = base as i64 + env_term + m as i64 + k;
        if sum < 0 {
            0
        } else if sum > 0xffff {
            0xffff
        } else {
            sum as u16
        }
    }

    /// Runs the envelope over the key signal, derives the cutoff of every sample
    /// from it, and runs the filter on `input` with those cutoffs:
    /// `min(input.len(), params.len(), 256)` samples.
    pub fn process(&mut self, input: &[SampleFxP], params: ModFiltParamsFxP) -> (r: FiltOutputFxP)
        ensures
            ({
                let n = min_int(
                    min_int(input@.len() as int, params.spec_len()),
                    STATIC_BUFFER_SIZE as int,
                );
                let te = env_run(
                    old(self).env_state().0,
                    old(self).env_state().1,
                    params.gate@.subrange(0, n),
                    params.env.attack@.subrange(0, n),
                    params.env.decay@.subrange(0, n),
                    params.env.sustain@.subrange(0, n),
                    params.env.release@.subrange(0, n),
                    n as nat,
                );
                let tf = filt_run(
                    old(self).filt_state().0,
                    old(self).filt_state().1,
                    input@.subrange(0, n),
                    cutoff_seq(
                        params.cutoff@,
                        te.out,
                        params.env_mod@,
                        params.modulation@,
                        params.note@,
                        params.keytrack@,
                        n as nat,
                    ),
                    params.resonance@.subrange(0, n),
                    n as nat,
                );
                &&& r.low@.len() == n
                &&& r.low@ == tf.low
                &&& r.band@ == tf.band
                &&& r.high@ == tf.high
                &&& final(self).env_state() == (te.stage, te.level)
                &&& final(self).filt_state() == (tf.low_z, tf.band_z)
            }),
    {
        let plen = params.len();
        let n: usize = if input.len() < plen {
            input.len()
        } else {
            plen
        };
        let n: usize = if n < STATIC_BUFFER_SIZE {
            n
        } else {
            STATIC_BUFFER_SIZE
        };
        let env_out = self.env.process(
            &params.gate[0..n],
            EnvParamsFxP {
                attack: &params.env.attack[0..n],
                decay: &params.env.decay[0..n],
                sustain: &params.env.sustain[0..n],
                release: &params.env.release[0..n],
            },
        );
        let mut cut: [NoteFxP; STATIC_BUFFER_SIZE] = [NoteFxP { bits: 0 }; STATIC_BUFFER_SIZE];
        let mut i: usize = 0;
        while i < n
            invariant
                n <= STATIC_BUFFER_SIZE,
                n <= params.spec_len(),
                env_out@.len() == n,
                i <= n,
                forall|j: int|
                    0 <= j < i ==> #[trigger] cut[j] == cutoff_seq(
                params.cutoff@,
                env_out@,
                params.env_mod@,
                params.modulation@,
                params.note@,
                params.keytrack@,
                n as nat,
            )[j],
            decreases n - i,
        {
            let c = Self::cutoff(
                params.cutoff[i].bits,
                env_out[i].bits,
                params.env_mod[i].bits,
                params.modulation[i],
                params.note[i].bits,
                params.keytrack[i].bits,
            );
            cut[i] = NoteFxP { bits: c };
            i += 1;
        }
        proof {
            assert(cut@.subrange(0, n as int) =~= cutoff_seq(
                params.cutoff@,
                env_out@,
                params.env_mod@,
                params.modulation@,
                params.note@,
                params.keytrack@,
                n as nat,
            ));
        }
        self.filt.process(
            &input[0..n],
            FiltParamsFxP { cutoff: &cut[0..n], resonance: &params.resonance[0..n] },
        )
    }
}

} // verus!
