//! A voice: one instance of the device graph (oscillators and mixer,
//! modulated filter, amplifier envelope and amplifier) wired for one note,
//! with the modulation matrix's resolved values applied once per block.
use crate::devices::amp::{amp_output, AmpFxP};
use crate::devices::env::{env_run, EnvFxP, EnvParamsFxP, EnvStage};
use crate::devices::filt::filt_run;
use crate::devices::mixosc::{mixosc_run, MixOscFxP, MixOscParamsFxP, OscLevelsFxP};
use crate::devices::modfilt::{cutoff_seq, ModFiltFxP, ModFiltParamsFxP};
use crate::fixedmath::{clamp, EnvParamFxP, NoteFxP, SampleFxP, ScalarFxP};
use crate::modulation::NUM_DESTS;
use crate::STATIC_BUFFER_SIZE;
use vstd::prelude::*;

verus! {

/// The settings of one envelope.
#[derive(Clone, Copy, Debug, PartialEq, Eq, Structural)]
pub struct EnvSettingsFxP {
    pub attack: EnvParamFxP,
    pub decay: EnvParamFxP,
    pub sustain: ScalarFxP,
    pub release: EnvParamFxP,
}

/// The settings of a voice, fixed for a block.
#[derive(Clone, Copy, Debug, PartialEq, Eq, Structural)]
pub struct VoiceParamsFxP {
    pub osc1_shape: ScalarFxP,
    pub osc1_levels: OscLevelsFxP,
    pub osc2_shape: ScalarFxP,
    pub osc2_levels: OscLevelsFxP,
    /// The second oscillator's offset from the played note (1/512 semitone).
    pub osc2_detune: i16,
    pub sync: bool,
    pub osc1_mix: ScalarFxP,
    pub osc2_mix: ScalarFxP,
    pub ring_mix: ScalarFxP,
    pub cutoff: NoteFxP,
    pub resonance: ScalarFxP,
    pub env_mod: ScalarFxP,
    pub keytrack: ScalarFxP,
    pub env_vcf: EnvSettingsFxP,
    pub env_vca: EnvSettingsFxP,
}

/// The sequence holding `x` `n` times.
pub open spec fn cseq<T>(n: nat, x: T) -> Seq<T> {
    Seq::new(n, |i: int| x)
}

/// A note moved by a modulation offset (1/512 semitone), kept in range.
pub open spec fn offset_note(base: int, m: int) -> int {
    clamp(base + m, 0, 0xffff)
}

/// A unit scalar moved by a 1.15 modulation amount, kept in range.
pub open spec fn offset_scalar(base: int, m: int) -> int {
    clamp(base + 2 * m, 0, 0xffff)
}

/// An envelope's 0.16 levels as 4.12 gains for the amplifier.
pub open spec fn gain_seq(env: Seq<ScalarFxP>) -> Seq<SampleFxP> {
    Seq::new(env.len(), |i: int| SampleFxP { bits: (env[i].bits / 16) as i16 })
}

/// The state of every device of a voice: the oscillator phases, the filter
/// envelope, the filter memory, and the amplifier envelope.
pub struct VoiceState {
    pub phases: (int, int),
    pub vcf: (EnvStage, int),
    pub filt: (int, int),
    pub vca: (EnvStage, int),
}

/// What a voice renders for `n` samples of `note`, with the key down while `gate`,
/// settings `p` and modulation values `m`, from state `s`: the output and
/// the next state.
pub open spec fn voice_run(
    s: VoiceState,
    n: nat,
    note: NoteFxP,
    gate: bool,
    p: VoiceParamsFxP,
    m: Seq<i16>,
) -> (Seq<SampleFxP>, VoiceState) {
    let note1 = NoteFxP { bits: offset_note(note.bits as int, m[1] as int) as u16 };
    let note2 = NoteFxP {
        bits: offset_note(note.bits as int + p.osc2_detune, m[2] as int) as u16,
    };
    let shape1 = ScalarFxP { bits: offset_scalar(p.osc1_shape.bits as int, m[3] as int) as u16 };
    let shape2 = ScalarFxP { bits: offset_scalar(p.osc2_shape.bits as int, m[4] as int) as u16 };
    let mix1 = ScalarFxP { bits: offset_scalar(p.osc1_mix.bits as int, m[5] as int) as u16 };
    let mix2 = ScalarFxP { bits: offset_scalar(p.osc2_mix.bits as int, m[6] as int) as u16 };
    let ring = ScalarFxP { bits: offset_scalar(p.ring_mix.bits as int, m[7] as int) as u16 };
    let res = ScalarFxP { bits: offset_scalar(p.resonance.bits as int, m[9] as int) as u16 };
    let osc = mixosc_run(
        cseq(n, note1),
        cseq(n, shape1),
        p.osc1_levels,
        cseq(n, note2),
        cseq(n, shape2),
        p.osc2_levels,
        p.sync,
        cseq(n, mix1),
        cseq(n, mix2),
        cseq(n, ring),
        s.phases.0,
        s.phases.1,
        n,
    );
    let te = env_run(
        s.vcf.0,
        s.vcf.1,
        cseq(n, gate),
        cseq(n, p.env_vcf.attack),
        cseq(n, p.env_vcf.decay),
        cseq(n, p.env_vcf.sustain),
        cseq(n, p.env_vcf.release),
        n,
    );
    let tf = filt_run(
        s.filt.0,
        s.filt.1,
        osc.0,
        cutoff_seq(
            cseq(n, p.cutoff),
            te.out,
            cseq(n, p.env_mod),
            cseq(n, m[8]),
            cseq(n, note),
            cseq(n, p.keytrack),
            n,
        ),
        cseq(n, res),
        n,
    );
    let tv = env_run(
        s.vca.0,
        s.vca.1,
        cseq(n, gate),
        cseq(n, p.env_vca.attack),
        cseq(n, p.env_vca.decay),
        cseq(n, p.env_vca.sustain),
        cseq(n, p.env_vca.release),
        n,
    );
    (
        amp_output(tf.low, gain_seq(tv.out)),
        VoiceState {
            phases: (osc.1, osc.2),
            vcf: (te.stage, te.level),
            filt: (tf.low_z, tf.band_z),
            vca: (tv.stage, tv.level),
        },
    )
}

/// One voice of the synthesizer.
pub struct VoiceFxP {
    mixosc: MixOscFxP,
    modfilt: ModFiltFxP,
    vca: EnvFxP,
    amp: AmpFxP,
}

fn apply_note_offset(base: i64, m: i16) -> (r: NoteFxP)
    requires
        -0x1_0000 <= base <= 0x2_0000,
    ensures
        r.bits as int == offset_note(base as int, m as int),
{
    let v = base + m as i64;
    NoteFxP {
        bits: if v < 0 {
            0
        } else if v > 0xffff {
            0xffff
        } else {
            v as u16
        },
    }
}

fn apply_scalar_offset(base: u16, m: i16) -> (r: ScalarFxP)
    ensures
        r.bits as int == offset_scalar(base as int, m as int),
{
    let v = base as i64 + 2 * (m as i64);
    ScalarFxP {
        bits: if v < 0 {
            0
        } else if v > 0xffff {
            0xffff
        } else {
            v as u16
        },
    }
}

impl VoiceFxP {
    pub closed spec fn state(&self) -> VoiceState {
        VoiceState {
            phases: self.mixosc.phases(),
            vcf: self.modfilt.env_state(),
            filt: self.modfilt.filt_state(),
            vca: self.vca.state(),
        }
    }

    pub closed spec fn wf(&self) -> bool {
        self.mixosc.wf()
    }

    /// A silent voice.
    pub fn new() -> (r: Self)
        ensures
            r.wf(),
            r.state().vca == (EnvStage::Idle, 0int),
    {
        VoiceFxP { mixosc: MixOscFxP::new(), modfilt: ModFiltFxP::new(), vca: EnvFxP::new(), amp: AmpFxP::new() }
    }

    /// Whether the amplifier envelope has finished: the voice is silent.
    pub fn is_idle(&self) -> (r: bool)
        ensures
            r == (self.state().vca.0 is Idle),
    {
        self.vca.is_idle()
    }

    /// The amplifier envelope's level, as a 0.16 value.
    pub fn level(&self) -> (r: u16)
        ensures
            r as int == self.state().vca.1 / 0x1_0000,
    {
        self.vca.level()
    }

    /// Renders `min(frames, 256)` samples of `note`, with the key held
    /// while `gate`, from settings `p` and modulation values `m` (indexed
    /// by destination).
    pub fn render(
        &mut self,
        frames: usize,
        note: NoteFxP,
        gate: bool,
        p: &VoiceParamsFxP,
        m: &[i16; NUM_DESTS],
    ) -> (r: &[SampleFxP])
        requires
            old(self).wf(),
        ensures
            final(self).wf(),
            ({
                let n = if frames < STATIC_BUFFER_SIZE {
                    frames as nat
                } else {
                    STATIC_BUFFER_SIZE as nat
                };
                let v = voice_run(old(self).state(), n, note, gate, *p, m@);
                &&& r@.len() == n
                &&& r@ == v.0
                &&& final(self).state() == v.1
            }),
    {
        let n: usize = if frames < STATIC_BUFFER_SIZE {
            frames
        } else {
            STATIC_BUFFER_SIZE
        };
        let note1 = apply_note_offset(note.bits as i64, m[1]);
        let note2 = apply_note_offset(note.bits as i64 + p.osc2_detune as i64, m[2]);
        let shape1 = apply_scalar_offset(p.osc1_shape.bits, m[3]);
        let shape2 = apply_scalar_offset(p.osc2_shape.bits, m[4]);
        let mix1 = apply_scalar_offset(p.osc1_mix.bits, m[5]);
        let mix2 = apply_scalar_offset(p.osc2_mix.bits, m[6]);
        let ring = apply_scalar_offset(p.ring_mix.bits, m[7]);
        let res = apply_scalar_offset(p.resonance.bits, m[9]);
        let a_note1 = [note1; STATIC_BUFFER_SIZE];
        let a_note2 = [note2; STATIC_BUFFER_SIZE];
        let a_shape1 = [shape1; STATIC_BUFFER_SIZE];
        let a_shape2 = [shape2; STATIC_BUFFER_SIZE];
        let a_mix1 = [mix1; STATIC_BUFFER_SIZE];
        let a_mix2 = [mix2; STATIC_BUFFER_SIZE];
        let a_ring = [ring; STATIC_BUFFER_SIZE];
        let a_res = [res; STATIC_BUFFER_SIZE];
        let a_gate = [gate; STATIC_BUFFER_SIZE];
        let a_cut = [p.cutoff; STATIC_BUFFER_SIZE];
        let a_envmod = [p.env_mod; STATIC_BUFFER_SIZE];
        let a_mod = [m[8]; STATIC_BUFFER_SIZE];
        let a_note = [note; STATIC_BUFFER_SIZE];
        let a_track = [p.keytrack; STATIC_BUFFER_SIZE];
        let f_att = [p.env_vcf.attack; STATIC_BUFFER_SIZE];
        let f_dec = [p.env_vcf.decay; STATIC_BUFFER_SIZE];
        let f_sus = [p.env_vcf.sustain; STATIC_BUFFER_SIZE];
        let f_rel = [p.env_vcf.release; STATIC_BUFFER_SIZE];
        let v_att = [p.env_vca.attack; STATIC_BUFFER_SIZE];
        let v_dec = [p.env_vca.decay; STATIC_BUFFER_SIZE];
        let v_sus = [p.env_vca.sustain; STATIC_BUFFER_SIZE];
        let v_rel = [p.env_vca.release; STATIC_BUFFER_SIZE];
        let ghost nn = n as nat;
        proof {
            assert(a_note1@.subrange(0, n as int) =~= cseq(nn, note1));
            assert(a_note2@.subrange(0, n as int) =~= cseq(nn, note2));
            assert(a_shape1@.subrange(0, n as int) =~= cseq(nn, shape1));
            assert(a_shape2@.subrange(0, n as int) =~= cseq(nn, shape2));
            assert(a_mix1@.subrange(0, n as int) =~= cseq(nn, mix1));
            assert(a_mix2@.subrange(0, n as int) =~= cseq(nn, mix2));
            assert(a_ring@.subrange(0, n as int) =~= cseq(nn, ring));
            assert(a_res@.subrange(0, n as int) =~= cseq(nn, res));
            assert(a_gate@.subrange(0, n as int) =~= cseq(nn, gate));
            assert(a_cut@.subrange(0, n as int) =~= cseq(nn, p.cutoff));
            assert(a_envmod@.subrange(0, n as int) =~= cseq(nn, p.env_mod));
            assert(a_mod@.subrange(0, n as int) =~= cseq(nn, m[8]));
            assert(a_note@.subrange(0, n as int) =~= cseq(nn, note));
            assert(a_track@.subrange(0, n as int) =~= cseq(nn, p.keytrack));
            assert(f_att@.subrange(0, n as int) =~= cseq(nn, p.env_vcf.attack));
            assert(f_dec@.subrange(0, n as int) =~= cseq(nn, p.env_vcf.decay));
            assert(f_sus@.subrange(0, n as int) =~= cseq(nn, p.env_vcf.sustain));
            assert(f_rel@.subrange(0, n as int) =~= cseq(nn, p.env_vcf.release));
            assert(v_att@.subrange(0, n as int) =~= cseq(nn, p.env_vca.attack));
            assert(v_dec@.subrange(0, n as int) =~= cseq(nn, p.env_vca.decay));
            assert(v_sus@.subrange(0, n as int) =~= cseq(nn, p.env_vca.sustain));
            assert(v_rel@.subrange(0, n as int) =~= cseq(nn, p.env_vca.release));
            assert(cseq(nn, gate).subrange(0, n as int) =~= cseq(nn, gate));
            assert(cseq(nn, p.env_vcf.attack).subrange(0, n as int) =~= cseq(nn, p.env_vcf.attack));
            assert(cseq(nn, p.env_vcf.decay).subrange(0, n as int) =~= cseq(nn, p.env_vcf.decay));
            assert(cseq(nn, p.env_vcf.sustain).subrange(0, n as int) =~= cseq(nn, p.env_vcf.sustain));
            assert(cseq(nn, p.env_vcf.release).subrange(0, n as int) =~= cseq(nn, p.env_vcf.release));
            assert(cseq(nn, res).subrange(0, n as int) =~= cseq(nn, res));
            assert(cseq(nn, note1).subrange(0, n as int) =~= cseq(nn, note1));
            assert(cseq(nn, note2).subrange(0, n as int) =~= cseq(nn, note2));
            assert(cseq(nn, shape1).subrange(0, n as int) =~= cseq(nn, shape1));
            assert(cseq(nn, shape2).subrange(0, n as int) =~= cseq(nn, shape2));
        }
        let osc = self.mixosc.process(
            MixOscParamsFxP {
                osc1_note: &a_note1[0..n],
                osc1_shape: &a_shape1[0..n],
                osc1_levels: p.osc1_levels,
                osc2_note: &a_note2[0..n],
                osc2_shape: &a_shape2[0..n],
                osc2_levels: p.osc2_levels,
                sync: p.sync,
                osc1_mix: &a_mix1[0..n],
                osc2_mix: &a_mix2[0..n],
                ring_mix: &a_ring[0..n],
            },
        );
        assert(osc@.subrange(0, n as int) =~= osc@);
        let filtered = self.modfilt.process(
            osc,
            ModFiltParamsFxP {
                gate: &a_gate[0..n],
                env: EnvParamsFxP {
                    attack: &f_att[0..n],
                    decay: &f_dec[0..n],
                    sustain: &f_sus[0..n],
                    release: &f_rel[0..n],
                },
                cutoff: &a_cut[0..n],
                env_mod: &a_envmod[0..n],
                modulation: &a_mod[0..n],
                note: &a_note[0..n],
                keytrack: &a_track[0..n],
                resonance: &a_res[0..n],
            },
        );
        let vca = self.vca.process(
            &a_gate[0..n],
            EnvParamsFxP {
                attack: &v_att[0..n],
                decay: &v_dec[0..n],
                sustain: &v_sus[0..n],
                release: &v_rel[0..n],
            },
        );
        let mut gain: [SampleFxP; STATIC_BUFFER_SIZE] = [SampleFxP { bits: 0 }; STATIC_BUFFER_SIZE];
        let mut i: usize = 0;
        while i < n
            invariant
                n <= STATIC_BUFFER_SIZE,
                vca@.len() == n,
                i <= n,
                forall|j: int| 0 <= j < i ==> #[trigger] gain[j] == gain_seq(vca@)[j],
            decreases n - i,
        {
            gain[i] = SampleFxP { bits: (vca[i].bits / 16) as i16 };
            i += 1;
        }
        assert(gain@.subrange(0, n as int) =~= gain_seq(vca@));
        self.amp.process(filtered.low, &gain[0..n])
    }
}

} // verus!
