use janus::devices::{
    EnvFxP, EnvParamsFxP, FiltFxP, FiltParamsFxP, MixOscFxP, MixOscParamsFxP,
    ModFiltFxP, ModFiltParamsFxP, OscFxP, OscLevelsFxP, OscParamsFxP,
};
use janus::modulation::{ModDest, ModMatrix, ModSrc, NUM_DESTS, NUM_SRCS};
use janus::voice::{EnvSettingsFxP, VoiceFxP, VoiceParamsFxP};
use janus::voicealloc::{VoiceAllocator, VoiceStage};
use janus::devices::{LfoFxP, LfoWave};
use janus::{EnvParamFxP, NoteFxP, SampleFxP, ScalarFxP, USampleFxP};

fn env_settings(a: u16, d: u16, s: u16, r: u16) -> EnvSettingsFxP {
    EnvSettingsFxP {
        attack: EnvParamFxP::from_bits(a),
        decay: EnvParamFxP::from_bits(d),
        sustain: ScalarFxP::from_bits(s),
        release: EnvParamFxP::from_bits(r),
    }
}

fn levels(sin: u16, tri: u16, sq: u16, saw: u16) -> OscLevelsFxP {
    OscLevelsFxP {
        sin: ScalarFxP::from_bits(sin),
        tri: ScalarFxP::from_bits(tri),
        sq: ScalarFxP::from_bits(sq),
        saw: ScalarFxP::from_bits(saw),
    }
}

fn voice_params() -> VoiceParamsFxP {
    VoiceParamsFxP {
        osc1_shape: ScalarFxP::from_bits(0x8000),
        osc1_levels: levels(0, 0, 0, 0xffff),
        osc2_shape: ScalarFxP::from_bits(0x8000),
        osc2_levels: levels(0, 0, 0xffff, 0),
        osc2_detune: 0,
        sync: false,
        osc1_mix: ScalarFxP::from_bits(0x8000),
        osc2_mix: ScalarFxP::from_bits(0x8000),
        ring_mix: ScalarFxP::from_bits(0),
        cutoff: NoteFxP::from_bits(100 << 9),
        resonance: ScalarFxP::from_bits(0),
        env_mod: ScalarFxP::from_bits(0),
        keytrack: ScalarFxP::from_bits(0),
        env_vcf: env_settings(0xffff, 0x100, 0x8000, 0x100),
        env_vca: env_settings(0xffff, 0x100, 0xc000, 0x40),
    }
}

#[test]
fn envelope_attacks_linearly_then_decays_to_sustain() {
    let mut env = EnvFxP::new();
    let n = 2000;
    let gate = vec![true; n];
    let a = vec![EnvParamFxP::from_bits(0xffff); n];
    let d = vec![EnvParamFxP::from_bits(0x0fff); n];
    let s = vec![ScalarFxP::from_bits(0x8000); n];
    let r = vec![EnvParamFxP::from_bits(0x0fff); n];
    let out: Vec<u16> = env
        .process(&gate, EnvParamsFxP { attack: &a, decay: &d, sustain: &s, release: &r })
        .iter()
        .map(|x| x.to_bits())
        .collect();
    assert_eq!(out.len(), 256);
    assert_eq!(out[0], 4096);
    assert_eq!(out[14], 15 * 4096);
    assert_eq!(out[15], 0xffff);
    assert!(out[16] < 0xffff);
    assert!((out[255] as i32 - 0x8000).abs() <= 2, "{}", out[255]);
    assert!(!env.is_idle());
}

#[test]
fn envelope_release_ends_idle() {
    let mut env = EnvFxP::new();
    let a = vec![EnvParamFxP::from_bits(0xffff); 256];
    let s = vec![ScalarFxP::from_bits(0x8000); 256];
    let on = vec![true; 256];
    let off = vec![false; 256];
    env.process(&on, EnvParamsFxP { attack: &a, decay: &a, sustain: &s, release: &a });
    assert!(!env.is_idle());
    let out = env.process(&off[..10], EnvParamsFxP { attack: &a, decay: &a, sustain: &s, release: &a });
    assert_eq!(out.len(), 10);
    assert_eq!(out[9].to_bits(), 0);
    assert!(env.is_idle());
    assert_eq!(env.level(), 0);
}

#[test]
fn envelope_output_length_is_shortest_input() {
    let mut env = EnvFxP::new();
    let a = vec![EnvParamFxP::from_bits(1); 300];
    let s = vec![ScalarFxP::from_bits(1); 300];
    let gate = vec![true; 300];
    let p = EnvParamsFxP { attack: &a, decay: &a[..20], sustain: &s, release: &a };
    assert_eq!(env.process(&gate, p).len(), 20);
    let p = EnvParamsFxP { attack: &a, decay: &a, sustain: &s, release: &a };
    assert_eq!(env.process(&gate, p).len(), 256);
    let p = EnvParamsFxP { attack: &a, decay: &a, sustain: &s, release: &a };
    assert_eq!(env.process(&gate[..0], p).len(), 0);
}

#[test]
fn oscillator_waveform_values() {
    let mut osc = OscFxP::new();
    let note = vec![NoteFxP::from_bits(69 << 9); 4];
    let shape = vec![ScalarFxP::from_bits(0x8000); 4];
    let sync = vec![false; 4];
    let out = osc.process(OscParamsFxP { note: &note, shape: &shape, sync: &sync });
    assert_eq!(out.saw.len(), 4);
    assert_eq!(out.saw[0].to_bits(), -4096);
    assert_eq!(out.tri[0].to_bits(), -4096);
    assert_eq!(out.sq[0].to_bits(), 4095);
    assert_eq!(out.sin[0].to_bits(), 0);
    assert_eq!(out.saw[1].to_bits(), -4015);
    assert_eq!(out.tri[1].to_bits(), -3933);
    assert_eq!(out.sin[1].to_bits(), -318);
    assert!(!out.sync[0]);
}

#[test]
fn oscillator_wraps_and_restarts_on_sync() {
    let mut osc = OscFxP::new();
    let n = 200;
    let note = vec![NoteFxP::from_bits(69 << 9); n];
    let shape = vec![ScalarFxP::from_bits(0x8000); n];
    let mut sync = vec![false; n];
    sync[150] = true;
    let out = osc.process(OscParamsFxP { note: &note, shape: &shape, sync: &sync });
    // 440 Hz at 44.1 kHz wraps after about 100 samples
    let wraps: Vec<usize> = (0..n).filter(|i| out.sync[*i]).collect();
    assert_eq!(wraps.len(), 1);
    assert!(wraps[0] >= 99 && wraps[0] <= 101, "{:?}", wraps);
    assert_eq!(out.saw[150].to_bits(), -4096);
}

#[test]
fn mixer_levels_and_ring_modulation() {
    let mut mix = MixOscFxP::new();
    let note = vec![NoteFxP::from_bits(60 << 9); 8];
    let shape = vec![ScalarFxP::from_bits(0x8000); 8];
    let full = vec![ScalarFxP::from_bits(0xffff); 8];
    let zero = vec![ScalarFxP::from_bits(0); 8];
    let out = mix.process(MixOscParamsFxP {
        osc1_note: &note,
        osc1_shape: &shape,
        osc1_levels: levels(0, 0, 0xffff, 0),
        osc2_note: &note,
        osc2_shape: &shape,
        osc2_levels: levels(0, 0, 0, 0),
        sync: false,
        osc1_mix: &full,
        osc2_mix: &zero,
        ring_mix: &full,
    });
    assert_eq!(out.len(), 8);
    assert_eq!(out[0].to_bits(), 4093);
    let mut mix = MixOscFxP::new();
    let out = mix.process(MixOscParamsFxP {
        osc1_note: &note,
        osc1_shape: &shape,
        osc1_levels: levels(0, 0, 0xffff, 0),
        osc2_note: &note,
        osc2_shape: &shape,
        osc2_levels: levels(0, 0, 0xffff, 0),
        sync: true,
        osc1_mix: &zero,
        osc2_mix: &zero,
        ring_mix: &full[..5],
    });
    // the ring modulator alone: 4094 * 4094 / 4096 = 4092, then scaled by the mix level
    assert_eq!(out.len(), 5);
    assert_eq!(out[0].to_bits(), 4091);
}

#[test]
fn modulated_filter_without_modulation_is_the_plain_filter() {
    let n = 300;
    let input: Vec<SampleFxP> = (0..n).map(|i| SampleFxP::from_bits(((i * 97) % 4096) as i16 - 2048)).collect();
    let cutoff = vec![NoteFxP::from_bits(70 << 9); n];
    let res = vec![ScalarFxP::from_bits(0x3000); n];
    let mut plain = FiltFxP::new();
    let expected: Vec<i16> = plain
        .process(&input, FiltParamsFxP { cutoff: &cutoff, resonance: &res })
        .low
        .iter()
        .map(|s| s.to_bits())
        .collect();
    let mut mf = ModFiltFxP::new();
    let gate = vec![true; n];
    let a = vec![EnvParamFxP::from_bits(0x100); n];
    let s = vec![ScalarFxP::from_bits(0x8000); n];
    let zero = vec![ScalarFxP::from_bits(0); n];
    let m = vec![0i16; n];
    let note = vec![NoteFxP::from_bits(60 << 9); n];
    let out = mf.process(
        &input,
        ModFiltParamsFxP {
            gate: &gate,
            env: EnvParamsFxP { attack: &a, decay: &a, sustain: &s, release: &a },
            cutoff: &cutoff,
            env_mod: &zero,
            modulation: &m,
            note: &note,
            keytrack: &zero,
            resonance: &res,
        },
    );
    let got: Vec<i16> = out.low.iter().map(|s| s.to_bits()).collect();
    assert_eq!(got.len(), 256);
    assert_eq!(got, expected);
}

#[test]
fn modulated_filter_offset_matches_shifted_cutoff() {
    let n = 100;
    let input: Vec<SampleFxP> = (0..n).map(|i| SampleFxP::from_bits(((i * 331) % 8192) as i16 - 4096)).collect();
    let res = vec![ScalarFxP::from_bits(0); n];
    let mut plain = FiltFxP::new();
    let shifted = vec![NoteFxP::from_bits((50 << 9) + 1000); n];
    let expected: Vec<i16> = plain
        .process(&input, FiltParamsFxP { cutoff: &shifted, resonance: &res })
        .band
        .iter()
        .map(|s| s.to_bits())
        .collect();
    let mut mf = ModFiltFxP::new();
    let gate = vec![false; n];
    let a = vec![EnvParamFxP::from_bits(0x100); n];
    let zero = vec![ScalarFxP::from_bits(0); n];
    let m = vec![1000i16; n];
    let cutoff = vec![NoteFxP::from_bits(50 << 9); n];
    let note = vec![NoteFxP::from_bits(60 << 9); n];
    let track = vec![ScalarFxP::from_bits(0xffff); n];
    let out = mf.process(
        &input,
        ModFiltParamsFxP {
            gate: &gate,
            env: EnvParamsFxP { attack: &a, decay: &a, sustain: &zero, release: &a },
            cutoff: &cutoff,
            env_mod: &zero,
            modulation: &m,
            note: &note,
            keytrack: &track,
            resonance: &res,
        },
    );
    let got: Vec<i16> = out.band.iter().map(|s| s.to_bits()).collect();
    assert_eq!(got, expected);
}

#[test]
fn voice_renders_and_falls_silent_after_release() {
    let mut v = VoiceFxP::new();
    let p = voice_params();
    let m = [0i16; NUM_DESTS];
    assert!(v.is_idle());
    let out = v.render(300, NoteFxP::from_bits(57 << 9), true, &p, &m);
    assert_eq!(out.len(), 256);
    assert!(out.iter().any(|s| s.to_bits().abs() > 500));
    assert!(!v.is_idle());
    let out = v.render(17, NoteFxP::from_bits(57 << 9), false, &p, &m);
    assert_eq!(out.len(), 17);
    for _ in 0..100 {
        v.render(256, NoteFxP::from_bits(57 << 9), false, &p, &m);
    }
    assert!(v.is_idle());
    assert_eq!(v.level(), 0);
}

#[test]
fn allocator_renders_active_voices_and_reclaims_silent_ones() {
    let mut a = VoiceAllocator::new_poly(2).unwrap();
    let p = voice_params();
    let matrix = ModMatrix::new();
    let m = [0i16; NUM_SRCS];
    let out = a.render_block(64, &p, &matrix, &m);
    assert_eq!(out.len(), 64);
    assert!(out.iter().all(|s| s.to_bits() == 0));
    a.note_on(60, 100);
    let out = a.render_block(512, &p, &matrix, &m);
    assert_eq!(out.len(), 256);
    assert!(out.iter().any(|s| s.to_bits() != 0));
    a.note_off(60);
    a.render_block(256, &p, &matrix, &m);
    assert_eq!(a.voice(0).stage, VoiceStage::Releasing);
    assert!(a.voice(0).level > 0);
    for _ in 0..100 {
        a.render_block(256, &p, &matrix, &m);
    }
    assert_eq!(a.voice(0).stage, VoiceStage::Idle);
    assert!(a.render_block(32, &p, &matrix, &m).iter().all(|s| s.to_bits() == 0));
}

#[test]
fn lfo_waveforms_and_rate() {
    let freq = vec![USampleFxP::from_bits(8 << 12); 300];
    let mut lfo = LfoFxP::new();
    let out = lfo.process(LfoWave::Saw, &freq);
    assert_eq!(out.len(), 256);
    assert_eq!(out[0].to_bits(), -4096);
    assert_eq!(out[255].to_bits(), -3718);
    let mut lfo = LfoFxP::new();
    let out = lfo.process(LfoWave::Square, &freq[..3]);
    assert_eq!(out.len(), 3);
    assert_eq!(out[0].to_bits(), 4095);
    let mut lfo = LfoFxP::new();
    assert_eq!(lfo.process(LfoWave::Sine, &freq[..1])[0].to_bits(), 0);
}

#[test]
fn velocity_reaches_the_voice_through_the_matrix() {
    let mut p = voice_params();
    p.osc2_mix = ScalarFxP::from_bits(0);
    let mut matrix = ModMatrix::new();
    matrix.set_slot(ModSrc::Velocity, 0, ModDest::Osc1Level, -0x8000).unwrap();
    let sources = [0i16; NUM_SRCS];
    let mut soft = VoiceAllocator::new_poly(1).unwrap();
    soft.note_on(60, 0);
    let out = soft.render_block(256, &p, &matrix, &sources);
    assert!(out.iter().any(|s| s.to_bits() != 0));
    let mut hard = VoiceAllocator::new_poly(1).unwrap();
    hard.note_on(60, 127);
    assert_eq!(hard.voice(0).velocity, 127);
    let out = hard.render_block(256, &p, &matrix, &sources);
    assert!(out.iter().all(|s| s.to_bits() == 0));
}
