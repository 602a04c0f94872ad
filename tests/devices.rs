use janus::devices::{AmpFxP, FiltFxP, FiltParams, FiltParamsFxP};
use janus::fixedmath::{frequency_to_note, midi_note_to_frequency, one_over_one_plus, tan_fixed};
use janus::{NoteFxP, SampleFxP, ScalarFxP};

fn samples(bits: &[i16]) -> Vec<SampleFxP> {
    bits.iter().map(|b| SampleFxP::from_bits(*b)).collect()
}

fn run_filter(
    filt: &mut FiltFxP,
    input: &[SampleFxP],
    cutoff: &[NoteFxP],
    resonance: &[ScalarFxP],
) -> (Vec<i16>, Vec<i16>, Vec<i16>) {
    let (mut low, mut band, mut high) = (Vec::new(), Vec::new(), Vec::new());
    let mut offset = 0;
    while offset < input.len() {
        let params = FiltParamsFxP {
            cutoff: &cutoff[offset..],
            resonance: &resonance[offset..],
        };
        let out = filt.process(&input[offset..], params);
        assert!(!out.low.is_empty());
        low.extend(out.low.iter().map(|s| s.to_bits()));
        band.extend(out.band.iter().map(|s| s.to_bits()));
        high.extend(out.high.iter().map(|s| s.to_bits()));
        offset += out.low.len();
    }
    (low, band, high)
}

#[test]
fn amp_multiplies_and_saturates() {
    let mut amp = AmpFxP::new();
    let signal = samples(&[2048, -4096, 32767, -1, 0]);
    let gain = samples(&[2048, 2048, 32767, 1, 4096]);
    let out: Vec<i16> = amp.process(&signal, &gain).iter().map(|s| s.to_bits()).collect();
    assert_eq!(out, vec![1024, -2048, 32767, -1, 0]);
}

#[test]
fn amp_output_length_is_shortest_input_capped() {
    let mut amp = AmpFxP::new();
    let a = samples(&[4096; 300]);
    let b = samples(&[4096; 10]);
    assert_eq!(amp.process(&a, &b).len(), 10);
    assert_eq!(amp.process(&a, &a).len(), 256);
    assert_eq!(amp.process(&a[..0], &a).len(), 0);
    assert_eq!(amp.process(&b, &a).len(), 10);
}

#[test]
fn filter_output_length_is_shortest_input_capped() {
    let mut filt = FiltFxP::new();
    let input = samples(&[0; 300]);
    let cutoff = vec![NoteFxP::from_bits(60 << 9); 300];
    let res = vec![ScalarFxP::from_bits(0); 300];
    let out = filt.process(&input, FiltParamsFxP { cutoff: &cutoff, resonance: &res });
    assert_eq!((out.low.len(), out.band.len(), out.high.len()), (256, 256, 256));
    let out = filt.process(&input[..7], FiltParamsFxP { cutoff: &cutoff, resonance: &res });
    assert_eq!(out.low.len(), 7);
    let out = filt.process(&input, FiltParamsFxP { cutoff: &cutoff[..3], resonance: &res });
    assert_eq!(out.band.len(), 3);
    let out = filt.process(&input, FiltParamsFxP { cutoff: &cutoff, resonance: &res[..0] });
    assert_eq!(out.high.len(), 0);
}

#[test]
fn filter_params_len_is_shortest() {
    let c = [1.0f32, 2.0, 3.0];
    let r = [0.5f32];
    assert_eq!(FiltParams { cutoff: &c, resonance: &r }.len(), 1);
    let cutoff = vec![NoteFxP::from_bits(0); 4];
    let res = vec![ScalarFxP::from_bits(0); 9];
    assert_eq!(FiltParamsFxP { cutoff: &cutoff, resonance: &res }.len(), 4);
}

#[test]
fn filter_dc_passes_through_low_cutoff() {
    let mut filt = FiltFxP::new();
    let n = 20000;
    let input = samples(&vec![2048; n]);
    let cutoff = vec![NoteFxP::from_bits(24 << 9); n];
    let res = vec![ScalarFxP::from_bits(0); n];
    let (low, band, high) = run_filter(&mut filt, &input, &cutoff, &res);
    assert!((low[n - 1] - 2048).abs() <= 20, "low {}", low[n - 1]);
    assert!(band[n - 1].abs() <= 20, "band {}", band[n - 1]);
    assert!(high[n - 1].abs() <= 2, "high {}", high[n - 1]);
}

#[test]
fn filter_stays_stable_across_resonance_and_cutoff() {
    for note in (0..128u16).step_by(8) {
        for q in (0..=0xffffu32).step_by(0x2000) {
            let mut filt = FiltFxP::new();
            let n = 10000;
            let mut input = samples(&vec![2048; n]);
            input[0] = SampleFxP::from_bits(32767);
            let cutoff = vec![NoteFxP::from_bits(note << 9); n];
            let res = vec![ScalarFxP::from_bits(q as u16); n];
            let (low, _, high) = run_filter(&mut filt, &input, &cutoff, &res);
            assert!((low[n - 1] - 2048).abs() <= 205, "note {} res {}: {}", note, q, low[n - 1]);
            assert!(high[n - 1].abs() <= 205, "note {} res {}: {}", note, q, high[n - 1]);
        }
    }
}

#[test]
fn filter_fixed_agrees_with_floating_point() {
    let n = 5000;
    let bits: Vec<i16> = (0..n).map(|i| (2048.0 * (i as f64 * 0.05).sin()) as i16).collect();
    let input = samples(&bits);
    let cutoff = vec![NoteFxP::from_bits(60 << 9); n];
    let res = vec![ScalarFxP::from_bits(0x4000); n];
    let mut filt = FiltFxP::new();
    let (low, band, high) = run_filter(&mut filt, &input, &cutoff, &res);
    let r = 1.0 - 0.25f64;
    let g = (std::f64::consts::PI * 440.0 * 2f64.powf((60.0 - 69.0) / 12.0) / 44100.0).tan();
    let (mut lz, mut bz) = (0.0f64, 0.0f64);
    for i in 0..n {
        let x = bits[i] as f64 / 4096.0;
        let h = (x - (2.0 * r + g) * bz - lz) / (g * g + 2.0 * r * g + 1.0);
        let bg = g * h;
        let b = bg + bz;
        bz = b + bg;
        let lg = g * b;
        let l = lg + lz;
        lz = l + lg;
        assert!((low[i] as f64 / 4096.0 - l).abs() < 0.01, "low at {}", i);
        assert!((band[i] as f64 / 4096.0 - b).abs() < 0.01, "band at {}", i);
        assert!((high[i] as f64 / 4096.0 - h).abs() < 0.01, "high at {}", i);
    }
}

#[test]
fn filter_prewarped_gain_of_a440() {
    assert_eq!(FiltFxP::prewarped_gain(NoteFxP::from_bits(69 << 9)), 1027);
}

#[test]
fn note_to_frequency_values() {
    assert_eq!(midi_note_to_frequency(NoteFxP::from_bits(69 << 9)), 1760);
    assert_eq!(midi_note_to_frequency(NoteFxP::from_bits(0)), 32);
    assert_eq!(midi_note_to_frequency(NoteFxP::from_bits(0xffff)), 53153);
}

#[test]
fn tangent_and_reciprocal_values() {
    assert_eq!(tan_fixed(0), 0);
    assert_eq!(tan_fixed(0x8000), 17899);
    assert_eq!(one_over_one_plus(0), (32768, 0));
    assert_eq!(one_over_one_plus(1 << 29), (32768, 1));
    assert_eq!(one_over_one_plus(1 << 28), (21845, 0));
}

#[test]
fn frequency_to_note_round_trip() {
    for n in (0..=0xffffu32).step_by(97) {
        let f = midi_note_to_frequency(NoteFxP::from_bits(n as u16));
        let r = frequency_to_note(f);
        assert_eq!(midi_note_to_frequency(r), f, "note {}", n);
        assert!(r.to_bits() as u32 >= n);
    }
    // above middle C the quantisation is finer than a tenth of a semitone
    for n in ((60u32 << 9)..=0xffff).step_by(101) {
        let r = frequency_to_note(midi_note_to_frequency(NoteFxP::from_bits(n as u16)));
        assert!(r.to_bits() as u32 - n < 52, "note {}", n);
    }
}

#[test]
fn frequency_to_note_values() {
    assert_eq!(frequency_to_note(1760).to_bits(), 35332);
    assert_eq!(frequency_to_note(10).to_bits(), 0);
    assert_eq!(frequency_to_note(65535).to_bits(), 0xffff);
}
