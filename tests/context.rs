use janus::context::ContextFxP;
use janus::devices::FiltParamsFxP;
use janus::{NoteFxP, SampleFxP, ScalarFxP};

#[test]
fn unsupported_sample_rate_has_no_fixed_context() {
    assert!(ContextFxP::maybe_create(48000).is_none());
    assert!(ContextFxP::maybe_create(0).is_none());
}

#[test]
fn supported_context_filter_passes_dc() {
    let ctx = ContextFxP::maybe_create(44100).unwrap();
    assert_eq!(ctx.sample_rate(), 44100);
    let mut filt = ctx.filt();
    let input = vec![SampleFxP::from_bits(-4096); 256];
    let cutoff = vec![NoteFxP::from_bits(36 << 9); 256];
    let res = vec![ScalarFxP::from_bits(0); 256];
    let mut last = (0, 0);
    for _ in 0..80 {
        let out = filt.process(&input, FiltParamsFxP { cutoff: &cutoff, resonance: &res });
        last = (out.low[255].to_bits(), out.high[255].to_bits());
    }
    assert!((last.0 + 4096).abs() <= 41, "low {}", last.0);
    assert!(last.1.abs() <= 2, "high {}", last.1);
}
