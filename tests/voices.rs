use janus::voicealloc::{VoiceAllocator, VoiceMode, VoiceStage};

#[test]
fn poly_fills_idle_voices_then_steals_oldest() {
    let mut a = VoiceAllocator::new_poly(3).unwrap();
    assert_eq!(a.note_on(60, 100), 0);
    assert_eq!(a.note_on(62, 100), 1);
    assert_eq!(a.note_on(64, 100), 2);
    assert_eq!(a.note_on(65, 100), 0);
    assert_eq!(a.voice(0).note, 65);
    assert_eq!(a.voice(0).stage, VoiceStage::Held);
    assert_eq!(a.note_on(67, 100), 1);
}

#[test]
fn poly_steals_quietest_releasing_voice() {
    let mut a = VoiceAllocator::new_poly(3).unwrap();
    a.note_on(60, 100);
    a.note_on(62, 100);
    a.note_on(64, 100);
    a.note_off(62);
    a.note_off(64);
    a.report_level(1, 900);
    a.report_level(2, 300);
    assert_eq!(a.voice(1).stage, VoiceStage::Releasing);
    assert_eq!(a.note_on(70, 100), 2);
}

#[test]
fn released_voice_becomes_idle_at_silence() {
    let mut a = VoiceAllocator::new_poly(2).unwrap();
    a.note_on(60, 100);
    a.note_on(62, 100);
    a.note_off(60);
    a.report_level(0, 0);
    assert_eq!(a.voice(0).stage, VoiceStage::Idle);
    assert_eq!(a.note_on(64, 100), 0);
}

#[test]
fn mono_retriggers_the_same_voice() {
    let mut a = VoiceAllocator::new_mono();
    assert_eq!(a.mode(), VoiceMode::Mono);
    assert_eq!(a.note_on(60, 100), 0);
    a.note_off(60);
    assert_eq!(a.voice(0).stage, VoiceStage::Releasing);
    assert_eq!(a.note_on(60, 100), 0);
    assert_eq!(a.num_voices(), 1);
    assert_eq!(a.voice(0).stage, VoiceStage::Held);
    assert_eq!(a.note_on(72, 100), 0);
    assert_eq!(a.voice(0).note, 72);
}

#[test]
fn empty_poly_pool_is_refused() {
    assert!(VoiceAllocator::new_poly(0).is_none());
}
