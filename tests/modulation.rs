use janus::modulation::{ModDest, ModMatrix, ModMatrixError, ModSlot, ModSrc, NUM_SRCS};

#[test]
fn equal_quarter_shares_resolve_to_source_value() {
    let mut m = ModMatrix::new();
    for idx in 0..4 {
        assert_eq!(m.set_slot(ModSrc::Lfo1, idx, ModDest::FiltCutoff, 0x2000), Ok(()));
    }
    let mut values = [0i16; NUM_SRCS];
    values[ModSrc::Lfo1.index()] = 12345;
    values[ModSrc::Env1.index()] = -7000;
    let out = m.resolve(&values);
    assert_eq!(out[ModDest::FiltCutoff.index()], 12345);
    values[ModSrc::Lfo1.index()] = -32768;
    let out = m.resolve(&values);
    assert_eq!(out[ModDest::FiltCutoff.index()], -32768);
}

#[test]
fn secondary_slot_rejects_primary_only_destination() {
    let mut m = ModMatrix::new();
    assert_eq!(m.set_slot(ModSrc::Env2, 0, ModDest::SlotBWeight, 100), Ok(()));
    assert_eq!(
        m.set_slot(ModSrc::Env2, 1, ModDest::SlotCWeight, 100),
        Err(ModMatrixError::PrimaryOnly)
    );
    assert_eq!(m.slot(ModSrc::Env2, 1), ModSlot { dest: ModDest::Null, weight: 0 });
    assert_eq!(m.slot(ModSrc::Env2, 0), ModSlot { dest: ModDest::SlotBWeight, weight: 100 });
    assert_eq!(
        m.set_slot(ModSrc::Env2, 4, ModDest::Osc1Note, 100),
        Err(ModMatrixError::SlotOutOfRange)
    );
}

#[test]
fn resolve_sums_weighted_sources_per_destination() {
    let mut m = ModMatrix::new();
    m.set_slot(ModSrc::Velocity, 0, ModDest::Osc1Level, 0x4000).unwrap();
    m.set_slot(ModSrc::ModWheel, 2, ModDest::Osc1Level, -0x4000).unwrap();
    m.set_slot(ModSrc::Env1, 0, ModDest::FiltResonance, 0x7fff).unwrap();
    let mut values = [0i16; NUM_SRCS];
    values[ModSrc::Velocity.index()] = 1000;
    values[ModSrc::ModWheel.index()] = 3001;
    values[ModSrc::Env1.index()] = 32767;
    let out = m.resolve(&values);
    // (1000 - 3001) * 0x4000 / 0x8000, rounded down
    assert_eq!(out[ModDest::Osc1Level.index()], -1001);
    // 32767 * 32767 / 32768, rounded down
    assert_eq!(out[ModDest::FiltResonance.index()], 32766);
    assert_eq!(out[ModDest::Osc2Note.index()], 0);
}

#[test]
fn destination_lists() {
    assert_eq!(ModDest::elements_secondary_if(false).len(), 15);
    let sec = ModDest::elements_secondary_if(true);
    assert_eq!(sec.len(), 12);
    assert!(!sec.contains(&ModDest::SlotDWeight));
    assert!(sec.contains(&ModDest::FiltCutoff));
    assert_eq!(ModSrc::elements().len(), NUM_SRCS);
}
