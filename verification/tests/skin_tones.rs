use emoji_selector::skin_tone::{SkinTone, SkinToneMode};

fn mode(bits: u32) -> SkinToneMode {
    SkinToneMode::from_bits(bits)
}

#[test]
fn tone_filter_contains_mode() {
    let config = mode(SkinToneMode::DEFAULT | SkinToneMode::NO_SKIN);
    assert!(!config.shows(Some(SkinTone::Light)));
    assert!(config.shows(None));
    assert!(config.shows(Some(SkinTone::Default)));
}

#[test]
fn tone_filter_exact_mode() {
    let config = mode(SkinToneMode::LIGHT_AND_MEDIUM | SkinToneMode::FILTER_EXACT);
    assert!(config.shows(Some(SkinTone::LightAndMedium)));
    assert!(!config.shows(Some(SkinTone::Light)));
    assert!(!config.shows(Some(SkinTone::MediumAndLight)));
    assert!(!config.shows(None));
}

#[test]
fn pair_needs_both_tones_without_filter_bits() {
    let light = mode(SkinToneMode::LIGHT);
    assert!(light.shows(Some(SkinTone::Light)));
    assert!(!light.shows(Some(SkinTone::LightAndMedium)));
    let both = mode(SkinToneMode::LIGHT | SkinToneMode::MEDIUM);
    assert!(both.shows(Some(SkinTone::LightAndMedium)));
    assert!(both.shows(Some(SkinTone::MediumAndLight)));
    assert!(!both.shows(Some(SkinTone::LightAndDark)));
}

#[test]
fn overlap_filter_shows_pairs_of_a_selected_tone() {
    let light = mode(SkinToneMode::LIGHT | SkinToneMode::FILTER_INTERSECT);
    assert!(light.shows(Some(SkinTone::LightAndMedium)));
    assert!(light.shows(Some(SkinTone::DarkAndLight)));
    assert!(!light.shows(Some(SkinTone::MediumAndDark)));
    assert!(!light.shows(None));
}

#[test]
fn exact_filter_decides_over_overlap_filter() {
    let config = mode(
        SkinToneMode::LIGHT | SkinToneMode::FILTER_EXACT | SkinToneMode::FILTER_INTERSECT,
    );
    assert!(config.shows(Some(SkinTone::Light)));
    assert!(!config.shows(Some(SkinTone::LightAndMedium)));
}

#[test]
fn mode_of_a_tone_by_single_tones() {
    assert_eq!(SkinToneMode::new(SkinTone::Default).bits(), 1);
    assert_eq!(SkinToneMode::new(SkinTone::Dark).bits(), 1 << 5);
    assert_eq!(SkinToneMode::new(SkinTone::LightAndMediumLight).bits(), (1 << 1) | (1 << 2));
    assert_eq!(SkinToneMode::new(SkinTone::MediumLightAndLight).bits(), (1 << 1) | (1 << 2));
    assert_eq!(SkinToneMode::new(SkinTone::MediumDarkAndMedium).bits(), (1 << 4) | (1 << 3));
    assert_eq!(SkinToneMode::new(SkinTone::DarkAndMediumDark).bits(), (1 << 5) | (1 << 4));
    assert_eq!(SkinToneMode::new(SkinTone::Other).bits(), 1 << 7);
}

#[test]
fn mode_of_a_precise_tone() {
    assert_eq!(SkinToneMode::new_exact(SkinTone::Light).bits(), 1 << 1);
    assert_eq!(SkinToneMode::new_exact(SkinTone::LightAndMediumLight).bits(), 1 << 8);
    assert_eq!(SkinToneMode::new_exact(SkinTone::LightAndMedium).bits(), 1 << 9);
    assert_eq!(SkinToneMode::new_exact(SkinTone::MediumLightAndLight).bits(), 1 << 12);
    assert_eq!(SkinToneMode::new_exact(SkinTone::DarkAndMediumDark).bits(), 1 << 27);
    assert_eq!(SkinToneMode::new_exact(SkinTone::Other).bits(), 1 << 7);
}

#[test]
fn every_tone_has_its_index() {
    for index in 0..=26u8 {
        let tone = SkinTone::from_index(index);
        assert_eq!((0..=26u8).filter(|other| SkinTone::from_index(*other) == tone).count(), 1);
        let exact = SkinToneMode::new_exact(tone).bits();
        assert_eq!(exact.count_ones(), 1);
        if (6..26).contains(&index) {
            assert_eq!(exact, 1 << (index + 2));
            assert_eq!(SkinToneMode::new(tone).bits().count_ones(), 2);
        }
    }
    assert_eq!(SkinTone::from_index(200), SkinTone::Other);
}

#[test]
fn bit_set_operations() {
    let mut config = SkinToneMode::initial();
    assert_eq!(config.bits(), 0x41);
    assert!(config.contains(mode(SkinToneMode::NO_SKIN)));
    assert!(!config.contains(mode(SkinToneMode::NO_SKIN | SkinToneMode::DARK)));
    assert!(config.intersects(mode(SkinToneMode::NO_SKIN | SkinToneMode::DARK)));
    config.set(mode(SkinToneMode::DARK), true);
    assert_eq!(config.bits(), 0x61);
    config.set(mode(SkinToneMode::DEFAULT), false);
    assert_eq!(config.bits(), 0x60);
    config.insert(mode(SkinToneMode::LIGHT));
    config.remove(mode(SkinToneMode::NO_SKIN));
    assert_eq!(config.bits(), 0x22);
    assert_eq!(config.union(mode(0x100)).bits(), 0x122);
    assert!(SkinToneMode::empty().is_empty());
    assert_eq!(SkinToneMode::ALL, !0u32 >> 5);
    assert_eq!(SkinToneMode::ALL_EXACT, ((1u32 << 21) - 1) << 8);
    assert_eq!(SkinToneMode::FILTER_EXACT, 1 << 28);
}
