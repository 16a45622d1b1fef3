use emoji_selector::config::{Annotation, Annotations};
use emoji_selector::emoji::{append_records, build_catalog, expand, CatalogRecord, Emoji};
use emoji_selector::filter::{emoji_name_localized, entry_passes, filter};
use emoji_selector::group::Group;
use emoji_selector::skin_tone::{SkinTone, SkinToneMode};
use emoji_selector::text::{base_glyph, name_matches};

fn entry(glyph: &str, name: &str, group: Group, skin_tone: Option<SkinTone>) -> Emoji {
    Emoji {
        glyph: glyph.to_string(),
        name: name.to_string(),
        shortcode: None,
        group,
        skin_tone,
    }
}

fn small_catalog() -> Vec<Emoji> {
    vec![
        entry("😀", "grinning face", Group::SmileysAndEmotion, None),
        entry("😁", "beaming face with smiling eyes", Group::SmileysAndEmotion, None),
        entry("👋", "waving hand", Group::PeopleAndBody, Some(SkinTone::Default)),
        entry("👋🏻", "waving hand: light skin tone", Group::PeopleAndBody, Some(SkinTone::Light)),
        entry("😸", "grinning cat with smiling eyes", Group::SmileysAndEmotion, None),
        entry("🏁", "chequered flag", Group::Flags, None),
    ]
}

fn initial_mode() -> SkinToneMode {
    SkinToneMode::initial()
}

#[test]
fn catalog_expands_skin_tones() {
    let catalog = build_catalog();
    let mut expected: Vec<&'static emojis::Emoji> = Vec::new();
    for emoji in emojis::iter() {
        match emoji.skin_tones() {
            Some(skin_tones) => expected.extend(skin_tones),
            None => expected.push(emoji),
        }
    }
    assert!(catalog.len() > emojis::iter().count());
    assert_eq!(catalog.len(), expected.len());
    for (entry, emoji) in catalog.iter().zip(expected.iter()) {
        assert_eq!(entry.glyph, emoji.as_str());
        assert_eq!(entry.name, emoji.name());
        assert_eq!(entry.shortcode.as_deref(), emoji.shortcode());
    }
}

#[test]
fn catalog_entries_carry_group_and_tone() {
    let catalog = build_catalog();
    assert_eq!(catalog[0].glyph, "😀");
    assert_eq!(catalog[0].name, "grinning face");
    assert_eq!(catalog[0].group, Group::SmileysAndEmotion);
    assert_eq!(catalog[0].skin_tone, None);
    assert_eq!(catalog[0].shortcode.as_deref(), Some("grinning"));
    let wave = catalog.iter().position(|e| e.glyph == "👋").unwrap();
    assert_eq!(catalog[wave].skin_tone, Some(SkinTone::Default));
    assert_eq!(catalog[wave].group, Group::PeopleAndBody);
    assert_eq!(catalog[wave + 1].glyph, "👋🏻");
    assert_eq!(catalog[wave + 1].skin_tone, Some(SkinTone::Light));
    assert_eq!(catalog[wave + 5].glyph, "👋🏿");
    assert_eq!(catalog[wave + 5].skin_tone, Some(SkinTone::Dark));
    assert_ne!(catalog[wave + 6].name, catalog[wave].name);
    let couple = catalog.iter().position(|e| e.glyph == "👩🏿‍❤️‍👨🏼").unwrap();
    assert_eq!(catalog[couple].skin_tone, Some(SkinTone::DarkAndMediumLight));
    assert_eq!(catalog.last().unwrap().group, Group::Flags);
    assert_eq!(catalog.iter().filter(|e| e.glyph == "👋").count(), 1);
}

#[test]
fn catalog_groups_and_tones_agree_with_the_database() {
    let groups: Vec<emojis::Group> = emojis::Group::iter().collect();
    for entry in build_catalog() {
        let emoji = emojis::get(&entry.glyph).unwrap();
        assert_eq!(emoji.as_str(), entry.glyph);
        assert_eq!(Group::from_index(groups.iter().position(|g| *g == emoji.group()).unwrap() as u8), entry.group);
        assert_eq!(emoji.skin_tone().is_some(), entry.skin_tone.is_some());
        if let (Some(tone), Some(ours)) = (emoji.skin_tone(), entry.skin_tone) {
            assert_eq!(format!("{:?}", tone), format!("{:?}", ours));
        }
    }
}

#[test]
fn records_become_entries() {
    let record = CatalogRecord {
        glyph: "👋🏽".to_string(),
        name: "waving hand: medium skin tone".to_string(),
        shortcode: Some("wave".to_string()),
        group_index: 1,
        tone_index: Some(3),
    };
    let emoji = Emoji::from_record(&record);
    assert_eq!(emoji.glyph, "👋🏽");
    assert_eq!(emoji.name, "waving hand: medium skin tone");
    assert_eq!(emoji.shortcode.as_deref(), Some("wave"));
    assert_eq!(emoji.group, Group::PeopleAndBody);
    assert_eq!(emoji.skin_tone, Some(SkinTone::Medium));
    let unknown = Emoji::from_record(&CatalogRecord { tone_index: Some(99), group_index: 0, ..record.clone() });
    assert_eq!(unknown.skin_tone, Some(SkinTone::Other));
    let mut catalog = vec![emoji];
    append_records(
        &mut catalog,
        &vec![
            CatalogRecord { glyph: "a".to_string(), tone_index: None, ..record.clone() },
            CatalogRecord { glyph: "b".to_string(), ..record.clone() },
            CatalogRecord { glyph: "c".to_string(), ..record },
        ],
    );
    let glyphs: Vec<&str> = catalog.iter().map(|e| e.glyph.as_str()).collect();
    assert_eq!(glyphs, ["👋🏽", "a", "b", "c"]);
    assert_eq!(catalog[1].skin_tone, None);
}

#[test]
fn selectors_are_stripped() {
    assert_eq!(base_glyph("\u{2764}\u{fe0f}"), "\u{2764}");
    assert_eq!(base_glyph("\u{fe0e}a\u{fe0f}b\u{fe0f}"), "ab");
    assert_eq!(base_glyph("😀"), "😀");
    assert_eq!(base_glyph(""), "");
}

#[test]
fn names_match_by_substring() {
    assert!(name_matches("grinning face", "grin"));
    assert!(name_matches("grinning face", "face"));
    assert!(name_matches("grinning face", ""));
    assert!(name_matches("", ""));
    assert!(!name_matches("grinning face", "Grin"));
    assert!(!name_matches("grinning face", "grinx"));
    assert!(!name_matches("grin", "grinning"));
    assert!(name_matches("smiling café", "fé"));
}

#[test]
fn localized_name_comes_from_the_annotation() {
    let mut annotations = Annotations::new();
    annotations.insert(
        "\u{2764}".to_string(),
        Annotation { default: vec!["liebe".to_string()], tts: vec!["rotes Herz".to_string(), "Herz".to_string()] },
    );
    annotations.insert("😀".to_string(), Annotation { default: vec!["x".to_string()], tts: vec![] });
    assert_eq!(annotations.len(), 2);
    let heart = entry("\u{2764}\u{fe0f}", "red heart", Group::SmileysAndEmotion, None);
    assert_eq!(emoji_name_localized(&annotations, &heart), "rotes Herz");
    let grin = entry("😀", "grinning face", Group::SmileysAndEmotion, None);
    assert_eq!(emoji_name_localized(&annotations, &grin), "grinning face");
    let flag = entry("🏁", "chequered flag", Group::Flags, None);
    assert_eq!(emoji_name_localized(&annotations, &flag), "chequered flag");
    assert!(entry_passes(&heart, &annotations, None, initial_mode(), "Herz"));
    assert!(!entry_passes(&heart, &annotations, None, initial_mode(), "heart"));
}

#[test]
fn later_annotations_replace_earlier_ones() {
    let mut english = Annotations::new();
    english.insert("😀".to_string(), Annotation { default: vec![], tts: vec!["grinning face".to_string()] });
    english.insert("🏁".to_string(), Annotation { default: vec![], tts: vec!["chequered flag".to_string()] });
    let mut german = Annotations::new();
    german.insert("😀".to_string(), Annotation { default: vec![], tts: vec!["grinsendes Gesicht".to_string()] });
    english.extend(german);
    assert_eq!(english.len(), 2);
    assert_eq!(english.get("😀").unwrap().tts[0], "grinsendes Gesicht");
    assert_eq!(english.get("🏁").unwrap().tts[0], "chequered flag");
    assert!(english.get("👋").is_none());
}

#[test]
fn search_emptiness() {
    let catalog = small_catalog();
    let annotations = Annotations::new();
    let all = filter(&catalog, &annotations, None, initial_mode(), "", &vec![]);
    assert_eq!(all.emojis, vec![0, 1, 2, 4, 5]);
    assert_eq!(all.favorites, Vec::<usize>::new());
    let smileys = filter(&catalog, &annotations, Some(Group::SmileysAndEmotion), initial_mode(), "", &vec![]);
    assert_eq!(smileys.emojis, vec![0, 1, 4]);
    let light = SkinToneMode::from_bits(SkinToneMode::LIGHT);
    let people = filter(&catalog, &annotations, Some(Group::PeopleAndBody), light, "", &vec![]);
    assert_eq!(people.emojis, vec![3]);
}

#[test]
fn end_to_end() {
    let catalog = small_catalog();
    let annotations = Annotations::new();
    let last_used = vec!["🏁".to_string(), "😸".to_string(), "😀".to_string()];
    let result = filter(&catalog, &annotations, Some(Group::SmileysAndEmotion), initial_mode(), "grin", &last_used);
    assert_eq!(result.emojis, vec![0, 4]);
    assert_eq!(result.favorites, vec![0, 4]);
    let some = filter(&catalog, &annotations, Some(Group::SmileysAndEmotion), initial_mode(), "grin", &vec!["😸".to_string()]);
    assert_eq!(some.emojis, vec![0, 4]);
    assert_eq!(some.favorites, vec![4]);
}

#[test]
fn end_to_end_on_the_whole_catalog() {
    let catalog = build_catalog();
    let annotations = Annotations::new();
    let last_used = vec!["😁".to_string(), "😸".to_string(), "👋".to_string()];
    let result = filter(&catalog, &annotations, Some(Group::SmileysAndEmotion), initial_mode(), "grin", &last_used);
    assert!(!result.emojis.is_empty());
    assert!(result.emojis.windows(2).all(|pair| pair[0] < pair[1]));
    for &position in &result.emojis {
        assert_eq!(catalog[position].group, Group::SmileysAndEmotion);
        assert!(catalog[position].name.contains("grin"));
    }
    let expected = catalog
        .iter()
        .filter(|e| e.group == Group::SmileysAndEmotion && e.name.contains("grin"))
        .count();
    assert_eq!(result.emojis.len(), expected);
    let favorites: Vec<&str> = result.favorites.iter().map(|&p| catalog[p].glyph.as_str()).collect();
    assert_eq!(favorites, ["😸"]);
    assert_eq!(catalog[result.emojis[0]].glyph, "😀");
}

#[test]
fn a_list_of_records_is_expanded() {
    let wave = CatalogRecord {
        glyph: "👋".to_string(),
        name: "waving hand".to_string(),
        shortcode: Some("wave".to_string()),
        group_index: 1,
        tone_index: Some(0),
    };
    let grin = CatalogRecord {
        glyph: "😀".to_string(),
        name: "grinning face".to_string(),
        shortcode: None,
        group_index: 0,
        tone_index: None,
    };
    let unknown = CatalogRecord { glyph: "no emoji".to_string(), ..grin.clone() };
    let catalog = expand(&vec![grin, wave, unknown]);
    let glyphs: Vec<&str> = catalog.iter().map(|e| e.glyph.as_str()).collect();
    assert_eq!(glyphs, ["😀", "👋", "👋🏻", "👋🏼", "👋🏽", "👋🏾", "👋🏿", "no emoji"]);
    assert_eq!(catalog[3].skin_tone, Some(SkinTone::MediumLight));
    assert_eq!(catalog[3].name, "waving hand: medium-light skin tone");
    assert_eq!(catalog[7].name, "grinning face");
    assert!(expand(&Vec::new()).is_empty());
}
