use emoji_selector::config::{Annotation, Annotations};
use emoji_selector::locale::{load_order, merge_annotations, reversed};

fn list(items: &[&str]) -> Vec<String> {
    items.iter().map(|s| s.to_string()).collect()
}

fn table(entries: &[(&str, &str)]) -> Annotations {
    let mut annotations = Annotations::new();
    for (key, name) in entries {
        annotations.insert(key.to_string(), Annotation { default: vec![], tts: vec![name.to_string()] });
    }
    annotations
}

#[test]
fn best_language_is_loaded_last() {
    let order = load_order(&list(&["de-AT", "fr"]), &list(&["en", "it", "fr", "de"]));
    assert_eq!(order, list(&["en", "fr", "de"]));
}

#[test]
fn english_is_always_loaded() {
    assert_eq!(load_order(&list(&["ja"]), &list(&["en", "de"])), list(&["en"]));
    assert_eq!(load_order(&list(&[]), &list(&[])), list(&["en"]));
    assert_eq!(load_order(&list(&["en-US"]), &list(&["en", "de"])), list(&["en"]));
    assert_eq!(load_order(&list(&["not a tag!", "de"]), &list(&["de", "???"])), list(&["en", "de"]));
}

#[test]
fn lists_are_turned_round() {
    assert_eq!(reversed(list(&["a", "b", "c"])), list(&["c", "b", "a"]));
    assert_eq!(reversed(list(&[])), list(&[]));
}

#[test]
fn annotations_of_the_last_table_stay() {
    let merged = merge_annotations(vec![
        table(&[("😀", "grinning face"), ("🏁", "chequered flag")]),
        table(&[("😀", "visage rieur")]),
        table(&[("😀", "grinsendes Gesicht"), ("👋", "winkende Hand")]),
    ]);
    assert_eq!(merged.len(), 3);
    assert_eq!(merged.get("😀").unwrap().tts[0], "grinsendes Gesicht");
    assert_eq!(merged.get("🏁").unwrap().tts[0], "chequered flag");
    assert_eq!(merged.get("👋").unwrap().tts[0], "winkende Hand");
    assert_eq!(merge_annotations(Vec::new()).len(), 0);
}
