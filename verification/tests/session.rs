use emoji_selector::config::{Annotations, ClickMode, ColorButton, Config, DEFAULT_LAST_USED_LIMIT};
use emoji_selector::emoji::Emoji;
use emoji_selector::favorites::{contains, position, record_use};
use emoji_selector::group::Group;
use emoji_selector::navigation::{group_icon, group_string, navigation_message, preview_name, Key};
use emoji_selector::scrollable::geometry::Rectangle;
use emoji_selector::scrollable::offset::{AbsoluteOffset, Offset, RelativeOffset, Viewport};
use emoji_selector::skin_tone::{SkinTone, SkinToneMode};
use emoji_selector::window::{Command, Flags, Message, Window};

fn entry(glyph: &str, name: &str, group: Group, skin_tone: Option<SkinTone>) -> Emoji {
    Emoji { glyph: glyph.to_string(), name: name.to_string(), shortcode: None, group, skin_tone }
}

fn window() -> Window {
    let catalog = vec![
        entry("😀", "grinning face", Group::SmileysAndEmotion, None),
        entry("😁", "beaming face with smiling eyes", Group::SmileysAndEmotion, None),
        entry("👋", "waving hand", Group::PeopleAndBody, Some(SkinTone::Default)),
        entry("👋🏻", "waving hand: light skin tone", Group::PeopleAndBody, Some(SkinTone::Light)),
        entry("🏁", "chequered flag", Group::Flags, None),
    ];
    let (mut window, first) =
        Window::init(catalog, Flags { config: Config::default(), annotations: Annotations::new() });
    assert!(window.update(first).is_empty());
    window
}

fn names(list: &[String]) -> Vec<&str> {
    list.iter().map(|s| s.as_str()).collect()
}

#[test]
fn favorites_ordering() {
    let mut last_used: Vec<String> = Vec::new();
    record_use(&mut last_used, "A", 2);
    record_use(&mut last_used, "B", 2);
    record_use(&mut last_used, "A", 2);
    assert_eq!(names(&last_used), ["A", "B"]);
    let mut longer: Vec<String> = Vec::new();
    for glyph in ["A", "B", "A"] {
        record_use(&mut longer, glyph, 20);
    }
    assert_eq!(names(&longer), ["A", "B"]);
}

#[test]
fn favorites_truncation() {
    let mut last_used: Vec<String> = Vec::new();
    for glyph in ["A", "B", "C", "D"] {
        record_use(&mut last_used, glyph, 3);
    }
    assert_eq!(names(&last_used), ["D", "C", "B"]);
    record_use(&mut last_used, "B", 3);
    assert_eq!(names(&last_used), ["B", "D", "C"]);
    record_use(&mut last_used, "E", 0);
    assert!(last_used.is_empty());
}

#[test]
fn favorites_lookup() {
    let list = vec!["x".to_string(), "y".to_string(), "x".to_string()];
    assert_eq!(position(&list, "x"), Some(0));
    assert_eq!(position(&list, "y"), Some(1));
    assert_eq!(position(&list, "z"), None);
    assert!(contains(&list, "y"));
    assert!(!contains(&list, ""));
    let mut list = list;
    record_use(&mut list, "x", 10);
    assert_eq!(names(&list), ["x", "y", "x"]);
    record_use(&mut list, "y", 2);
    assert_eq!(names(&list), ["y", "x"]);
}

#[test]
fn new_configuration() {
    let config = Config::default();
    assert_eq!(config.last_used_limit, DEFAULT_LAST_USED_LIMIT);
    assert_eq!(config.last_used_limit, 20);
    assert!(config.last_used.is_empty());
    assert_eq!(config.font_family, "Noto Color Emoji");
    assert!(config.show_preview);
    assert_eq!(config.left_click_action.bits(), ClickMode::CLOSE | ClickMode::COPY);
    assert_eq!(config.right_click_action.bits(), ClickMode::APPEND | ClickMode::COPY);
    assert_eq!(config.middle_click_action.bits(), ClickMode::COPY);
    assert_eq!(config.skin_tone_mode.bits(), SkinToneMode::DEFAULT | SkinToneMode::NO_SKIN);
    let colors: Vec<u32> = config.color_buttons.iter().map(|b| b.color).collect();
    assert_eq!(colors, [0xFFCC22ff, 0xf7deceff, 0xf3d2a2ff, 0xbf8d67ff, 0xaf7e57ff, 0x7c533eff]);
    for (index, button) in config.color_buttons.iter().enumerate() {
        assert_eq!(button.skin_tone_mode.bits(), 1 << index);
        assert_eq!(button.active, index == 0);
    }
}

#[test]
fn click_modes() {
    let mode = ClickMode::from_bits(ClickMode::COPY).union(ClickMode::from_bits(ClickMode::CLOSE));
    assert_eq!(mode.bits(), 3);
    assert!(mode.intersects(ClickMode::from_bits(ClickMode::COPY | ClickMode::PRIVATE)));
    assert!(!mode.contains(ClickMode::from_bits(ClickMode::COPY | ClickMode::PRIVATE)));
    assert!(mode.contains(ClickMode::from_bits(ClickMode::CLOSE)));
    assert!(!mode.intersects(ClickMode::from_bits(ClickMode::APPEND)));
    assert!(!mode.is_none());
    assert!(ClickMode::default().is_none());
}

#[test]
fn a_new_session_shows_the_whole_catalog() {
    let catalog = vec![entry("😀", "grinning face", Group::SmileysAndEmotion, None), entry("👋🏻", "w", Group::PeopleAndBody, Some(SkinTone::Light))];
    let (mut window, first) =
        Window::init(catalog, Flags { config: Config::default(), annotations: Annotations::new() });
    match &first {
        Message::Search(search) => assert_eq!(search, ""),
        _ => panic!("the first message asks for a search"),
    }
    assert_eq!(window.emojis_filtered, vec![0, 1]);
    assert!(window.favorites_filtered.is_empty());
    assert_eq!(window.selected_group, None);
    assert_eq!(window.search, "");
    assert_eq!(window.popup, None);
    assert_eq!(window.emoji_selected(), Some(0));
    assert!(window.update(first).is_empty());
    assert_eq!(window.emojis_filtered, vec![0]);
    assert_eq!(window.search, "");
}

#[test]
fn search_message_filters() {
    let mut window = window();
    assert_eq!(window.emojis_filtered, vec![0, 1, 2, 4]);
    window.emoji_hovered = Some(4);
    assert!(window.update(Message::Search("face".to_string())).is_empty());
    assert_eq!(window.search, "face");
    assert_eq!(window.emoji_hovered, None);
    assert_eq!(window.emojis_filtered, vec![0, 1]);
    window.update(Message::Search("zzz".to_string()));
    assert!(window.emojis_filtered.is_empty());
    assert_eq!(window.emoji_selected(), None);
    assert!(window.update(Message::Enter).is_empty());
}

#[test]
fn group_messages_and_arrows() {
    let mut window = window();
    window.update(Message::Search("a".to_string()));
    let commands = window.update(Message::Group(Some(Group::Flags)));
    assert_eq!(commands, vec![Command::ScrollTo(AbsoluteOffset { x: 0, y: 0 })]);
    assert_eq!(window.selected_group, Some(Group::Flags));
    assert_eq!(window.search, "a");
    assert_eq!(window.emojis_filtered, vec![4]);
    let commands = window.update(Message::ArrowRight);
    assert_eq!(commands, vec![Command::ScrollTo(AbsoluteOffset { x: 0, y: 0 })]);
    assert_eq!(window.selected_group, None);
    assert_eq!(window.emojis_filtered, vec![0, 1, 2, 4]);
    window.update(Message::ArrowRight);
    assert_eq!(window.selected_group, Some(Group::SmileysAndEmotion));
    assert_eq!(window.emojis_filtered, vec![0, 1]);
    window.update(Message::ArrowLeft);
    window.update(Message::ArrowLeft);
    assert_eq!(window.selected_group, Some(Group::Flags));
}

#[test]
fn names_in_a_session() {
    let mut window = window();
    window.annotations.insert(
        "🏁".to_string(),
        emoji_selector::config::Annotation { default: vec![], tts: vec!["Zielflagge".to_string()] },
    );
    assert_eq!(window.emoji_name_localized(&window.all_emojis[4]), "Zielflagge");
    assert_eq!(window.emoji_name_localized(&window.all_emojis[0]), "grinning face");
    window.update(Message::Search("Ziel".to_string()));
    assert_eq!(window.emojis_filtered, vec![4]);
}

#[test]
fn relevant_emoji() {
    let mut window = window();
    assert_eq!(window.emoji_selected(), Some(0));
    window.config.last_used = vec!["🏁".to_string(), "😁".to_string()];
    window.update(Message::Search(String::new()));
    assert_eq!(window.favorites_filtered, vec![1, 4]);
    assert_eq!(window.emoji_selected(), Some(1));
    assert!(window.update(Message::EmojiHovered(2)).is_empty());
    assert_eq!(window.emoji_selected(), Some(2));
    window.update(Message::EmojiHovered(77));
    assert_eq!(window.emoji_selected(), Some(2));
}

#[test]
fn copying_updates_the_favorites() {
    let mut window = window();
    window.update(Message::TogglePopup(7));
    let copy = ClickMode::from_bits(ClickMode::COPY);
    let commands = window.update(Message::EmojiCopy(4, copy));
    assert_eq!(commands, vec![Command::SaveLastUsed, Command::WriteClipboard(4)]);
    assert_eq!(names(&window.config.last_used), ["🏁"]);
    window.update(Message::EmojiCopy(0, copy));
    window.update(Message::EmojiCopy(4, copy));
    assert_eq!(names(&window.config.last_used), ["🏁", "😀"]);
    assert_eq!(window.popup, Some(7));
    let private = ClickMode::from_bits(ClickMode::COPY | ClickMode::PRIVATE);
    assert_eq!(window.update(Message::EmojiCopy(1, private)), vec![Command::WriteClipboard(1)]);
    assert_eq!(names(&window.config.last_used), ["🏁", "😀"]);
    let append = ClickMode::from_bits(ClickMode::APPEND);
    assert!(window.update(Message::EmojiCopy(1, append)).is_empty());
    assert_eq!(window.search, "😁");
    assert_eq!(names(&window.config.last_used), ["🏁", "😀"]);
    let close = ClickMode::from_bits(ClickMode::COPY | ClickMode::CLOSE);
    let commands = window.update(Message::EmojiCopy(2, close));
    assert_eq!(commands, vec![Command::SaveLastUsed, Command::WriteClipboard(2), Command::DestroyPopup(7)]);
    assert_eq!(window.popup, None);
    assert!(window.update(Message::EmojiCopy(99, close)).is_empty());
    assert!(window.update(Message::EmojiCopy(0, ClickMode::default())).is_empty());
}

#[test]
fn copying_keeps_to_the_limit() {
    let mut window = window();
    window.config.last_used_limit = 2;
    let copy = ClickMode::from_bits(ClickMode::COPY);
    for position in [0, 1, 2, 4] {
        window.update(Message::EmojiCopy(position, copy));
    }
    assert_eq!(names(&window.config.last_used), ["🏁", "👋"]);
}

#[test]
fn enter_copies_and_closes() {
    let mut window = window();
    window.update(Message::TogglePopup(3));
    window.update(Message::EmojiHovered(1));
    let commands = window.update(Message::Enter);
    assert_eq!(commands, vec![Command::SaveLastUsed, Command::WriteClipboard(1), Command::DestroyPopup(3)]);
    assert_eq!(names(&window.config.last_used), ["😁"]);
    assert_eq!(window.popup, None);
}

#[test]
fn popup_lifecycle() {
    let mut window = window();
    assert!(window.update(Message::Exit).is_empty());
    assert_eq!(window.update(Message::TogglePopup(1)), vec![Command::GetPopup(1)]);
    assert_eq!(window.popup, Some(1));
    assert!(window.update(Message::PopupClosed(2)).is_empty());
    assert_eq!(window.popup, Some(1));
    assert_eq!(window.update(Message::TogglePopup(5)), vec![Command::DestroyPopup(1)]);
    assert_eq!(window.popup, None);
    window.update(Message::TogglePopup(5));
    window.update(Message::PopupClosed(5));
    assert_eq!(window.popup, None);
    window.update(Message::TogglePopup(6));
    assert_eq!(window.update(Message::Exit), vec![Command::DestroyPopup(6)]);
    assert_eq!(window.update(Message::FocusTextInput), vec![Command::FocusTextInput]);
}

#[test]
fn snapping_and_scrolling() {
    let mut window = window();
    assert_eq!(window.update(Message::Snap(150_000)), vec![Command::SnapTo(RelativeOffset { x: 150_000, y: 150_000 })]);
    assert_eq!(window.update(Message::Snap(1_000_000)), vec![Command::SnapTo(RelativeOffset { x: 1_000_000, y: 1_000_000 })]);
    assert_eq!(window.update(Message::Snap(-150_000)), vec![Command::SnapTo(RelativeOffset { x: 850_000, y: 850_000 })]);
    assert_eq!(window.update(Message::Snap(-1_000_000)), vec![Command::SnapTo(RelativeOffset { x: 0, y: 0 })]);
    assert_eq!(window.update(Message::Snap(i64::MAX)), vec![Command::SnapTo(RelativeOffset { x: 1_000_000, y: 1_000_000 })]);
    let viewport = Viewport {
        offset_x: Offset::Absolute(0),
        offset_y: Offset::Absolute(50),
        bounds: Rectangle { x: 0, y: 0, width: 100, height: 100 },
        content_bounds: Rectangle { x: 0, y: 0, width: 100, height: 300 },
    };
    assert!(window.update(Message::ScrollViewport(viewport)).is_empty());
    assert_eq!(window.snap, RelativeOffset { x: 0, y: 250_000 });
    assert_eq!(window.viewport, Some(viewport));
    assert!(window.update(Message::ScrollPixels(-50)).is_empty());
    assert_eq!(window.snap, RelativeOffset { x: 0, y: 250_000 });
}

#[test]
fn color_buttons_switch_tones() {
    let mut window = window();
    assert_eq!(window.emojis_filtered, vec![0, 1, 2, 4]);
    assert_eq!(window.update(Message::ToggleColorButton(1)), vec![Command::SaveSkinTones]);
    assert!(window.config.color_buttons[1].active);
    assert_eq!(window.config.skin_tone_mode.bits(), 0x43);
    assert_eq!(window.emojis_filtered, vec![0, 1, 2, 3, 4]);
    window.update(Message::ToggleColorButton(0));
    assert!(!window.config.color_buttons[0].active);
    assert_eq!(window.config.skin_tone_mode.bits(), 0x42);
    assert_eq!(window.emojis_filtered, vec![0, 1, 3, 4]);
    assert!(window.update(Message::ToggleColorButton(6)).is_empty());
    assert_eq!(window.config.skin_tone_mode.bits(), 0x42);
    window.config.color_buttons.push(ColorButton { color: 0, skin_tone_mode: SkinToneMode::from_bits(0x40), active: true });
    window.update(Message::ToggleColorButton(6));
    assert_eq!(window.emojis_filtered, vec![3]);
}

#[test]
fn configuration_changes() {
    let mut window = window();
    let mut config = Config::default();
    config.last_used_limit = 5;
    assert!(window.update(Message::Config(config.clone())).is_empty());
    assert_eq!(window.config.last_used_limit, 5);
    config.font_family = "Other".to_string();
    assert_eq!(window.update(Message::Config(config)), vec![Command::LoadFont]);
    assert_eq!(window.config.font_family, "Other");
}

fn same(message: Option<Message>, expected: &str) {
    let text = match message {
        None => "none".to_string(),
        Some(Message::Exit) => "exit".to_string(),
        Some(Message::ArrowRight) => "right".to_string(),
        Some(Message::ArrowLeft) => "left".to_string(),
        Some(Message::ScrollPixels(pixels)) => format!("pixels {}", pixels),
        Some(Message::Snap(amount)) => format!("snap {}", amount),
        Some(Message::FocusTextInput) => "focus".to_string(),
        Some(Message::Group(group)) => format!("group {:?}", group),
        Some(_) => "other".to_string(),
    };
    assert_eq!(text, expected);
}

#[test]
fn keys_give_messages() {
    same(navigation_message(Key::Escape, false), "exit");
    same(navigation_message(Key::Escape, true), "none");
    same(navigation_message(Key::ArrowRight, false), "right");
    same(navigation_message(Key::ArrowLeft, false), "left");
    same(navigation_message(Key::ArrowDown, false), "pixels -50");
    same(navigation_message(Key::ArrowUp, false), "pixels 50");
    same(navigation_message(Key::End, false), "snap 1000000");
    same(navigation_message(Key::Home, false), "snap -1000000");
    same(navigation_message(Key::PageDown, false), "snap 150000");
    same(navigation_message(Key::PageUp, false), "snap -150000");
    same(navigation_message(Key::Character(b"/".to_vec()), false), "focus");
    same(navigation_message(Key::Character(b"0".to_vec()), false), "group None");
    same(navigation_message(Key::Character(b"4".to_vec()), false), "group Some(FoodAndDrink)");
    same(navigation_message(Key::Character(b"9".to_vec()), false), "group Some(Flags)");
    same(navigation_message(Key::Character(b"12".to_vec()), false), "none");
    same(navigation_message(Key::Character(b"a".to_vec()), false), "none");
    same(navigation_message(Key::Character(Vec::new()), false), "none");
    same(navigation_message(Key::Other, false), "none");
}

#[test]
fn long_names_are_cut() {
    assert_eq!(preview_name("grinning face"), "grinning face");
    let forty = "a".repeat(40);
    assert_eq!(preview_name(&forty), forty);
    let longer = "é".repeat(41);
    assert_eq!(preview_name(&longer), format!("{}...", "é".repeat(40)));
    assert_eq!(preview_name(""), "");
}

#[test]
fn icons_and_titles() {
    assert_eq!(group_icon(Group::SmileysAndEmotion), "dev.dominiccgeh.emotion-satisfied");
    assert_eq!(group_icon(Group::Flags), "dev.dominiccgeh.black-flag-icon");
    assert_eq!(group_icon(Group::TravelAndPlaces), "dev.dominiccgeh.world-1");
    assert_eq!(group_string(Group::PeopleAndBody), "people-and-body");
    assert_eq!(group_string(Group::Activities), "activities");
}
