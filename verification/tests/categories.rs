use emoji_selector::group::{
    cycle_left, cycle_right, group_from_key, key_from_group, show_color_buttons, Group,
};

#[test]
fn category_cycle_wraps() {
    let flags = group_from_key(b'9');
    assert_eq!(flags, Some(Group::Flags));
    let all = cycle_right(flags);
    assert_eq!(all, None);
    assert_eq!(key_from_group(all), b'0');
    let first = cycle_right(all);
    assert_eq!(first, Some(Group::SmileysAndEmotion));
    assert_eq!(key_from_group(first), b'1');
}

#[test]
fn category_cycle_wraps_to_the_left() {
    assert_eq!(cycle_left(None), Some(Group::Flags));
    assert_eq!(cycle_left(Some(Group::SmileysAndEmotion)), None);
    assert_eq!(cycle_left(Some(Group::Flags)), Some(Group::Symbols));
}

#[test]
fn ten_steps_come_back() {
    let mut selection = Some(Group::Objects);
    for _ in 0..10 {
        selection = cycle_right(selection);
    }
    assert_eq!(selection, Some(Group::Objects));
    for _ in 0..10 {
        selection = cycle_left(selection);
    }
    assert_eq!(selection, Some(Group::Objects));
}

#[test]
fn keys_and_categories() {
    let groups = [
        Group::SmileysAndEmotion,
        Group::PeopleAndBody,
        Group::AnimalsAndNature,
        Group::FoodAndDrink,
        Group::TravelAndPlaces,
        Group::Activities,
        Group::Objects,
        Group::Symbols,
        Group::Flags,
    ];
    for (index, group) in groups.iter().enumerate() {
        let key = b'1' + index as u8;
        assert_eq!(group_from_key(key), Some(*group));
        assert_eq!(key_from_group(Some(*group)), key);
        assert_eq!(Group::from_index(index as u8), *group);
    }
    assert_eq!(group_from_key(b'0'), None);
    assert_eq!(group_from_key(b'a'), None);
    assert_eq!(group_from_key(0), None);
    assert_eq!(group_from_key(255), None);
    assert_eq!(Group::from_index(9), Group::Flags);
}

#[test]
fn color_buttons_for_people_and_smileys() {
    assert!(show_color_buttons(None));
    assert!(show_color_buttons(Some(Group::PeopleAndBody)));
    assert!(show_color_buttons(Some(Group::SmileysAndEmotion)));
    assert!(!show_color_buttons(Some(Group::Flags)));
    assert!(!show_color_buttons(Some(Group::Objects)));
}
