//! The nine emoji categories, their digit keys and the order in which the
//! arrow keys walk through them.

use vstd::prelude::*;

verus! {

/// A category of the emoji catalog.
#[derive(Clone, Copy, Debug, PartialEq, Eq, Structural, Hash)]
pub enum Group {
    SmileysAndEmotion,
    PeopleAndBody,
    AnimalsAndNature,
    FoodAndDrink,
    TravelAndPlaces,
    Activities,
    Objects,
    Symbols,
    Flags,
}

/// The ASCII digit `'0'`, the key of "all categories".
pub const KEY_ALL: u8 = 48;

/// The ASCII digit `'9'`, the key of the last category.
pub const KEY_LAST: u8 = 57;

/// Position of a selection in the cycle: 0 for "all categories", 1 to 9 for
/// the categories in catalog order.
pub open spec fn selection_index(group: Option<Group>) -> int {
    match group {
        None => 0,
        Some(Group::SmileysAndEmotion) => 1,
        Some(Group::PeopleAndBody) => 2,
        Some(Group::AnimalsAndNature) => 3,
        Some(Group::FoodAndDrink) => 4,
        Some(Group::TravelAndPlaces) => 5,
        Some(Group::Activities) => 6,
        Some(Group::Objects) => 7,
        Some(Group::Symbols) => 8,
        Some(Group::Flags) => 9,
    }
}

/// The selection at a position of the cycle; positions outside 1 to 9 select
/// all categories.
pub open spec fn selection_at(index: int) -> Option<Group> {
    if index == 1 {
        Some(Group::SmileysAndEmotion)
    } else if index == 2 {
        Some(Group::PeopleAndBody)
    } else if index == 3 {
        Some(Group::AnimalsAndNature)
    } else if index == 4 {
        Some(Group::FoodAndDrink)
    } else if index == 5 {
        Some(Group::TravelAndPlaces)
    } else if index == 6 {
        Some(Group::Activities)
    } else if index == 7 {
        Some(Group::Objects)
    } else if index == 8 {
        Some(Group::Symbols)
    } else if index == 9 {
        Some(Group::Flags)
    } else {
        None
    }
}

/// The category that a key selects: the digits `'1'` to `'9'` select the
/// categories in order, every other byte selects all categories.
pub fn group_from_key(key: u8) -> (group: Option<Group>)
    ensures
        group == selection_at(key - KEY_ALL),
{
    if key == 49 {
        Some(Group::SmileysAndEmotion)
    } else if key == 50 {
        Some(Group::PeopleAndBody)
    } else if key == 51 {
        Some(Group::AnimalsAndNature)
    } else if key == 52 {
        Some(Group::FoodAndDrink)
    } else if key == 53 {
        Some(Group::TravelAndPlaces)
    } else if key == 54 {
        Some(Group::Activities)
    } else if key == 55 {
        Some(Group::Objects)
    } else if key == 56 {
        Some(Group::Symbols)
    } else if key == 57 {
        Some(Group::Flags)
    } else {
        None
    }
}

impl Group {
    /// The category at a position of the catalog order, from 0; every
    /// position past the last gives the last category.
    pub open spec fn at(index: int) -> Group {
        match selection_at(index + 1) {
            Some(group) => group,
            None => Group::Flags,
        }
    }

    /// The category at a position of the catalog order.
    pub fn from_index(index: u8) -> (group: Group)
        ensures
            group == Group::at(index as int),
    {
        if index < 9 {
            match group_from_key(KEY_ALL + 1 + index) {
                Some(group) => group,
                None => Group::Flags,
            }
        } else {
            Group::Flags
        }
    }
}

/// The digit key of a selection: `'0'` for all categories, `'1'` to `'9'` for
/// the categories.
pub fn key_from_group(group: Option<Group>) -> (key: u8)
    ensures
        key == KEY_ALL + selection_index(group),
        KEY_ALL <= key <= KEY_LAST,
{
    match group {
        None => 48,
        Some(Group::SmileysAndEmotion) => 49,
        Some(Group::PeopleAndBody) => 50,
        Some(Group::AnimalsAndNature) => 51,
        Some(Group::FoodAndDrink) => 52,
        Some(Group::TravelAndPlaces) => 53,
        Some(Group::Activities) => 54,
        Some(Group::Objects) => 55,
        Some(Group::Symbols) => 56,
        Some(Group::Flags) => 57,
    }
}

/// The selection after the right arrow: the next position of the ten, the
/// last category leading back to all categories.
pub fn cycle_right(group: Option<Group>) -> (next: Option<Group>)
    ensures
        selection_index(next) == (selection_index(group) + 1) % 10,
{
    let key: u8 = key_from_group(group);
    let next_key: u8 = if key >= KEY_LAST {
        KEY_ALL
    } else {
        key + 1
    };
    group_from_key(next_key)
}

/// The selection after the left arrow: the previous position of the ten, all
/// categories leading back to the last category.
pub fn cycle_left(group: Option<Group>) -> (next: Option<Group>)
    ensures
        selection_index(next) == (selection_index(group) + 9) % 10,
{
    let key: u8 = key_from_group(group);
    let next_key: u8 = if key <= KEY_ALL {
        KEY_LAST
    } else {
        key - 1
    };
    group_from_key(next_key)
}

/// Whether the skin-tone buttons are shown: for all categories and for the
/// two categories that hold emoji with skin tones.
pub fn show_color_buttons(group: Option<Group>) -> (shown: bool)
    ensures
        shown == (group is None || group == Some(Group::PeopleAndBody) || group == Some(
            Group::SmileysAndEmotion,
        )),
{
    match group {
        None => true,
        Some(Group::PeopleAndBody) => true,
        Some(Group::SmileysAndEmotion) => true,
        _ => false,
    }
}

/// Every selection has a position, and the position leads back to it.
pub proof fn lemma_selection_round_trip(group: Option<Group>)
    ensures
        0 <= selection_index(group) <= 9,
        selection_at(selection_index(group)) == group,
{
}

/// Going right and then left, or left and then right, returns to the
/// selection one started from; ten steps to the right do so too.
pub proof fn lemma_cycle_inverse(index: int)
    requires
        0 <= index <= 9,
    ensures
        ((index + 1) % 10 + 9) % 10 == index,
        ((index + 9) % 10 + 1) % 10 == index,
{
}

} // verus!
