//! Keys, and the names under which the picker shows things: which message
//! a key gives, how long a name may be in the preview, and the icon and
//! title of each category.

use vstd::prelude::*;
use vstd::string::StringExecFns;
use vstd::string::StrSliceExecFns;
use crate::group::{group_from_key, selection_at, Group, KEY_ALL, KEY_LAST};
use crate::window::{Message, ARROW_PIXELS, SNAP_END, SNAP_PAGE, SNAP_START};

verus! {

/// A key that was released.
pub enum Key {
    Escape,
    ArrowRight,
    ArrowLeft,
    ArrowDown,
    ArrowUp,
    End,
    Home,
    PageDown,
    PageUp,
    /// A key that gives text, with the bytes of that text.
    Character(Vec<u8>),
    Other,
}

/// The byte of the slash, which puts the focus into the search field.
pub const SLASH: u8 = 47;

/// The number of characters of a name that the preview shows in full.
pub const PREVIEW_LENGTH: usize = 40;

/// The message of a released key that no widget has used: Escape closes,
/// the horizontal arrows walk through the categories, the vertical arrows
/// scroll, Home, End and the page keys move the list, the slash focuses the
/// search field and a digit selects a category. Other keys, and keys that a
/// widget has used, give none.
pub open spec fn key_message(key: Key, captured: bool) -> Option<Message> {
    if captured {
        None
    } else {
        match key {
            Key::Escape => Some(Message::Exit),
            Key::ArrowRight => Some(Message::ArrowRight),
            Key::ArrowLeft => Some(Message::ArrowLeft),
            Key::ArrowDown => Some(Message::ScrollPixels((-ARROW_PIXELS) as i32)),
            Key::ArrowUp => Some(Message::ScrollPixels(ARROW_PIXELS)),
            Key::End => Some(Message::Snap(SNAP_END)),
            Key::Home => Some(Message::Snap(SNAP_START)),
            Key::PageDown => Some(Message::Snap(SNAP_PAGE)),
            Key::PageUp => Some(Message::Snap((-SNAP_PAGE) as i64)),
            Key::Character(text) => if text@.len() == 1 && text@[0] == SLASH {
                Some(Message::FocusTextInput)
            } else if text@.len() == 1 && KEY_ALL <= text@[0] <= KEY_LAST {
                Some(Message::Group(selection_at(text@[0] - KEY_ALL)))
            } else {
                None
            },
            Key::Other => None,
        }
    }
}

/// The message that a released key gives.
pub fn navigation_message(key: Key, captured: bool) -> (message: Option<Message>)
    ensures
        message == key_message(key, captured),
{
    if captured {
        return None;
    }
    match key {
        Key::Escape => Some(Message::Exit),
        Key::ArrowRight => Some(Message::ArrowRight),
        Key::ArrowLeft => Some(Message::ArrowLeft),
        Key::ArrowDown => Some(Message::ScrollPixels(-ARROW_PIXELS)),
        Key::ArrowUp => Some(Message::ScrollPixels(ARROW_PIXELS)),
        Key::End => Some(Message::Snap(SNAP_END)),
        Key::Home => Some(Message::Snap(SNAP_START)),
        Key::PageDown => Some(Message::Snap(SNAP_PAGE)),
        Key::PageUp => Some(Message::Snap(-SNAP_PAGE)),
        Key::Character(text) => {
            if text.len() == 1 && text[0] == SLASH {
                Some(Message::FocusTextInput)
            } else if text.len() == 1 && KEY_ALL <= text[0] && text[0] <= KEY_LAST {
                Some(Message::Group(group_from_key(text[0])))
            } else {
                None
            }
        },
        Key::Other => None,
    }
}

/// A name as the preview shows it: in full up to [`PREVIEW_LENGTH`]
/// characters, a longer one cut to that many and followed by three dots.
pub open spec fn shortened(name: Seq<char>) -> Seq<char> {
    if name.len() > PREVIEW_LENGTH {
        name.subrange(0, PREVIEW_LENGTH as int) + "..."@
    } else {
        name
    }
}

/// The name of an emoji as the preview shows it.
pub fn preview_name(name: &str) -> (shown: String)
    ensures
        shown@ == shortened(name@),
{
    if name.unicode_len() > PREVIEW_LENGTH {
        let start = name.substring_char(0, PREVIEW_LENGTH);
        String::from_str(start).concat("...")
    } else {
        String::from_str(name)
    }
}

/// The name of the icon of a category.
pub open spec fn icon_of(group: Group) -> Seq<char> {
    match group {
        Group::SmileysAndEmotion => "dev.dominiccgeh.emotion-satisfied"@,
        Group::PeopleAndBody => "dev.dominiccgeh.people-nearby"@,
        Group::AnimalsAndNature => "dev.dominiccgeh.pets"@,
        Group::FoodAndDrink => "dev.dominiccgeh.food"@,
        Group::TravelAndPlaces => "dev.dominiccgeh.world-1"@,
        Group::Activities => "dev.dominiccgeh.walking"@,
        Group::Objects => "dev.dominiccgeh.objects-column"@,
        Group::Symbols => "dev.dominiccgeh.symbols"@,
        Group::Flags => "dev.dominiccgeh.black-flag-icon"@,
    }
}

/// The name of the icon of a category.
pub fn group_icon(group: Group) -> (icon: &'static str)
    ensures
        icon@ == icon_of(group),
{
    match group {
        Group::SmileysAndEmotion => "dev.dominiccgeh.emotion-satisfied",
        Group::PeopleAndBody => "dev.dominiccgeh.people-nearby",
        Group::AnimalsAndNature => "dev.dominiccgeh.pets",
        Group::FoodAndDrink => "dev.dominiccgeh.food",
        Group::TravelAndPlaces => "dev.dominiccgeh.world-1",
        Group::Activities => "dev.dominiccgeh.walking",
        Group::Objects => "dev.dominiccgeh.objects-column",
        Group::Symbols => "dev.dominiccgeh.symbols",
        Group::Flags => "dev.dominiccgeh.black-flag-icon",
    }
}

/// The key of the localized title of a category.
pub open spec fn title_key_of(group: Group) -> Seq<char> {
    match group {
        Group::SmileysAndEmotion => "smileys-and-emotion"@,
        Group::PeopleAndBody => "people-and-body"@,
        Group::AnimalsAndNature => "animals-and-nature"@,
        Group::FoodAndDrink => "food-and-drink"@,
        Group::TravelAndPlaces => "travel-and-places"@,
        Group::Activities => "activities"@,
        Group::Objects => "objects"@,
        Group::Symbols => "symbols"@,
        Group::Flags => "flags"@,
    }
}

/// The key under which the localized title of a category is found; the
/// title of all categories stands under `"emojis-and-favorites"`.
pub fn group_string(group: Group) -> (key: &'static str)
    ensures
        key@ == title_key_of(group),
{
    match group {
        Group::SmileysAndEmotion => "smileys-and-emotion",
        Group::PeopleAndBody => "people-and-body",
        Group::AnimalsAndNature => "animals-and-nature",
        Group::FoodAndDrink => "food-and-drink",
        Group::TravelAndPlaces => "travel-and-places",
        Group::Activities => "activities",
        Group::Objects => "objects",
        Group::Symbols => "symbols",
        Group::Flags => "flags",
    }
}

} // verus!
