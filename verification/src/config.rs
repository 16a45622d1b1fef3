//! The configuration of the picker and the annotations of the emoji.

use vstd::prelude::*;
use vstd::hash_map::StringHashMap;
use crate::skin_tone::SkinToneMode;

verus! {

/// The version of the stored configuration.
pub const CONFIG_VERSION: u64 = 1;

/// The number of entries that a new configuration keeps in its list of
/// recently used emoji.
pub const DEFAULT_LAST_USED_LIMIT: usize = 20;

/// What a click on an emoji does: a set of actions, one bit each.
#[derive(Clone, Copy, Debug, PartialEq, Eq, Structural, Hash)]
pub struct ClickMode {
    pub bits: u8,
}

impl ClickMode {
    /// No action.
    pub const NONE: u8 = 0x0;

    /// Copy the emoji to the clipboard.
    pub const COPY: u8 = 0x1;

    /// Close the popup.
    pub const CLOSE: u8 = 0x2;

    /// Append the emoji to the search text.
    pub const APPEND: u8 = 0x4;

    /// Leave the list of recently used emoji as it is.
    pub const PRIVATE: u8 = 0x8;

    /// The mode with exactly the given bits.
    pub fn from_bits(bits: u8) -> (mode: ClickMode)
        ensures
            mode.bits == bits,
    {
        ClickMode { bits }
    }

    /// The bits of the mode.
    pub fn bits(&self) -> (bits: u8)
        ensures
            bits == self.bits,
    {
        self.bits
    }

    /// Whether every bit of `other` is set in `self`.
    pub open spec fn spec_contains(&self, other: ClickMode) -> bool {
        self.bits & other.bits == other.bits
    }

    /// Whether some bit of `other` is set in `self`.
    pub open spec fn spec_intersects(&self, other: ClickMode) -> bool {
        self.bits & other.bits != 0
    }

    /// Whether the given action is among the actions of the mode.
    pub open spec fn has(&self, action: u8) -> bool {
        self.bits & action != 0
    }

    /// Whether every bit of `other` is set in `self`.
    #[verifier::when_used_as_spec(spec_contains)]
    pub fn contains(&self, other: ClickMode) -> (all: bool)
        ensures
            all == self.spec_contains(other),
    {
        self.bits & other.bits == other.bits
    }

    /// Whether some bit of `other` is set in `self`.
    #[verifier::when_used_as_spec(spec_intersects)]
    pub fn intersects(&self, other: ClickMode) -> (any: bool)
        ensures
            any == self.spec_intersects(other),
            any == self.has(other.bits),
    {
        self.bits & other.bits != 0
    }

    /// The actions of both modes.
    pub fn union(self, other: ClickMode) -> (both: ClickMode)
        ensures
            both.bits == self.bits | other.bits,
    {
        ClickMode { bits: self.bits | other.bits }
    }

    /// Whether the mode holds no action.
    pub fn is_none(&self) -> (none: bool)
        ensures
            none == (self.bits == Self::NONE),
    {
        self.bits == Self::NONE
    }
}

impl Default for ClickMode {
    fn default() -> (mode: ClickMode)
        ensures
            mode.bits == ClickMode::NONE,
    {
        ClickMode { bits: ClickMode::NONE }
    }
}

/// A button that switches a skin tone on and off.
#[derive(Clone, Copy, Debug, PartialEq, Eq, Structural)]
pub struct ColorButton {
    /// The colour of the button: red, green, blue and opacity, one byte each
    /// from the highest byte down.
    pub color: u32,
    /// The skin tones that the button stands for.
    pub skin_tone_mode: SkinToneMode,
    /// Whether the tones are switched on.
    pub active: bool,
}

/// The localized names of one emoji.
#[derive(Clone, Debug, Default)]
pub struct Annotation {
    /// Keywords.
    pub default: Vec<String>,
    /// Names to be read out; the first is the name that is shown.
    pub tts: Vec<String>,
}

/// The annotations of the emoji, each under the characters of its emoji
/// without variation selectors.
pub struct Annotations {
    table: StringHashMap<Annotation>,
}

impl View for Annotations {
    type V = Map<Seq<char>, Annotation>;

    closed spec fn view(&self) -> Map<Seq<char>, Annotation> {
        self.table@
    }
}

impl Annotations {
    /// A table without annotations.
    pub fn new() -> (annotations: Annotations)
        ensures
            annotations@ == Map::<Seq<char>, Annotation>::empty(),
    {
        Annotations { table: StringHashMap::new() }
    }

    /// Puts an annotation under a key, in place of the one that was there.
    pub fn insert(&mut self, key: String, annotation: Annotation)
        ensures
            final(self)@ == old(self)@.insert(key@, annotation),
    {
        self.table.insert(key, annotation);
    }

    /// Takes over every annotation of another table; under a key that both
    /// tables hold, that of the other table stays.
    pub fn extend(&mut self, other: Annotations)
        ensures
            final(self)@ == old(self)@.union_prefer_right(other@),
    {
        self.table.union_prefer_right(other.table);
    }

    /// The annotation under a key.
    pub fn get(&self, key: &str) -> (annotation: Option<&Annotation>)
        ensures
            match annotation {
                Some(found) => self@.contains_key(key@) && *found == self@[key@],
                None => !self@.contains_key(key@),
            },
    {
        self.table.get(key)
    }

    /// The number of annotations.
    pub fn len(&self) -> (len: usize)
        ensures
            len == self@.len(),
    {
        self.table.len()
    }
}

/// The configuration of the picker.
#[derive(Clone, Debug)]
pub struct Config {
    pub color_buttons: Vec<ColorButton>,
    pub left_click_action: ClickMode,
    pub right_click_action: ClickMode,
    pub middle_click_action: ClickMode,
    /// The greatest length of the list of recently used emoji.
    pub last_used_limit: usize,
    /// The characters of the recently used emoji, the most recent first.
    pub last_used: Vec<String>,
    pub font_family: String,
    pub show_preview: bool,
    pub skin_tone_mode: SkinToneMode,
}

/// The colours of the buttons of a new configuration, for the default tone
/// and the five single tones from light to dark.
pub open spec fn default_colors() -> Seq<u32> {
    seq![0xffcc22ffu32, 0xf7deceff, 0xf3d2a2ff, 0xbf8d67ff, 0xaf7e57ff, 0x7c533eff]
}

/// The button of a new configuration at a position: it stands for the bit
/// at that position, and only the button of the default tone is on.
pub open spec fn default_button(position: int) -> ColorButton {
    ColorButton {
        color: default_colors()[position],
        skin_tone_mode: SkinToneMode { bits: SkinToneMode::bit_at(position as u32) },
        active: position == 0,
    }
}

impl Config {
    /// Whether the configuration shows the emoji without a skin tone and
    /// those of the default tone, as every new configuration does.
    pub open spec fn shows_untoned(&self) -> bool {
        self.skin_tone_mode.spec_contains(
            SkinToneMode { bits: SkinToneMode::DEFAULT | SkinToneMode::NO_SKIN },
        )
    }
}

fn button(color: u32, bits: u32, active: bool) -> (button: ColorButton)
    ensures
        button == (ColorButton { color, skin_tone_mode: SkinToneMode { bits }, active }),
{
    ColorButton { color, skin_tone_mode: SkinToneMode { bits }, active }
}

impl Default for Config {
    /// The configuration of a first start: one button for the default tone
    /// and each single tone, only the first of them on; the left button
    /// copies and closes, the right one copies and appends to the search,
    /// the middle one copies; only emoji without a skin tone or of the
    /// default tone are shown.
    fn default() -> (config: Config)
        ensures
            config.color_buttons@ =~= Seq::new(6, |position: int| default_button(position)),
            config.last_used@.len() == 0,
            config.last_used_limit == DEFAULT_LAST_USED_LIMIT,
            config.font_family@ == "Noto Color Emoji"@,
            config.show_preview,
            config.left_click_action.bits == ClickMode::CLOSE | ClickMode::COPY,
            config.right_click_action.bits == ClickMode::APPEND | ClickMode::COPY,
            config.middle_click_action.bits == ClickMode::COPY,
            config.skin_tone_mode.bits == SkinToneMode::DEFAULT | SkinToneMode::NO_SKIN,
            config.shows_untoned(),
    {
        proof {
            crate::skin_tone::lemma_bit_values();
            assert((0x1u32 | 0x40u32) & (0x1u32 | 0x40u32) == (0x1u32 | 0x40u32))
                by (bit_vector);
        }
        let mut color_buttons: Vec<ColorButton> = Vec::new();
        color_buttons.push(button(0xffcc22ff, SkinToneMode::DEFAULT, true));
        color_buttons.push(button(0xf7deceff, SkinToneMode::LIGHT, false));
        color_buttons.push(button(0xf3d2a2ff, SkinToneMode::MEDIUM_LIGHT, false));
        color_buttons.push(button(0xbf8d67ff, SkinToneMode::MEDIUM, false));
        color_buttons.push(button(0xaf7e57ff, SkinToneMode::MEDIUM_DARK, false));
        color_buttons.push(button(0x7c533eff, SkinToneMode::DARK, false));
        Config {
            color_buttons,
            last_used: Vec::new(),
            last_used_limit: DEFAULT_LAST_USED_LIMIT,
            font_family: "Noto Color Emoji".to_owned(),
            show_preview: true,
            left_click_action: ClickMode { bits: ClickMode::CLOSE | ClickMode::COPY },
            right_click_action: ClickMode { bits: ClickMode::APPEND | ClickMode::COPY },
            middle_click_action: ClickMode { bits: ClickMode::COPY },
            skin_tone_mode: SkinToneMode { bits: SkinToneMode::DEFAULT | SkinToneMode::NO_SKIN },
        }
    }
}

} // verus!
