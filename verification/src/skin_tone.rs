//! Skin tones of emoji and the bit set by which a configuration selects them.

use vstd::prelude::*;

verus! {

/// The skin tone of an emoji: the default (yellow) tone, one of five tones,
/// one of the twenty ordered pairs of two different tones, or a tone that
/// this library does not know.
#[derive(Clone, Copy, Debug, PartialEq, Eq, Structural, Hash)]
pub enum SkinTone {
    Default,
    Light,
    MediumLight,
    Medium,
    MediumDark,
    Dark,
    LightAndMediumLight,
    LightAndMedium,
    LightAndMediumDark,
    LightAndDark,
    MediumLightAndLight,
    MediumLightAndMedium,
    MediumLightAndMediumDark,
    MediumLightAndDark,
    MediumAndLight,
    MediumAndMediumLight,
    MediumAndMediumDark,
    MediumAndDark,
    MediumDarkAndLight,
    MediumDarkAndMediumLight,
    MediumDarkAndMedium,
    MediumDarkAndDark,
    DarkAndLight,
    DarkAndMediumLight,
    DarkAndMedium,
    DarkAndMediumDark,
    Other,
}

/// Number of the known skin tones; also the index of [`SkinTone::Other`].
pub const KNOWN_TONES: u8 = 26;

impl SkinTone {
    /// Position of the tone in the list of tones: 0 for the default tone,
    /// 1 to 5 for the single tones from light to dark, 6 to 25 for the pairs
    /// (ordered by the first tone, then by the second), 26 for an unknown tone.
    pub open spec fn spec_index(self) -> int {
        match self {
            SkinTone::Default => 0,
            SkinTone::Light => 1,
            SkinTone::MediumLight => 2,
            SkinTone::Medium => 3,
            SkinTone::MediumDark => 4,
            SkinTone::Dark => 5,
            SkinTone::LightAndMediumLight => 6,
            SkinTone::LightAndMedium => 7,
            SkinTone::LightAndMediumDark => 8,
            SkinTone::LightAndDark => 9,
            SkinTone::MediumLightAndLight => 10,
            SkinTone::MediumLightAndMedium => 11,
            SkinTone::MediumLightAndMediumDark => 12,
            SkinTone::MediumLightAndDark => 13,
            SkinTone::MediumAndLight => 14,
            SkinTone::MediumAndMediumLight => 15,
            SkinTone::MediumAndMediumDark => 16,
            SkinTone::MediumAndDark => 17,
            SkinTone::MediumDarkAndLight => 18,
            SkinTone::MediumDarkAndMediumLight => 19,
            SkinTone::MediumDarkAndMedium => 20,
            SkinTone::MediumDarkAndDark => 21,
            SkinTone::DarkAndLight => 22,
            SkinTone::DarkAndMediumLight => 23,
            SkinTone::DarkAndMedium => 24,
            SkinTone::DarkAndMediumDark => 25,
            SkinTone::Other => 26,
        }
    }

    /// Whether the tone is one of the twenty pairs.
    pub open spec fn is_pair(self) -> bool {
        6 <= self.spec_index() < 26
    }

    /// For a pair, the position (1 to 5) of its first tone.
    pub open spec fn first_of_pair(self) -> int {
        (self.spec_index() - 6) / 4 + 1
    }

    /// For a pair, the position (1 to 5) of its second tone: the pairs of one
    /// first tone run through the four other tones from light to dark.
    pub open spec fn second_of_pair(self) -> int {
        let rank = (self.spec_index() - 6) % 4 + 1;
        if rank >= self.first_of_pair() {
            rank + 1
        } else {
            rank
        }
    }

    /// The tone at a position of the list of tones; every position past the
    /// known tones gives [`SkinTone::Other`].
    pub fn from_index(index: u8) -> (tone: SkinTone)
        ensures
            tone.spec_index() == if index < KNOWN_TONES {
                index as int
            } else {
                26
            },
    {
        if index == 0 {
            return SkinTone::Default;
        }
        if index == 1 {
            return SkinTone::Light;
        }
        if index == 2 {
            return SkinTone::MediumLight;
        }
        if index == 3 {
            return SkinTone::Medium;
        }
        if index == 4 {
            return SkinTone::MediumDark;
        }
        if index == 5 {
            return SkinTone::Dark;
        }
        if index == 6 {
            return SkinTone::LightAndMediumLight;
        }
        if index == 7 {
            return SkinTone::LightAndMedium;
        }
        if index == 8 {
            return SkinTone::LightAndMediumDark;
        }
        if index == 9 {
            return SkinTone::LightAndDark;
        }
        if index == 10 {
            return SkinTone::MediumLightAndLight;
        }
        if index == 11 {
            return SkinTone::MediumLightAndMedium;
        }
        if index == 12 {
            return SkinTone::MediumLightAndMediumDark;
        }
        if index == 13 {
            return SkinTone::MediumLightAndDark;
        }
        if index == 14 {
            return SkinTone::MediumAndLight;
        }
        if index == 15 {
            return SkinTone::MediumAndMediumLight;
        }
        if index == 16 {
            return SkinTone::MediumAndMediumDark;
        }
        if index == 17 {
            return SkinTone::MediumAndDark;
        }
        if index == 18 {
            return SkinTone::MediumDarkAndLight;
        }
        if index == 19 {
            return SkinTone::MediumDarkAndMediumLight;
        }
        if index == 20 {
            return SkinTone::MediumDarkAndMedium;
        }
        if index == 21 {
            return SkinTone::MediumDarkAndDark;
        }
        if index == 22 {
            return SkinTone::DarkAndLight;
        }
        if index == 23 {
            return SkinTone::DarkAndMediumLight;
        }
        if index == 24 {
            return SkinTone::DarkAndMedium;
        }
        if index == 25 {
            return SkinTone::DarkAndMediumDark;
        }
        SkinTone::Other
    }
}

/// The tone at a position of the list of tones, as a specification.
pub open spec fn tone_at(index: int) -> SkinTone {
    choose|tone: SkinTone| tone.spec_index() == clamp_tone_index(index)
}

/// A position held within the list of tones: positions past the known
/// tones are that of [`SkinTone::Other`].
pub open spec fn clamp_tone_index(index: int) -> int {
    if 0 <= index < 26 {
        index
    } else {
        26
    }
}

/// Two tones with the same position are the same tone.
pub proof fn lemma_index_injective(a: SkinTone, b: SkinTone)
    requires
        a.spec_index() == b.spec_index(),
    ensures
        a == b,
{
}

/// A set of skin tones and filter options, one bit each.
///
/// Bits 0 to 5 stand for the default tone and the five single tones, bit 6
/// for emoji without a skin tone, bit 7 for unknown tones, bits 8 to 27 for
/// the twenty pairs. Bit 28 asks for exact matching and bit 29 for matching
/// by overlap.
#[derive(Clone, Copy, Debug, PartialEq, Eq, Structural, Hash)]
pub struct SkinToneMode {
    pub bits: u32,
}

impl SkinToneMode {
    pub const DEFAULT: u32 = 0x1;

    pub const LIGHT: u32 = 0x2;

    pub const MEDIUM_LIGHT: u32 = 0x4;

    pub const MEDIUM: u32 = 0x8;

    pub const MEDIUM_DARK: u32 = 0x10;

    pub const DARK: u32 = 0x20;

    pub const NO_SKIN: u32 = 0x40;

    pub const OTHER: u32 = 0x80;

    pub const LIGHT_AND_MEDIUM_LIGHT: u32 = 0x100;

    pub const LIGHT_AND_MEDIUM: u32 = 0x200;

    pub const LIGHT_AND_MEDIUM_DARK: u32 = 0x400;

    pub const LIGHT_AND_DARK: u32 = 0x800;

    pub const MEDIUM_LIGHT_AND_LIGHT: u32 = 0x1000;

    pub const MEDIUM_LIGHT_AND_MEDIUM: u32 = 0x2000;

    pub const MEDIUM_LIGHT_AND_MEDIUM_DARK: u32 = 0x4000;

    pub const MEDIUM_LIGHT_AND_DARK: u32 = 0x8000;

    pub const MEDIUM_AND_LIGHT: u32 = 0x10000;

    pub const MEDIUM_AND_MEDIUM_LIGHT: u32 = 0x20000;

    pub const MEDIUM_AND_MEDIUM_DARK: u32 = 0x40000;

    pub const MEDIUM_AND_DARK: u32 = 0x80000;

    pub const MEDIUM_DARK_AND_LIGHT: u32 = 0x100000;

    pub const MEDIUM_DARK_AND_MEDIUM_LIGHT: u32 = 0x200000;

    pub const MEDIUM_DARK_AND_MEDIUM: u32 = 0x400000;

    pub const MEDIUM_DARK_AND_DARK: u32 = 0x800000;

    pub const DARK_AND_LIGHT: u32 = 0x1000000;

    pub const DARK_AND_MEDIUM_LIGHT: u32 = 0x2000000;

    pub const DARK_AND_MEDIUM: u32 = 0x4000000;

    pub const DARK_AND_MEDIUM_DARK: u32 = 0x8000000;

    /// The bits of all tones but the last pair.
    pub const ALL: u32 = 0x07ff_ffff;

    /// Show an emoji only by the bit of its precise tone.
    pub const FILTER_EXACT: u32 = 0x1000_0000;

    /// The bits of the twenty pairs together with [`Self::FILTER_EXACT`]: a
    /// configuration that holds any of them matches exactly.
    pub const ALL_EXACT: u32 = 0x1fff_ff00;

    /// Show an emoji as soon as one of its tones is selected.
    pub const FILTER_INTERSECT: u32 = 0x2000_0000;

    /// The mode with exactly the given bits.
    pub fn from_bits(bits: u32) -> (mode: SkinToneMode)
        ensures
            mode.bits == bits,
    {
        SkinToneMode { bits }
    }

    /// The bits of the mode.
    pub fn bits(&self) -> (bits: u32)
        ensures
            bits == self.bits,
    {
        self.bits
    }

    /// The mode without any bit.
    pub fn empty() -> (mode: SkinToneMode)
        ensures
            mode.bits == 0,
    {
        SkinToneMode { bits: 0 }
    }

    /// The mode of a new configuration: the default tone and the emoji
    /// without a skin tone.
    pub fn initial() -> (mode: SkinToneMode)
        ensures
            mode.bits == Self::DEFAULT | Self::NO_SKIN,
    {
        SkinToneMode { bits: Self::DEFAULT | Self::NO_SKIN }
    }

    /// Whether no bit is set.
    pub fn is_empty(&self) -> (empty: bool)
        ensures
            empty == (self.bits == 0),
    {
        self.bits == 0
    }

    /// Whether every bit of `other` is set in `self`.
    pub open spec fn spec_contains(&self, other: SkinToneMode) -> bool {
        self.bits & other.bits == other.bits
    }

    /// Whether some bit of `other` is set in `self`.
    pub open spec fn spec_intersects(&self, other: SkinToneMode) -> bool {
        self.bits & other.bits != 0
    }

    /// Whether every bit of `other` is set in `self`.
    #[verifier::when_used_as_spec(spec_contains)]
    pub fn contains(&self, other: SkinToneMode) -> (all: bool)
        ensures
            all == self.spec_contains(other),
    {
        self.bits & other.bits == other.bits
    }

    /// Whether some bit of `other` is set in `self`.
    #[verifier::when_used_as_spec(spec_intersects)]
    pub fn intersects(&self, other: SkinToneMode) -> (any: bool)
        ensures
            any == self.spec_intersects(other),
    {
        self.bits & other.bits != 0
    }

    /// The bits of both modes.
    pub fn union(self, other: SkinToneMode) -> (both: SkinToneMode)
        ensures
            both.bits == self.bits | other.bits,
    {
        SkinToneMode { bits: self.bits | other.bits }
    }

    /// Sets the bits of `other`.
    pub fn insert(&mut self, other: SkinToneMode)
        ensures
            final(self).bits == old(self).bits | other.bits,
    {
        self.bits = self.bits | other.bits;
    }

    /// Clears the bits of `other`.
    pub fn remove(&mut self, other: SkinToneMode)
        ensures
            final(self).bits == old(self).bits & !other.bits,
    {
        self.bits = self.bits & !other.bits;
    }

    /// Sets the bits of `other` if `value` holds and clears them if not.
    pub fn set(&mut self, other: SkinToneMode, value: bool)
        ensures
            final(self).bits == if value {
                old(self).bits | other.bits
            } else {
                old(self).bits & !other.bits
            },
    {
        if value {
            self.insert(other);
        } else {
            self.remove(other);
        }
    }

    /// The bit at a position.
    pub open spec fn bit_at(position: u32) -> u32 {
        1u32 << position
    }

    /// The bits of a tone by its single tones: the bit of a single tone, for
    /// a pair the bits of its two tones.
    pub open spec fn simple_bits(tone: SkinTone) -> u32 {
        if tone.spec_index() < 6 {
            Self::bit_at(tone.spec_index() as u32)
        } else if tone.is_pair() {
            Self::bit_at(tone.first_of_pair() as u32) | Self::bit_at(tone.second_of_pair() as u32)
        } else {
            Self::OTHER
        }
    }

    /// The one bit of a precise tone: a pair has a bit of its own, two places
    /// above its position in the list of tones.
    pub open spec fn exact_bits(tone: SkinTone) -> u32 {
        if tone.spec_index() < 6 {
            Self::bit_at(tone.spec_index() as u32)
        } else if tone.is_pair() {
            Self::bit_at((tone.spec_index() + 2) as u32)
        } else {
            Self::OTHER
        }
    }

    /// The mode of a tone by its single tones: a pair gives the bits of both
    /// of its tones.
    pub fn new(skin_tone: SkinTone) -> (mode: SkinToneMode)
        ensures
            mode.bits == Self::simple_bits(skin_tone),
    {
        proof {
            lemma_bit_values();
        }
        let bits: u32 = match skin_tone {
            SkinTone::Default => Self::DEFAULT,
            SkinTone::Light => Self::LIGHT,
            SkinTone::MediumLight => Self::MEDIUM_LIGHT,
            SkinTone::Medium => Self::MEDIUM,
            SkinTone::MediumDark => Self::MEDIUM_DARK,
            SkinTone::Dark => Self::DARK,
            SkinTone::LightAndMediumLight => Self::LIGHT | Self::MEDIUM_LIGHT,
            SkinTone::LightAndMedium => Self::LIGHT | Self::MEDIUM,
            SkinTone::LightAndMediumDark => Self::LIGHT | Self::MEDIUM_DARK,
            SkinTone::LightAndDark => Self::LIGHT | Self::DARK,
            SkinTone::MediumLightAndLight => Self::MEDIUM_LIGHT | Self::LIGHT,
            SkinTone::MediumLightAndMedium => Self::MEDIUM_LIGHT | Self::MEDIUM,
            SkinTone::MediumLightAndMediumDark => Self::MEDIUM_LIGHT | Self::MEDIUM_DARK,
            SkinTone::MediumLightAndDark => Self::MEDIUM_LIGHT | Self::DARK,
            SkinTone::MediumAndLight => Self::MEDIUM | Self::LIGHT,
            SkinTone::MediumAndMediumLight => Self::MEDIUM | Self::MEDIUM_LIGHT,
            SkinTone::MediumAndMediumDark => Self::MEDIUM | Self::MEDIUM_DARK,
            SkinTone::MediumAndDark => Self::MEDIUM | Self::DARK,
            SkinTone::MediumDarkAndLight => Self::MEDIUM_DARK | Self::LIGHT,
            SkinTone::MediumDarkAndMediumLight => Self::MEDIUM_DARK | Self::MEDIUM_LIGHT,
            SkinTone::MediumDarkAndMedium => Self::MEDIUM_DARK | Self::MEDIUM,
            SkinTone::MediumDarkAndDark => Self::MEDIUM_DARK | Self::DARK,
            SkinTone::DarkAndLight => Self::DARK | Self::LIGHT,
            SkinTone::DarkAndMediumLight => Self::DARK | Self::MEDIUM_LIGHT,
            SkinTone::DarkAndMedium => Self::DARK | Self::MEDIUM,
            SkinTone::DarkAndMediumDark => Self::DARK | Self::MEDIUM_DARK,
            SkinTone::Other => Self::OTHER,
        };
        SkinToneMode { bits }
    }

    /// The mode of a precise tone: a pair gives the one bit of that pair.
    pub fn new_exact(skin_tone: SkinTone) -> (mode: SkinToneMode)
        ensures
            mode.bits == Self::exact_bits(skin_tone),
    {
        proof {
            lemma_bit_values();
        }
        let bits: u32 = match skin_tone {
            SkinTone::Default => Self::DEFAULT,
            SkinTone::Light => Self::LIGHT,
            SkinTone::MediumLight => Self::MEDIUM_LIGHT,
            SkinTone::Medium => Self::MEDIUM,
            SkinTone::MediumDark => Self::MEDIUM_DARK,
            SkinTone::Dark => Self::DARK,
            SkinTone::LightAndMediumLight => Self::LIGHT_AND_MEDIUM_LIGHT,
            SkinTone::LightAndMedium => Self::LIGHT_AND_MEDIUM,
            SkinTone::LightAndMediumDark => Self::LIGHT_AND_MEDIUM_DARK,
            SkinTone::LightAndDark => Self::LIGHT_AND_DARK,
            SkinTone::MediumLightAndLight => Self::MEDIUM_LIGHT_AND_LIGHT,
            SkinTone::MediumLightAndMedium => Self::MEDIUM_LIGHT_AND_MEDIUM,
            SkinTone::MediumLightAndMediumDark => Self::MEDIUM_LIGHT_AND_MEDIUM_DARK,
            SkinTone::MediumLightAndDark => Self::MEDIUM_LIGHT_AND_DARK,
            SkinTone::MediumAndLight => Self::MEDIUM_AND_LIGHT,
            SkinTone::MediumAndMediumLight => Self::MEDIUM_AND_MEDIUM_LIGHT,
            SkinTone::MediumAndMediumDark => Self::MEDIUM_AND_MEDIUM_DARK,
            SkinTone::MediumAndDark => Self::MEDIUM_AND_DARK,
            SkinTone::MediumDarkAndLight => Self::MEDIUM_DARK_AND_LIGHT,
            SkinTone::MediumDarkAndMediumLight => Self::MEDIUM_DARK_AND_MEDIUM_LIGHT,
            SkinTone::MediumDarkAndMedium => Self::MEDIUM_DARK_AND_MEDIUM,
            SkinTone::MediumDarkAndDark => Self::MEDIUM_DARK_AND_DARK,
            SkinTone::DarkAndLight => Self::DARK_AND_LIGHT,
            SkinTone::DarkAndMediumLight => Self::DARK_AND_MEDIUM_LIGHT,
            SkinTone::DarkAndMedium => Self::DARK_AND_MEDIUM,
            SkinTone::DarkAndMediumDark => Self::DARK_AND_MEDIUM_DARK,
            SkinTone::Other => Self::OTHER,
        };
        SkinToneMode { bits }
    }

    /// Whether the configuration matches exactly: it holds
    /// [`Self::FILTER_EXACT`] or the bit of a pair.
    pub open spec fn matches_exactly(self) -> bool {
        self.bits & Self::ALL_EXACT != 0
    }

    /// Whether the configuration holds [`Self::FILTER_INTERSECT`].
    pub open spec fn matches_by_overlap(self) -> bool {
        self.bits & Self::FILTER_INTERSECT != 0
    }

    /// The bits that stand for an emoji's tone under this configuration: the
    /// bit of "no skin tone" for an emoji without one, else the precise bit
    /// where the configuration matches exactly and the single tones where it
    /// does not.
    pub open spec fn bits_of(self, tone: Option<SkinTone>) -> u32 {
        match tone {
            None => Self::NO_SKIN,
            Some(t) => if self.matches_exactly() {
                Self::exact_bits(t)
            } else {
                Self::simple_bits(t)
            },
        }
    }

    /// Whether an emoji of the given tone is shown. Under exact matching and
    /// under matching by overlap one common bit is enough; otherwise every
    /// bit of the emoji must be selected. Where both filter bits are set,
    /// exact matching decides which bits stand for the emoji.
    pub open spec fn spec_shows(&self, tone: Option<SkinTone>) -> bool {
        let emoji_bits = self.bits_of(tone);
        if self.matches_exactly() || self.matches_by_overlap() {
            self.bits & emoji_bits != 0
        } else {
            self.bits & emoji_bits == emoji_bits
        }
    }

    /// Whether an emoji of the given tone is shown under this configuration.
    #[verifier::when_used_as_spec(spec_shows)]
    pub fn shows(&self, tone: Option<SkinTone>) -> (shown: bool)
        ensures
            shown == self.spec_shows(tone),
    {
        let exact = self.intersects(SkinToneMode { bits: Self::ALL_EXACT });
        let overlap = self.intersects(SkinToneMode { bits: Self::FILTER_INTERSECT });
        let emoji_mode = match tone {
            None => SkinToneMode { bits: Self::NO_SKIN },
            Some(t) => if exact {
                Self::new_exact(t)
            } else {
                Self::new(t)
            },
        };
        if exact || overlap {
            self.intersects(emoji_mode)
        } else {
            self.contains(emoji_mode)
        }
    }
}

/// The value of each of the thirty bits in use.
pub proof fn lemma_bit_values()
    by (bit_vector)
    ensures
        SkinToneMode::bit_at(0) == 0x1,
        SkinToneMode::bit_at(1) == 0x2,
        SkinToneMode::bit_at(2) == 0x4,
        SkinToneMode::bit_at(3) == 0x8,
        SkinToneMode::bit_at(4) == 0x10,
        SkinToneMode::bit_at(5) == 0x20,
        SkinToneMode::bit_at(6) == 0x40,
        SkinToneMode::bit_at(7) == 0x80,
        SkinToneMode::bit_at(8) == 0x100,
        SkinToneMode::bit_at(9) == 0x200,
        SkinToneMode::bit_at(10) == 0x400,
        SkinToneMode::bit_at(11) == 0x800,
        SkinToneMode::bit_at(12) == 0x1000,
        SkinToneMode::bit_at(13) == 0x2000,
        SkinToneMode::bit_at(14) == 0x4000,
        SkinToneMode::bit_at(15) == 0x8000,
        SkinToneMode::bit_at(16) == 0x10000,
        SkinToneMode::bit_at(17) == 0x20000,
        SkinToneMode::bit_at(18) == 0x40000,
        SkinToneMode::bit_at(19) == 0x80000,
        SkinToneMode::bit_at(20) == 0x100000,
        SkinToneMode::bit_at(21) == 0x200000,
        SkinToneMode::bit_at(22) == 0x400000,
        SkinToneMode::bit_at(23) == 0x800000,
        SkinToneMode::bit_at(24) == 0x1000000,
        SkinToneMode::bit_at(25) == 0x2000000,
        SkinToneMode::bit_at(26) == 0x4000000,
        SkinToneMode::bit_at(27) == 0x8000000,
        SkinToneMode::bit_at(28) == 0x10000000,
        SkinToneMode::bit_at(29) == 0x20000000,
{
}

/// Of a single bit, to contain it and to overlap with it are the same.
pub proof fn lemma_single_bit(bits: u32, position: u32)
    by (bit_vector)
    requires
        position < 32,
    ensures
        (bits & (1u32 << position) == (1u32 << position)) == (bits & (1u32 << position) != 0),
{
}

/// An emoji without a skin tone is shown exactly when the bit of "no skin
/// tone" is selected, whatever the filter bits are.
pub proof fn lemma_untoned_shown(mode: SkinToneMode)
    ensures
        mode.spec_shows(None) == mode.spec_contains(SkinToneMode { bits: SkinToneMode::NO_SKIN }),
{
    lemma_bit_values();
    lemma_single_bit(mode.bits, 6);
}

/// An emoji of a single tone (or of the default tone) is shown exactly when
/// the bit of that tone is selected, whatever the filter bits are.
pub proof fn lemma_single_tone_shown(mode: SkinToneMode, tone: SkinTone)
    requires
        tone.spec_index() < 6,
    ensures
        mode.spec_shows(Some(tone)) == mode.spec_contains(
            SkinToneMode { bits: SkinToneMode::simple_bits(tone) },
        ),
        SkinToneMode::simple_bits(tone) == SkinToneMode::exact_bits(tone),
{
    lemma_single_bit(mode.bits, tone.spec_index() as u32);
}

/// Without a filter bit and without the bit of a pair, a pair is shown
/// exactly when both of its tones are selected.
pub proof fn lemma_pair_needs_both(mode: SkinToneMode, tone: SkinTone)
    requires
        tone.is_pair(),
        !mode.matches_exactly(),
        !mode.matches_by_overlap(),
    ensures
        mode.spec_shows(Some(tone)) == (mode.bits & SkinToneMode::bit_at(
            tone.first_of_pair() as u32,
        ) != 0 && mode.bits & SkinToneMode::bit_at(tone.second_of_pair() as u32) != 0),
{
    let a = tone.first_of_pair() as u32;
    let b = tone.second_of_pair() as u32;
    assert(a < 32 && b < 32);
    lemma_two_bits(mode.bits, a, b);
}

/// To contain the union of two bits is to overlap with each of them.
pub proof fn lemma_two_bits(bits: u32, a: u32, b: u32)
    by (bit_vector)
    requires
        a < 32,
        b < 32,
    ensures
        (bits & ((1u32 << a) | (1u32 << b)) == ((1u32 << a) | (1u32 << b))) == (bits & (1u32 << a)
            != 0 && bits & (1u32 << b) != 0),
{
}

/// The position of the one bit that stands for a precise tone: that of
/// "no skin tone" for an emoji without one.
pub open spec fn exact_position(tone: Option<SkinTone>) -> u32 {
    match tone {
        None => 6,
        Some(t) => if t.spec_index() < 6 {
            t.spec_index() as u32
        } else if t.is_pair() {
            (t.spec_index() + 2) as u32
        } else {
            7
        },
    }
}

/// Two bits overlap only if they are the same bit, and no bit of a tone
/// is the bit that asks for exact matching.
pub proof fn lemma_bits_apart(one: u32, other: u32)
    by (bit_vector)
    requires
        one <= 27,
        other <= 27,
    ensures
        (((1u32 << one) | 0x1000_0000u32) & (1u32 << other) != 0) == (one == other),
        ((1u32 << one) | 0x1000_0000u32) & 0x1fff_ff00u32 != 0,
        ((1u32 << one) & (1u32 << other) != 0) == (one == other),
{
}

/// Under exact matching with the bit of one precise tone, exactly the
/// emoji of that tone are shown: of a pair neither its single tones nor the
/// pair the other way round.
pub proof fn lemma_exact_shows_only_precise(selected: Option<SkinTone>, tone: Option<SkinTone>)
    ensures
        (SkinToneMode {
            bits: SkinToneMode::bit_at(exact_position(selected)) | SkinToneMode::FILTER_EXACT,
        }).spec_shows(tone) == (selected == tone),
{
    lemma_bit_values();
    lemma_bits_apart(exact_position(selected), exact_position(tone));
    match (selected, tone) {
        (Some(a), Some(b)) => {
            if exact_position(selected) == exact_position(tone) {
                lemma_index_injective(a, b);
            }
        },
        _ => {},
    }
}

/// The configuration of a first start shows the emoji without a skin tone
/// and those of the default tone, and no others.
pub proof fn lemma_initial_mode(tone: Option<SkinTone>)
    ensures
        (SkinToneMode { bits: SkinToneMode::DEFAULT | SkinToneMode::NO_SKIN }).spec_shows(tone) == (
        tone is None || tone == Some(SkinTone::Default)),
{
    lemma_bit_values();
    let bits: u32 = SkinToneMode::DEFAULT | SkinToneMode::NO_SKIN;
    assert(bits == 0x41) by (bit_vector)
        requires
            bits == 0x1u32 | 0x40u32,
    ;
    assert(0x41u32 & 0x1fff_ff00u32 == 0 && 0x41u32 & 0x2000_0000u32 == 0 && 0x41u32 & 0x40u32
        == 0x40u32 && 0x41u32 & 0x1u32 == 0x1u32 && 0x41u32 & 0x80u32 != 0x80u32)
        by (bit_vector);
    match tone {
        Some(t) => {
            if t.spec_index() == 0 {
            } else if t.spec_index() < 6 {
                lemma_tone_not_initial(t.spec_index() as u32, t.spec_index() as u32);
            } else if t.is_pair() {
                lemma_tone_not_initial(t.first_of_pair() as u32, t.second_of_pair() as u32);
            }
        },
        None => {},
    }
}

/// The bits of the single tones are not among those of a first start.
pub proof fn lemma_tone_not_initial(one: u32, other: u32)
    by (bit_vector)
    requires
        1 <= one <= 5,
        1 <= other <= 5,
    ensures
        0x41u32 & ((1u32 << one) | (1u32 << other)) != ((1u32 << one) | (1u32 << other)),
        0x41u32 & (1u32 << one) != (1u32 << one),
{
}

} // verus!
