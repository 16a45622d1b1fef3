//! The emoji catalog: every emoji with each of its skin-tone variants as an
//! entry of its own.

use vstd::prelude::*;
use crate::group::Group;
use crate::skin_tone::{lemma_index_injective, SkinTone};

verus! {

/// An emoji as the emoji database describes it, in plain values.
#[derive(Clone, Debug)]
pub struct CatalogRecord {
    /// The characters of the emoji.
    pub glyph: String,
    /// The English name.
    pub name: String,
    /// The first short code, if the emoji has one.
    pub shortcode: Option<String>,
    /// The position of the category, from 0.
    pub group_index: u8,
    /// The position of the skin tone in the list of tones, for an emoji
    /// that has skin tones.
    pub tone_index: Option<u8>,
}

/// What a [`CatalogRecord`] holds.
pub struct RecordData {
    pub glyph: Seq<char>,
    pub name: Seq<char>,
    pub shortcode: Option<Seq<char>>,
    pub group_index: u8,
    pub tone_index: Option<u8>,
}

impl View for CatalogRecord {
    type V = RecordData;

    open spec fn view(&self) -> RecordData {
        RecordData {
            glyph: self.glyph@,
            name: self.name@,
            shortcode: match self.shortcode {
                Some(code) => Some(code@),
                None => None,
            },
            group_index: self.group_index,
            tone_index: self.tone_index,
        }
    }
}

/// An entry of the catalog.
#[derive(Clone, Debug)]
pub struct Emoji {
    /// The characters of the emoji.
    pub glyph: String,
    /// The English name.
    pub name: String,
    /// The first short code, if the emoji has one.
    pub shortcode: Option<String>,
    pub group: Group,
    /// The skin tone, for an emoji that has skin tones.
    pub skin_tone: Option<SkinTone>,
}

/// What an [`Emoji`] holds.
pub struct EmojiData {
    pub glyph: Seq<char>,
    pub name: Seq<char>,
    pub shortcode: Option<Seq<char>>,
    pub group: Group,
    pub skin_tone: Option<SkinTone>,
}

impl View for Emoji {
    type V = EmojiData;

    open spec fn view(&self) -> EmojiData {
        EmojiData {
            glyph: self.glyph@,
            name: self.name@,
            shortcode: match self.shortcode {
                Some(code) => Some(code@),
                None => None,
            },
            group: self.group,
            skin_tone: self.skin_tone,
        }
    }
}

/// What each entry of a list of emoji holds.
pub open spec fn views(entries: Seq<Emoji>) -> Seq<EmojiData> {
    entries.map_values(|entry: Emoji| entry@)
}

/// The catalog entry of a record: the same texts, the category at the
/// record's position, and the tone at the record's position.
pub open spec fn entry_of(record: RecordData) -> EmojiData {
    EmojiData {
        glyph: record.glyph,
        name: record.name,
        shortcode: record.shortcode,
        group: Group::at(record.group_index as int),
        skin_tone: match record.tone_index {
            Some(index) => Some(crate::skin_tone::tone_at(index as int)),
            None => None,
        },
    }
}

impl Emoji {
    /// The catalog entry of a record of the emoji database.
    pub fn from_record(record: &CatalogRecord) -> (entry: Emoji)
        ensures
            entry@ == entry_of(record@),
    {
        let group = Group::from_index(record.group_index);
        let skin_tone = match record.tone_index {
            Some(index) => {
                let tone = SkinTone::from_index(index);
                proof {
                    lemma_index_injective(tone, crate::skin_tone::tone_at(index as int));
                }
                Some(tone)
            },
            None => None,
        };
        let shortcode = match &record.shortcode {
            Some(code) => Some(code.clone()),
            None => None,
        };
        Emoji {
            glyph: record.glyph.clone(),
            name: record.name.clone(),
            shortcode,
            group,
            skin_tone,
        }
    }
}

/// The emoji at a position of the emoji database's list of all emoji, which
/// holds each emoji once, in its default skin tone; `None` past the end.
pub uninterp spec fn canonical_record(index: int) -> Option<RecordData>;

/// The skin-tone variants of the emoji with the given characters, the
/// emoji itself among them; `None` for an emoji without skin tones and for
/// characters that are no emoji.
pub uninterp spec fn variants_of(glyph: Seq<char>) -> Option<Seq<RecordData>>;

/// What each record of a list holds.
pub open spec fn records(list: Seq<CatalogRecord>) -> Seq<RecordData> {
    list.map_values(|record: CatalogRecord| record@)
}

/// Whether a list is the emoji database's list of all emoji.
pub open spec fn is_canonical(list: Seq<RecordData>) -> bool {
    forall|index: int|
        #[trigger] canonical_record(index) == if 0 <= index < list.len() {
            Some(list[index])
        } else {
            None
        }
}

/// `emojis::iter`: all emoji in the order of the emoji database, each with
/// what `as_str`, `name`, `shortcode`, `group` and `skin_tone` return for
/// it, the last two as the numbers of their variants.
#[verifier::external_body]
fn canonical_emojis() -> (list: Vec<CatalogRecord>)
    ensures
        forall|index: int|
            #[trigger] canonical_record(index) == if 0 <= index < list@.len() {
                Some(list@[index]@)
            } else {
                None
            },
{
    emojis::iter().map(
        |e| CatalogRecord {
            glyph: e.as_str().to_string(),
            name: e.name().to_string(),
            shortcode: e.shortcode().map(|code| code.to_string()),
            group_index: e.group() as u8,
            tone_index: e.skin_tone().map(|tone| tone as u8),
        },
    ).collect()
}

/// `Emoji::skin_tones` of the emoji that `emojis::get` finds for the given
/// characters: each variant with what the getters return for it.
#[verifier::external_body]
fn skin_tone_variants(glyph: &str) -> (variants: Option<Vec<CatalogRecord>>)
    ensures
        match variants {
            Some(variants) => variants_of(glyph@) == Some(records(variants@)),
            None => variants_of(glyph@) is None,
        },
{
    emojis::get(glyph).and_then(|e| e.skin_tones()).map(
        |variants| variants.map(
            |e| CatalogRecord {
                glyph: e.as_str().to_string(),
                name: e.name().to_string(),
                shortcode: e.shortcode().map(|code| code.to_string()),
                group_index: e.group() as u8,
                tone_index: e.skin_tone().map(|tone| tone as u8),
            },
        ).collect(),
    )
}

/// The records that stand for an emoji in the catalog: its skin-tone
/// variants where it has any, else the emoji itself.
pub open spec fn expansion(record: RecordData) -> Seq<RecordData> {
    match variants_of(record.glyph) {
        Some(variants) => variants,
        None => seq![record],
    }
}

/// The entries of a list of records.
pub open spec fn entries_of(list: Seq<RecordData>) -> Seq<EmojiData> {
    list.map_values(|record: RecordData| entry_of(record))
}

/// The catalog of the first `count` emoji of a list: their expansions one
/// after the other, as catalog entries.
pub open spec fn expanded(list: Seq<RecordData>, count: int) -> Seq<EmojiData>
    decreases count,
{
    if count <= 0 {
        Seq::empty()
    } else {
        expanded(list, count - 1) + entries_of(expansion(list[count - 1]))
    }
}

/// Adds the entries of the records to the end of a catalog, in their order.
pub fn append_records(catalog: &mut Vec<Emoji>, list: &Vec<CatalogRecord>)
    ensures
        views(final(catalog)@) == views(old(catalog)@) + entries_of(records(list@)),
{
    let ghost before = views(catalog@);
    let ghost added = entries_of(records(list@));
    let mut index: usize = 0;
    assert(before + added.subrange(0, 0) =~= before);
    while index < list.len()
        invariant
            index <= list.len(),
            added == entries_of(records(list@)),
            views(catalog@) == before + added.subrange(0, index as int),
        decreases list.len() - index,
    {
        let entry = Emoji::from_record(&list[index]);
        let ghost old_views = views(catalog@);
        catalog.push(entry);
        proof {
            assert(views(catalog@) =~= old_views.push(entry@));
            assert(before + added.subrange(0, index + 1) =~= (before + added.subrange(
                0,
                index as int,
            )).push(added[index as int]));
        }
        index = index + 1;
    }
    assert(added.subrange(0, index as int) =~= added);
}

/// Makes a catalog of a list of emoji: every emoji of the list in the
/// list's order, an emoji with skin tones replaced by all of its variants.
pub fn expand(list: &Vec<CatalogRecord>) -> (catalog: Vec<Emoji>)
    ensures
        views(catalog@) == expanded(records(list@), list@.len() as int),
{
    let mut catalog: Vec<Emoji> = Vec::new();
    let mut index: usize = 0;
    assert(views(catalog@) =~= expanded(records(list@), 0));
    while index < list.len()
        invariant
            index <= list.len(),
            views(catalog@) == expanded(records(list@), index as int),
        decreases list.len() - index,
    {
        let ghost before = views(catalog@);
        let record = &list[index];
        assert(records(list@)[index as int] == record@);
        match skin_tone_variants(record.glyph.as_str()) {
            Some(variants) => {
                append_records(&mut catalog, &variants);
            },
            None => {
                let entry = Emoji::from_record(record);
                catalog.push(entry);
                proof {
                    assert(views(catalog@) =~= before.push(entry@));
                    assert(entries_of(seq![record@]) =~= seq![entry_of(record@)]);
                    assert(before.push(entry@) =~= before + seq![entry_of(record@)]);
                }
            },
        }
        index = index + 1;
    }
    catalog
}

/// Builds the catalog from the emoji database: every emoji of its list in
/// the list's order, an emoji with skin tones replaced by all of its
/// variants.
pub fn build_catalog() -> (catalog: Vec<Emoji>)
    ensures
        exists|list: Seq<RecordData>|
            is_canonical(list) && views(catalog@) == expanded(list, list.len() as int),
{
    let list = canonical_emojis();
    assert(is_canonical(records(list@)));
    expand(&list)
}

} // verus!
