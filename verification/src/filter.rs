//! The filter pass: which entries of the catalog are shown for a category,
//! a skin-tone configuration and a search text.

use vstd::prelude::*;
use crate::config::{Annotation, Annotations};
use crate::emoji::{Emoji, EmojiData};
use crate::favorites::{contains, texts};
use crate::group::Group;
use crate::skin_tone::SkinToneMode;
use crate::text::{
    base_glyph,
    lemma_empty_text_occurs,
    matches_search,
    name_matches,
    without_selectors,
};

verus! {

/// The name under which an emoji is shown and found: the first name to be
/// read out of its annotation, which stands under the emoji's characters
/// without variation selectors; the English name where there is none.
pub open spec fn localized_name(annotations: Map<Seq<char>, Annotation>, entry: EmojiData) -> Seq<
    char,
> {
    let key = without_selectors(entry.glyph);
    if annotations.contains_key(key) && annotations[key].tts@.len() > 0 {
        annotations[key].tts@[0]@
    } else {
        entry.name
    }
}

/// The name under which an emoji is shown and found.
pub fn emoji_name_localized<'a>(annotations: &'a Annotations, emoji: &'a Emoji) -> (name: &'a str)
    ensures
        name@ == localized_name(annotations@, emoji@),
{
    let key = base_glyph(emoji.glyph.as_str());
    match annotations.get(key.as_str()) {
        Some(annotation) => {
            if annotation.tts.len() > 0 {
                annotation.tts[0].as_str()
            } else {
                emoji.name.as_str()
            }
        },
        None => emoji.name.as_str(),
    }
}

/// Whether an entry belongs to the selected category: every entry does
/// where none is selected.
pub open spec fn in_group(entry: EmojiData, selected: Option<Group>) -> bool {
    selected is None || selected == Some(entry.group)
}

/// Whether an entry is shown: it belongs to the selected category, the
/// configuration shows its skin tone, and its name matches the search text.
pub open spec fn passes(
    entry: EmojiData,
    annotations: Map<Seq<char>, Annotation>,
    selected: Option<Group>,
    mode: SkinToneMode,
    search: Seq<char>,
) -> bool {
    &&& in_group(entry, selected)
    &&& mode.spec_shows(entry.skin_tone)
    &&& matches_search(localized_name(annotations, entry), search)
}

/// The positions below `end` that a condition holds of, in ascending order.
pub open spec fn positions_where(end: int, condition: spec_fn(int) -> bool) -> Seq<int>
    decreases end,
{
    if end <= 0 {
        Seq::empty()
    } else if condition(end - 1) {
        positions_where(end - 1, condition).push(end - 1)
    } else {
        positions_where(end - 1, condition)
    }
}

/// A list of positions as numbers.
pub open spec fn positions(list: Seq<usize>) -> Seq<int> {
    list.map_values(|position: usize| position as int)
}

/// The entries that are shown, by their positions in the catalog.
pub open spec fn shown(
    catalog: Seq<Emoji>,
    annotations: Map<Seq<char>, Annotation>,
    selected: Option<Group>,
    mode: SkinToneMode,
    search: Seq<char>,
) -> Seq<int> {
    positions_where(
        catalog.len() as int,
        |position: int| passes(catalog[position]@, annotations, selected, mode, search),
    )
}

/// The entries that are shown and were recently used, by their positions in
/// the catalog.
pub open spec fn shown_favorites(
    catalog: Seq<Emoji>,
    annotations: Map<Seq<char>, Annotation>,
    selected: Option<Group>,
    mode: SkinToneMode,
    search: Seq<char>,
    last_used: Seq<Seq<char>>,
) -> Seq<int> {
    positions_where(
        catalog.len() as int,
        |position: int|
            passes(catalog[position]@, annotations, selected, mode, search) && last_used.contains(
                catalog[position].glyph@,
            ),
    )
}

/// The result of a filter pass.
pub struct Filtered {
    /// The positions of all entries that are shown, in catalog order.
    pub emojis: Vec<usize>,
    /// The positions of those among them that were recently used, in
    /// catalog order.
    pub favorites: Vec<usize>,
}

/// Whether one entry is shown.
pub fn entry_passes(
    emoji: &Emoji,
    annotations: &Annotations,
    selected_group: Option<Group>,
    skin_tone_mode: SkinToneMode,
    search: &str,
) -> (shown: bool)
    ensures
        shown == passes(emoji@, annotations@, selected_group, skin_tone_mode, search@),
{
    let group_fits: bool = match selected_group {
        None => true,
        Some(group) => group == emoji.group,
    };
    if !group_fits {
        return false;
    }
    if !skin_tone_mode.shows(emoji.skin_tone) {
        return false;
    }
    name_matches(emoji_name_localized(annotations, emoji), search)
}

/// Walks once through the catalog and lists the entries that are shown,
/// and among them those that were recently used.
pub fn filter(
    catalog: &Vec<Emoji>,
    annotations: &Annotations,
    selected_group: Option<Group>,
    skin_tone_mode: SkinToneMode,
    search: &str,
    last_used: &Vec<String>,
) -> (filtered: Filtered)
    ensures
        positions(filtered.emojis@) == shown(
            catalog@,
            annotations@,
            selected_group,
            skin_tone_mode,
            search@,
        ),
        positions(filtered.favorites@) == shown_favorites(
            catalog@,
            annotations@,
            selected_group,
            skin_tone_mode,
            search@,
            texts(last_used@),
        ),
{
    let mut emojis: Vec<usize> = Vec::new();
    let mut favorites: Vec<usize> = Vec::new();
    let ghost all = |position: int|
        passes(catalog@[position]@, annotations@, selected_group, skin_tone_mode, search@);
    let ghost used = |position: int|
        passes(catalog@[position]@, annotations@, selected_group, skin_tone_mode, search@)
            && texts(last_used@).contains(catalog@[position].glyph@);
    let mut index: usize = 0;
    assert(positions(emojis@) =~= positions_where(0, all));
    assert(positions(favorites@) =~= positions_where(0, used));
    while index < catalog.len()
        invariant
            index <= catalog.len(),
            all == |position: int|
                passes(catalog@[position]@, annotations@, selected_group, skin_tone_mode, search@),
            used == |position: int|
                passes(catalog@[position]@, annotations@, selected_group, skin_tone_mode, search@)
                    && texts(last_used@).contains(catalog@[position].glyph@),
            positions(emojis@) == positions_where(index as int, all),
            positions(favorites@) == positions_where(index as int, used),
        decreases catalog.len() - index,
    {
        let emoji = &catalog[index];
        let ghost shown_before = positions(emojis@);
        let ghost favorites_before = positions(favorites@);
        if entry_passes(emoji, annotations, selected_group, skin_tone_mode, search) {
            emojis.push(index);
            assert(positions(emojis@) =~= shown_before.push(index as int));
            if contains(last_used, emoji.glyph.as_str()) {
                favorites.push(index);
                assert(positions(favorites@) =~= favorites_before.push(index as int));
            }
        }
        assert(all(index as int) == passes(
            catalog@[index as int]@,
            annotations@,
            selected_group,
            skin_tone_mode,
            search@,
        ));
        assert(used(index as int) == (all(index as int) && texts(last_used@).contains(
            catalog@[index as int].glyph@,
        )));
        index = index + 1;
    }
    Filtered { emojis, favorites }
}

/// What a list of positions under a condition holds: exactly the positions
/// below the end of which the condition holds, each once, in ascending
/// order.
pub proof fn lemma_positions_where(end: int, condition: spec_fn(int) -> bool)
    ensures
        forall|k: int|
            0 <= k < positions_where(end, condition).len() ==> 0 <= #[trigger] positions_where(
                end,
                condition,
            )[k] < end && condition(positions_where(end, condition)[k]),
        forall|k: int, l: int|
            0 <= k < l < positions_where(end, condition).len() ==> positions_where(
                end,
                condition,
            )[k] < positions_where(end, condition)[l],
        forall|position: int|
            0 <= position < end && #[trigger] condition(position) ==> positions_where(
                end,
                condition,
            ).contains(position),
        positions_where(end, condition).len() <= if end < 0 {
            0
        } else {
            end
        },
    decreases end,
{
    if end > 0 {
        lemma_positions_where(end - 1, condition);
        let shorter = positions_where(end - 1, condition);
        let list = positions_where(end, condition);
        assert forall|position: int| 0 <= position < end && condition(position) implies list.contains(
            position,
        ) by {
            if position < end - 1 {
                assert(condition(position));
                assert(shorter.contains(position));
                let k = choose|k: int| 0 <= k < shorter.len() && shorter[k] == position;
                assert(list[k] == position);
            } else {
                assert(list[list.len() - 1] == position);
            }
        }
    }
}

/// Under a condition that implies another, the list is a part of the other
/// list.
pub proof fn lemma_positions_narrow(
    end: int,
    narrow: spec_fn(int) -> bool,
    wide: spec_fn(int) -> bool,
)
    requires
        forall|position: int| 0 <= position < end && #[trigger] narrow(position) ==> wide(position),
    ensures
        forall|k: int|
            0 <= k < positions_where(end, narrow).len() ==> positions_where(end, wide).contains(
                #[trigger] positions_where(end, narrow)[k],
            ),
{
    lemma_positions_where(end, narrow);
    lemma_positions_where(end, wide);
}

/// Two conditions that agree below the end give the same list.
pub proof fn lemma_positions_agree(end: int, one: spec_fn(int) -> bool, other: spec_fn(int) -> bool)
    requires
        forall|position: int| 0 <= position < end ==> #[trigger] one(position) == other(position),
    ensures
        positions_where(end, one) == positions_where(end, other),
    decreases end,
{
    if end > 0 {
        lemma_positions_agree(end - 1, one, other);
    }
}

/// With an empty search text the names do not count: exactly the entries
/// of the selected category whose skin tone the configuration shows are
/// shown, whatever they are called.
pub proof fn lemma_empty_search(
    catalog: Seq<Emoji>,
    annotations: Map<Seq<char>, Annotation>,
    selected: Option<Group>,
    mode: SkinToneMode,
)
    ensures
        shown(catalog, annotations, selected, mode, Seq::<char>::empty()) == positions_where(
            catalog.len() as int,
            |position: int|
                in_group(catalog[position]@, selected) && mode.spec_shows(
                    catalog[position]@.skin_tone,
                ),
        ),
{
    let with_name = |position: int|
        passes(catalog[position]@, annotations, selected, mode, Seq::<char>::empty());
    let without_name = |position: int|
        in_group(catalog[position]@, selected) && mode.spec_shows(catalog[position]@.skin_tone);
    assert forall|position: int| 0 <= position < catalog.len() implies #[trigger] with_name(
        position,
    ) == without_name(position) by {
        lemma_empty_text_occurs(localized_name(annotations, catalog[position]@));
    }
    lemma_positions_agree(catalog.len() as int, with_name, without_name);
}

/// What a filter pass shows: every entry listed belongs to the selected
/// category, has a skin tone that the configuration shows and a name that
/// matches the search text; the entries stand in catalog order; every such
/// entry of the catalog is listed; and the recently used entries listed
/// apart are exactly those of the list whose characters were recently used.
pub proof fn lemma_filter_result(
    catalog: Seq<Emoji>,
    annotations: Map<Seq<char>, Annotation>,
    selected: Option<Group>,
    mode: SkinToneMode,
    search: Seq<char>,
    last_used: Seq<Seq<char>>,
)
    ensures
        ({
            let all = shown(catalog, annotations, selected, mode, search);
            let favorites = shown_favorites(catalog, annotations, selected, mode, search, last_used);
            &&& forall|k: int|
                0 <= k < all.len() ==> 0 <= #[trigger] all[k] < catalog.len() && passes(
                    catalog[all[k]]@,
                    annotations,
                    selected,
                    mode,
                    search,
                )
            &&& forall|k: int, l: int| 0 <= k < l < all.len() ==> all[k] < all[l]
            &&& forall|position: int|
                0 <= position < catalog.len() && passes(
                    catalog[position]@,
                    annotations,
                    selected,
                    mode,
                    search,
                ) ==> all.contains(position)
            &&& forall|k: int|
                0 <= k < favorites.len() ==> all.contains(#[trigger] favorites[k])
                    && last_used.contains(catalog[favorites[k]].glyph@)
            &&& forall|k: int, l: int| 0 <= k < l < favorites.len() ==> favorites[k] < favorites[l]
            &&& forall|k: int|
                0 <= k < all.len() && last_used.contains(catalog[#[trigger] all[k]].glyph@)
                    ==> favorites.contains(all[k])
        }),
{
    let wide = |position: int| passes(catalog[position]@, annotations, selected, mode, search);
    let narrow = |position: int|
        passes(catalog[position]@, annotations, selected, mode, search) && last_used.contains(
            catalog[position].glyph@,
        );
    lemma_positions_where(catalog.len() as int, wide);
    lemma_positions_where(catalog.len() as int, narrow);
    lemma_positions_narrow(catalog.len() as int, narrow, wide);
    let all = shown(catalog, annotations, selected, mode, search);
    let favorites = shown_favorites(catalog, annotations, selected, mode, search, last_used);
    assert forall|k: int|
        0 <= k < all.len() && last_used.contains(
            catalog[#[trigger] all[k]].glyph@,
        ) implies favorites.contains(all[k]) by {
        assert(narrow(all[k]));
    }
    assert forall|position: int|
        0 <= position < catalog.len() && passes(
            catalog[position]@,
            annotations,
            selected,
            mode,
            search,
        ) implies all.contains(position) by {
        assert(wide(position));
    }
}

} // verus!
