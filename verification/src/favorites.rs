//! The list of recently used emoji: the most recent first, none twice, and
//! no longer than a limit.

use vstd::prelude::*;

verus! {

/// The texts of a list of strings.
pub open spec fn texts(list: Seq<String>) -> Seq<Seq<char>> {
    list.map_values(|text: String| text@)
}

/// Whether `position` is the first place at which `item` stands in `list`.
pub open spec fn is_first_position(list: Seq<Seq<char>>, item: Seq<char>, position: int) -> bool {
    &&& 0 <= position < list.len()
    &&& list[position] == item
    &&& forall|earlier: int| 0 <= earlier < position ==> list[earlier] != item
}

/// The list without the first occurrence of an item.
pub open spec fn without_first(list: Seq<Seq<char>>, item: Seq<char>) -> Seq<Seq<char>> {
    if exists|position: int| is_first_position(list, item, position) {
        list.remove(choose|position: int| is_first_position(list, item, position))
    } else {
        list
    }
}

/// The first entries of a list, up to a limit.
pub open spec fn limited(list: Seq<Seq<char>>, limit: int) -> Seq<Seq<char>> {
    if limit < list.len() {
        list.subrange(0, limit)
    } else {
        list
    }
}

/// The list of recently used emoji after an emoji was used: the emoji
/// comes first, its earlier entry is gone, and the list is cut to the limit.
pub open spec fn after_use(list: Seq<Seq<char>>, glyph: Seq<char>, limit: int) -> Seq<Seq<char>> {
    limited(seq![glyph] + without_first(list, glyph), limit)
}

/// The first position of a text in a list.
pub fn position(list: &Vec<String>, text: &str) -> (found: Option<usize>)
    ensures
        match found {
            Some(position) => is_first_position(texts(list@), text@, position as int),
            None => !texts(list@).contains(text@),
        },
{
    let wanted: String = text.to_owned();
    let mut index: usize = 0;
    while index < list.len()
        invariant
            index <= list.len(),
            wanted@ == text@,
            forall|earlier: int| 0 <= earlier < index ==> texts(list@)[earlier] != text@,
        decreases list.len() - index,
    {
        if list[index] == wanted {
            return Some(index);
        }
        index = index + 1;
    }
    None
}

/// Whether a text stands in a list.
pub fn contains(list: &Vec<String>, text: &str) -> (found: bool)
    ensures
        found == texts(list@).contains(text@),
{
    match position(list, text) {
        Some(position) => {
            assert(texts(list@)[position as int] == text@);
            true
        },
        None => false,
    }
}

/// Records that an emoji was used: it moves to the front of the list, or is
/// put there if it was not in the list, and the list is cut to the limit.
pub fn record_use(last_used: &mut Vec<String>, glyph: &str, limit: usize)
    ensures
        texts(final(last_used)@) == after_use(texts(old(last_used)@), glyph@, limit as int),
{
    let ghost before = texts(last_used@);
    match position(last_used, glyph) {
        Some(position) => {
            proof {
                let chosen = choose|p: int| is_first_position(before, glyph@, p);
                assert(chosen == position);
            }
            let _ = last_used.remove(position);
            assert(texts(last_used@) =~= before.remove(position as int));
        },
        None => {
            assert(forall|p: int| !is_first_position(before, glyph@, p));
        },
    }
    let ghost rest = texts(last_used@);
    assert(rest == without_first(before, glyph@));
    let entry: String = glyph.to_owned();
    last_used.insert(0, entry);
    assert(texts(last_used@) =~= seq![glyph@] + rest);
    let ghost full = texts(last_used@);
    last_used.truncate(limit);
    assert(texts(last_used@) =~= limited(full, limit as int));
}

/// Whether no text stands twice in a list.
pub open spec fn distinct(list: Seq<Seq<char>>) -> bool {
    forall|i: int, j: int| 0 <= i < j < list.len() ==> list[i] != list[j]
}

/// After an emoji was used it stands first in the list, unless the limit
/// is 0; the list is no longer than the limit; and a list in which nothing
/// stood twice is still one.
pub proof fn lemma_use_moves_to_front(list: Seq<Seq<char>>, glyph: Seq<char>, limit: int)
    requires
        0 <= limit,
    ensures
        after_use(list, glyph, limit).len() <= limit,
        limit >= 1 ==> after_use(list, glyph, limit)[0] == glyph,
        distinct(list) ==> distinct(after_use(list, glyph, limit)),
        after_use(list, glyph, limit).len() == if list.contains(glyph) {
            if list.len() <= limit {
                list.len() as int
            } else {
                limit
            }
        } else {
            if list.len() + 1 <= limit {
                list.len() as int + 1
            } else {
                limit
            }
        },
{
    let rest = without_first(list, glyph);
    lemma_without_first(list, glyph);
    let full = seq![glyph] + rest;
    if distinct(list) {
        assert(distinct(full)) by {
            assert forall|i: int, j: int| 0 <= i < j < full.len() implies full[i] != full[j] by {
                if i == 0 {
                    assert(full[j] == rest[j - 1]);
                } else {
                    assert(full[i] == rest[i - 1]);
                    assert(full[j] == rest[j - 1]);
                }
            }
        }
    }
}

/// What is left of a list without the first occurrence of an item: one
/// entry less if the item stood in it, the other entries in their order;
/// and where nothing stood twice, the item stands in it no more.
pub proof fn lemma_without_first(list: Seq<Seq<char>>, item: Seq<char>)
    ensures
        list.contains(item) ==> without_first(list, item).len() == list.len() - 1,
        !list.contains(item) ==> without_first(list, item) == list,
        distinct(list) ==> distinct(without_first(list, item)) && !without_first(
            list,
            item,
        ).contains(item),
        forall|other: Seq<char>|
            other != item ==> (without_first(list, item).contains(other) <==> list.contains(other)),
{
    let rest = without_first(list, item);
    if list.contains(item) {
        first_position_exists(list, item);
        let chosen = choose|p: int| is_first_position(list, item, p);
        assert(is_first_position(list, item, chosen));
        assert(rest == list.remove(chosen));
        assert forall|other: Seq<char>| other != item implies (rest.contains(other)
            <==> list.contains(other)) by {
            if list.contains(other) {
                let k = choose|k: int| 0 <= k < list.len() && list[k] == other;
                if k < chosen {
                    assert(rest[k] == other);
                } else {
                    assert(rest[k - 1] == other);
                }
            }
            if rest.contains(other) {
                let k = choose|k: int| 0 <= k < rest.len() && rest[k] == other;
                if k < chosen {
                    assert(list[k] == other);
                } else {
                    assert(list[k + 1] == other);
                }
            }
        }
        if distinct(list) {
            assert forall|i: int, j: int| 0 <= i < j < rest.len() implies rest[i] != rest[j] by {
                let a = if i < chosen {
                    i
                } else {
                    i + 1
                };
                let b = if j < chosen {
                    j
                } else {
                    j + 1
                };
                assert(rest[i] == list[a] && rest[j] == list[b]);
            }
            if rest.contains(item) {
                let k = choose|k: int| 0 <= k < rest.len() && rest[k] == item;
                let a = if k < chosen {
                    k
                } else {
                    k + 1
                };
                assert(list[a] == item && a != chosen);
                assert(false);
            }
        }
    } else {
        assert(forall|p: int| !is_first_position(list, item, p));
        assert forall|other: Seq<char>| other != item implies (rest.contains(other)
            <==> list.contains(other)) by {}
    }
}

/// An item that stands in a list has a first position there.
pub proof fn first_position_exists(list: Seq<Seq<char>>, item: Seq<char>) -> (position: int)
    requires
        list.contains(item),
    ensures
        is_first_position(list, item, position),
    decreases list.len(),
{
    let k = choose|k: int| 0 <= k < list.len() && list[k] == item;
    if exists|earlier: int| 0 <= earlier < k && list[earlier] == item {
        let earlier = choose|earlier: int| 0 <= earlier < k && list[earlier] == item;
        let shorter = list.subrange(0, k);
        assert(shorter[earlier] == item);
        let position = first_position_exists(shorter, item);
        assert(forall|i: int| 0 <= i < k ==> shorter[i] == list[i]);
        position
    } else {
        k
    }
}

/// What the use of an emoji does to a list in which nothing stands twice:
/// the emoji comes first and the others follow in their old order, as far
/// as the limit lets them.
pub proof fn lemma_use_of_new(list: Seq<Seq<char>>, glyph: Seq<char>, limit: int)
    requires
        !list.contains(glyph),
    ensures
        after_use(list, glyph, limit) == limited(seq![glyph] + list, limit),
{
    lemma_without_first(list, glyph);
}

/// An emoji that is used again moves to the front and is not listed
/// twice: after one emoji, another and the first again, with room for two,
/// the list holds the first and then the other.
pub proof fn lemma_used_again(first: Seq<char>, other: Seq<char>, limit: int)
    requires
        first != other,
        2 <= limit,
    ensures
        after_use(
            after_use(after_use(Seq::empty(), first, limit), other, limit),
            first,
            limit,
        ) == seq![first, other],
{
    let empty = Seq::<Seq<char>>::empty();
    lemma_use_of_new(empty, first, limit);
    let one = after_use(empty, first, limit);
    assert(one =~= seq![first]);
    lemma_use_of_new(one, other, limit);
    let two = after_use(one, other, limit);
    assert(two =~= seq![other, first]);
    assert(is_first_position(two, first, 1));
    let chosen = choose|position: int| is_first_position(two, first, position);
    assert(chosen == 1);
    assert(without_first(two, first) =~= seq![other]);
    assert(seq![first] + seq![other] =~= seq![first, other]);
}

/// The list keeps the most recent emoji up to its limit: after four
/// different emoji with room for three, it holds the last three, the most
/// recent first.
pub proof fn lemma_limit_keeps_latest(a: Seq<char>, b: Seq<char>, c: Seq<char>, d: Seq<char>)
    requires
        a != b,
        a != c,
        a != d,
        b != c,
        b != d,
        c != d,
    ensures
        after_use(
            after_use(after_use(after_use(Seq::empty(), a, 3), b, 3), c, 3),
            d,
            3,
        ) == seq![d, c, b],
{
    let empty = Seq::<Seq<char>>::empty();
    lemma_use_of_new(empty, a, 3);
    let one = after_use(empty, a, 3);
    assert(one =~= seq![a]);
    lemma_use_of_new(one, b, 3);
    let two = after_use(one, b, 3);
    assert(two =~= seq![b, a]);
    lemma_use_of_new(two, c, 3);
    let three = after_use(two, c, 3);
    assert(three =~= seq![c, b, a]);
    lemma_use_of_new(three, d, 3);
    assert((seq![d] + three).subrange(0, 3) =~= seq![d, c, b]);
}

} // verus!
