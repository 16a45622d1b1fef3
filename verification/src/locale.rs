//! The languages of the annotations: which of the languages at hand are
//! loaded for the languages that the user asks for, and how their
//! annotations come together.

use vstd::prelude::*;
use crate::config::{Annotation, Annotations};
use crate::favorites::texts;

verus! {

/// The language that is loaded whatever the user asks for.
pub const DEFAULT_LANGUAGE: &'static str = "en";

/// What language negotiation by filtering gives for the tags of the
/// requested languages, the tags of the available languages and the tag of
/// a default language: the available languages that match a requested one,
/// the best match first, and the default language.
pub uninterp spec fn negotiated(
    requested: Seq<Seq<char>>,
    available: Seq<Seq<char>>,
    default: Seq<char>,
) -> Seq<Seq<char>>;

/// `fluent_langneg::negotiate_languages` with the strategy `Filtering`, on
/// language tags that `fluent_langneg::convert_vec_str_to_langids_lossy` has
/// read, which leaves out what is no language tag. The result is a
/// function of the three arguments; each language comes back as the text
/// that `to_string` gives.
#[verifier::external_body]
fn negotiate(requested: &Vec<String>, available: &Vec<String>, default: &str) -> (supported: Vec<
    String,
>)
    ensures
        texts(supported@) == negotiated(texts(requested@), texts(available@), default@),
{
    let requested = fluent_langneg::convert_vec_str_to_langids_lossy(requested);
    let available = fluent_langneg::convert_vec_str_to_langids_lossy(available);
    let default = fluent_langneg::convert_vec_str_to_langids_lossy([default]);
    fluent_langneg::negotiate_languages(
        &requested,
        &available,
        default.first(),
        fluent_langneg::NegotiationStrategy::Filtering,
    ).iter().map(|language| language.to_string()).collect()
}

/// A list of languages the other way round.
pub fn reversed(languages: Vec<String>) -> (turned: Vec<String>)
    ensures
        texts(turned@) == texts(languages@).reverse(),
{
    let ghost all = texts(languages@);
    let mut languages = languages;
    let mut turned: Vec<String> = Vec::new();
    while languages.len() > 0
        invariant
            languages@.len() + turned@.len() == all.len(),
            forall|i: int| 0 <= i < languages@.len() ==> texts(languages@)[i] == all[i],
            forall|i: int|
                0 <= i < turned@.len() ==> #[trigger] texts(turned@)[i] == all[all.len() - 1 - i],
        decreases languages@.len(),
    {
        let ghost before = texts(turned@);
        let ghost rest = texts(languages@);
        let language = languages.pop().unwrap();
        assert(language@ == rest[rest.len() - 1]);
        turned.push(language);
        assert(texts(turned@) =~= before.push(language@));
        assert(forall|i: int| 0 <= i < languages@.len() ==> texts(languages@)[i] == rest[i]);
    }
    assert(texts(turned@) =~= all.reverse());
    turned
}

/// The languages whose annotations are loaded, in the order of loading:
/// the languages that negotiation gives for the requested and the available
/// ones, with English as the default, the best match last, so that its
/// annotations replace those of the others.
pub fn load_order(requested: &Vec<String>, available: &Vec<String>) -> (order: Vec<String>)
    ensures
        texts(order@) == negotiated(
            texts(requested@),
            texts(available@),
            DEFAULT_LANGUAGE@,
        ).reverse(),
{
    reversed(negotiate(requested, available, DEFAULT_LANGUAGE))
}

/// The maps of a list of tables.
pub open spec fn maps(tables: Seq<Annotations>) -> Seq<Map<Seq<char>, Annotation>> {
    tables.map_values(|table: Annotations| table@)
}

/// The annotations of several tables together: under a key that several
/// tables hold stands the annotation of the last of them.
pub open spec fn merged(tables: Seq<Map<Seq<char>, Annotation>>) -> Map<Seq<char>, Annotation>
    decreases tables.len(),
{
    if tables.len() == 0 {
        Map::empty()
    } else {
        merged(tables.drop_last()).union_prefer_right(tables.last())
    }
}

/// Puts the annotations of the loaded languages together, in the order of
/// loading.
pub fn merge_annotations(tables: Vec<Annotations>) -> (annotations: Annotations)
    ensures
        annotations@ == merged(maps(tables@)),
{
    let ghost all = maps(tables@);
    let mut tables = tables;
    let mut annotations = Annotations::new();
    let ghost mut done: int = 0;
    assert(all.subrange(0, 0) =~= Seq::empty());
    while tables.len() > 0
        invariant
            0 <= done <= all.len(),
            done + tables@.len() == all.len(),
            maps(tables@) == all.subrange(done, all.len() as int),
            annotations@ == merged(all.subrange(0, done)),
        decreases tables@.len(),
    {
        let ghost rest = maps(tables@);
        let ghost before = tables@;
        let table = tables.remove(0);
        assert(table@ == rest[0]);
        assert forall|i: int| 0 <= i < tables@.len() implies maps(tables@)[i] == all[done + 1
            + i] by {
            assert(tables@[i] == before[i + 1]);
            assert(rest[i + 1] == all[done + 1 + i]);
        }
        assert(maps(tables@) =~= all.subrange(done + 1, all.len() as int));
        annotations.extend(table);
        proof {
            let longer = all.subrange(0, done + 1);
            assert(longer.drop_last() =~= all.subrange(0, done));
            assert(longer.last() == all[done]);
            done = done + 1;
        }
    }
    assert(all.subrange(0, done) =~= all);
    annotations
}

/// Under a key, the annotations of several tables hold that of the last
/// table that has the key.
pub proof fn lemma_last_table_wins(
    tables: Seq<Map<Seq<char>, Annotation>>,
    key: Seq<char>,
    last: int,
)
    requires
        0 <= last < tables.len(),
        tables[last].contains_key(key),
        forall|later: int| last < later < tables.len() ==> !(#[trigger] tables[later]).contains_key(
            key,
        ),
    ensures
        merged(tables).contains_key(key),
        merged(tables)[key] == tables[last][key],
    decreases tables.len(),
{
    let shorter = tables.drop_last();
    if last < tables.len() - 1 {
        assert(!tables[tables.len() - 1].contains_key(key));
        assert(shorter[last] == tables[last]);
        assert forall|later: int| last < later < shorter.len() implies !(
        #[trigger] shorter[later]).contains_key(key) by {
            assert(shorter[later] == tables[later]);
        }
        lemma_last_table_wins(shorter, key, last);
    }
}

/// The annotations of several tables hold nothing under a key that none of
/// the tables has.
pub proof fn lemma_merged_keys(tables: Seq<Map<Seq<char>, Annotation>>, key: Seq<char>)
    requires
        merged(tables).contains_key(key),
    ensures
        exists|i: int| 0 <= i < tables.len() && (#[trigger] tables[i]).contains_key(key),
    decreases tables.len(),
{
    if tables.len() > 0 {
        let shorter = tables.drop_last();
        if tables.last().contains_key(key) {
            assert(tables[tables.len() - 1].contains_key(key));
        } else {
            lemma_merged_keys(shorter, key);
            let i = choose|i: int| 0 <= i < shorter.len() && (#[trigger] shorter[i]).contains_key(key);
            assert(shorter[i] == tables[i]);
        }
    }
}

} // verus!
