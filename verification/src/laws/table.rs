//! What the reverse table answers, key by key.
use vstd::prelude::*;

use crate::rewrite;
use crate::text;

verus! {

/// A key that the hook left as it was is not recorded.
pub proof fn unchanged_key_is_not_recorded(map: rewrite::RewriteMap, key: Seq<char>)
    ensures
        map.inserted(key, key) == map,
{
}

/// After an `original` without `*`, `+` and `$` is recorded, its `rewritten` key answers with it,
/// unless an earlier record has the same rewritten key; no other key gets another answer.
pub proof fn record_of_a_single_key(
    map: rewrite::RewriteMap,
    rewritten: Seq<char>,
    original: Seq<char>,
    other: Seq<char>,
)
    requires
        rewritten != original,
        forall|i: int|
            0 <= i < original.len() ==> #[trigger] original[i] != '*' && original[i] != '+'
                && original[i] != '$',
    ensures
        (forall|i: int| 0 <= i < map.exact.len() ==> (#[trigger] map.exact[i]).0 != rewritten)
            ==> map.inserted(rewritten, original).reversed(rewritten) == Some(original),
        (exists|i: int| 0 <= i < map.exact.len() && (#[trigger] map.exact[i]).0 == rewritten)
            ==> map.inserted(rewritten, original).reversed(rewritten) == map.reversed(rewritten),
        other != rewritten ==> map.inserted(rewritten, original).reversed(other) == map.reversed(
            other,
        ),
{
    assert(!text::has_wildcard(original));
    if rewrite::exact_match(map.exact, rewritten) is Some {
        answers_come_from_records(map, rewritten);
        rewrite::record_changes_no_other_key(map, rewritten, original, rewritten);
    } else {
        rewrite::recorded_key_is_reversed(map, rewritten, original);
    }
    if exists|i: int| 0 <= i < map.exact.len() && (#[trigger] map.exact[i]).0 == rewritten {
        assert(rewrite::knows(map.exact, rewritten));
        rewrite::first_record_stays(map, rewritten, original, rewritten);
    }
    if other != rewritten {
        rewrite::record_changes_no_other_key(map, rewritten, original, other);
    }
}

/// An `original` that is split before its first `*`, `+` or `$` is recorded by what stands before
/// the split, and so is its rewritten key: a key that starts with the rewritten front and had no
/// answer gets the original front in its place and keeps the rest. No other key gets another answer.
pub proof fn record_of_a_wildcard(
    map: rewrite::RewriteMap,
    rewritten_front: Seq<char>,
    rewritten_rest: Seq<char>,
    original_front: Seq<char>,
    original_rest: Seq<char>,
    suffix: Seq<char>,
    other: Seq<char>,
)
    requires
        rewritten_front + rewritten_rest != original_front + original_rest,
        forall|i: int|
            0 <= i < rewritten_front.len() ==> #[trigger] rewritten_front[i] != '*'
                && rewritten_front[i] != '+' && rewritten_front[i] != '$',
        forall|i: int|
            0 <= i < original_front.len() ==> #[trigger] original_front[i] != '*'
                && original_front[i] != '+' && original_front[i] != '$',
        rewritten_rest.len() > 0 ==> rewritten_rest[0] == '*' || rewritten_rest[0] == '+'
            || rewritten_rest[0] == '$',
        original_rest.len() > 0,
        original_rest[0] == '*' || original_rest[0] == '+' || original_rest[0] == '$',
    ensures
        ({
            let after = map.inserted(
                rewritten_front + rewritten_rest,
                original_front + original_rest,
            );
            &&& map.reversed(rewritten_front + suffix) is None ==> after.reversed(
                rewritten_front + suffix,
            ) == Some(original_front + suffix)
            &&& map.reversed(other) is Some ==> after.reversed(other) == map.reversed(other)
            &&& !rewritten_front.is_prefix_of(other) ==> after.reversed(other) == map.reversed(
                other,
            )
        }),
{
    let rewritten = rewritten_front + rewritten_rest;
    let original = original_front + original_rest;
    assert(!text::has_wildcard(rewritten_front));
    assert(!text::has_wildcard(original_front));
    text::lemma_literal_prefix_of_sum(rewritten_front, rewritten_rest);
    text::lemma_literal_prefix_of_sum(original_front, original_rest);
    assert(text::is_wildcard(original_rest[0]));
    assert(text::has_wildcard(original_rest));
    assert(text::literal_len(rewritten_rest) == 0);
    assert(text::literal_len(original_rest) == 0);
    assert(text::literal_prefix(rewritten) =~= rewritten_front);
    assert(text::literal_prefix(original) =~= original_front);
    if map.reversed(rewritten_front + suffix) is None {
        rewrite::recorded_prefix_is_reversed(map, rewritten, original, suffix);
    }
    if map.reversed(other) is Some || !rewritten_front.is_prefix_of(other) {
        rewrite::record_changes_no_other_key(map, rewritten, original, other);
    }
}

/// Every answer goes back to a record: either to one of the whole key, or, where no record has the
/// whole key, to one of a prefix of it, with the rest kept. A key that no record fits has no answer.
pub proof fn answers_come_from_records(map: rewrite::RewriteMap, key: Seq<char>)
    ensures
        map.reversed(key) is Some <==> {
            ||| exists|i: int| 0 <= i < map.exact.len() && (#[trigger] map.exact[i]).0 == key
            ||| exists|i: int|
                0 <= i < map.prefix.len() && (#[trigger] map.prefix[i]).0.is_prefix_of(key)
        },
        map.reversed(key) matches Some(original) ==> {
            ||| exists|i: int|
                0 <= i < map.exact.len() && #[trigger] map.exact[i] == (key, original)
            ||| {
                &&& forall|i: int| 0 <= i < map.exact.len() ==> (#[trigger] map.exact[i]).0 != key
                &&& exists|i: int|
                    0 <= i < map.prefix.len() && (#[trigger] map.prefix[i]).0.is_prefix_of(key)
                        && original == map.prefix[i].1 + key.skip(map.prefix[i].0.len() as int)
            }
        },
        rewrite::exact_match(map.exact, key) is Some <==> exists|i: int|
            0 <= i < map.exact.len() && (#[trigger] map.exact[i]).0 == key,
{
    lemma_exact_match(map.exact, key);
    lemma_prefix_match(map.prefix, key);
}

proof fn lemma_exact_match(entries: Seq<rewrite::Entry>, key: Seq<char>)
    ensures
        rewrite::exact_match(entries, key) is None ==> forall|i: int|
            0 <= i < entries.len() ==> (#[trigger] entries[i]).0 != key,
        rewrite::exact_match(entries, key) matches Some(original) ==> exists|i: int|
            0 <= i < entries.len() && #[trigger] entries[i] == (key, original),
    decreases entries.len(),
{
    if entries.len() > 0 {
        let rest = entries.drop_first();
        lemma_exact_match(rest, key);
        if entries[0].0 == key {
            assert(entries[0] == (key, entries[0].1));
        } else if let Some(original) = rewrite::exact_match(rest, key) {
            let i = choose|i: int| 0 <= i < rest.len() && #[trigger] rest[i] == (key, original);
            assert(entries[i + 1] == (key, original));
        } else {
            assert forall|i: int| 0 <= i < entries.len() implies (#[trigger] entries[i]).0
                != key by {
                if i > 0 {
                    assert(rest[i - 1] == entries[i]);
                }
            }
        }
    }
}

proof fn lemma_prefix_match(entries: Seq<rewrite::Entry>, key: Seq<char>)
    ensures
        rewrite::prefix_match(entries, key) is None ==> forall|i: int|
            0 <= i < entries.len() ==> !(#[trigger] entries[i]).0.is_prefix_of(key),
        rewrite::prefix_match(entries, key) matches Some(original) ==> exists|i: int|
            0 <= i < entries.len() && (#[trigger] entries[i]).0.is_prefix_of(key) && original
                == entries[i].1 + key.skip(entries[i].0.len() as int),
    decreases entries.len(),
{
    if entries.len() > 0 {
        let rest = entries.drop_first();
        lemma_prefix_match(rest, key);
        if entries[0].0.is_prefix_of(key) {
        } else if let Some(original) = rewrite::prefix_match(rest, key) {
            let i = choose|i: int|
                0 <= i < rest.len() && (#[trigger] rest[i]).0.is_prefix_of(key) && original
                    == rest[i].1 + key.skip(rest[i].0.len() as int);
            assert(entries[i + 1] == rest[i]);
        } else {
            assert forall|i: int| 0 <= i < entries.len() implies !(#[trigger] entries[
                i
            ]).0.is_prefix_of(key) by {
                if i > 0 {
                    assert(rest[i - 1] == entries[i]);
                }
            }
        }
    }
}

/// Of two records of prefixes that both fit a key, the earlier one gives the answer.
pub proof fn earlier_prefix_answers(map: rewrite::RewriteMap, i: int, key: Seq<char>)
    requires
        0 <= i < map.prefix.len(),
        map.prefix[i].0.is_prefix_of(key),
        forall|j: int| 0 <= j < i ==> !(#[trigger] map.prefix[j]).0.is_prefix_of(key),
        forall|j: int| 0 <= j < map.exact.len() ==> (#[trigger] map.exact[j]).0 != key,
    ensures
        map.reversed(key) == Some(map.prefix[i].1 + key.skip(map.prefix[i].0.len() as int)),
{
    lemma_exact_match(map.exact, key);
    lemma_earlier_prefix(map.prefix, i, key);
}

proof fn lemma_earlier_prefix(entries: Seq<rewrite::Entry>, i: int, key: Seq<char>)
    requires
        0 <= i < entries.len(),
        entries[i].0.is_prefix_of(key),
        forall|j: int| 0 <= j < i ==> !(#[trigger] entries[j]).0.is_prefix_of(key),
    ensures
        rewrite::prefix_match(entries, key) == Some(
            entries[i].1 + key.skip(entries[i].0.len() as int),
        ),
    decreases entries.len(),
{
    if i > 0 {
        let rest = entries.drop_first();
        assert(!entries[0].0.is_prefix_of(key));
        assert forall|j: int| 0 <= j < i - 1 implies !(#[trigger] rest[j]).0.is_prefix_of(key) by {
            assert(rest[j] == entries[j + 1]);
        }
        assert(rest[i - 1] == entries[i]);
        lemma_earlier_prefix(rest, i - 1, key);
    }
}

/// Of two records of the same whole key, the earlier one gives the answer.
pub proof fn earlier_whole_key_answers(map: rewrite::RewriteMap, i: int)
    requires
        0 <= i < map.exact.len(),
        forall|j: int| 0 <= j < i ==> (#[trigger] map.exact[j]).0 != map.exact[i].0,
    ensures
        map.reversed(map.exact[i].0) == Some(map.exact[i].1),
{
    lemma_earlier_whole_key(map.exact, i);
}

proof fn lemma_earlier_whole_key(entries: Seq<rewrite::Entry>, i: int)
    requires
        0 <= i < entries.len(),
        forall|j: int| 0 <= j < i ==> (#[trigger] entries[j]).0 != entries[i].0,
    ensures
        rewrite::exact_match(entries, entries[i].0) == Some(entries[i].1),
    decreases entries.len(),
{
    if i > 0 {
        let rest = entries.drop_first();
        assert(entries[0].0 != entries[i].0);
        assert(rest[i - 1] == entries[i]);
        assert forall|j: int| 0 <= j < i - 1 implies (#[trigger] rest[j]).0 != rest[i - 1].0 by {
            assert(rest[j] == entries[j + 1]);
        }
        lemma_earlier_whole_key(rest, i - 1);
    }
}

} // verus!
