//! The table that turns rewritten keys back into the keys a peer declared.
use vstd::prelude::*;

use crate::text;

verus! {

/// A pair of a rewritten text and the text that it stands for.
pub type Entry = (Seq<char>, Seq<char>);

/// What a table holds: whole keys, and leading parts of keys, each in the order of arrival.
pub struct RewriteMap {
    /// Rewritten keys, each with its original key.
    pub exact: Seq<Entry>,
    /// Rewritten prefixes, each with its original prefix.
    pub prefix: Seq<Entry>,
}

/// Whether some entry has `rewritten` on its left.
pub open spec fn knows(entries: Seq<Entry>, rewritten: Seq<char>) -> bool {
    exists|i: int| 0 <= i < entries.len() && (#[trigger] entries[i]).0 == rewritten
}

/// `entries` with the pair at its end, unless `rewritten` is known already.
pub open spec fn with_entry(
    entries: Seq<Entry>,
    rewritten: Seq<char>,
    original: Seq<char>,
) -> Seq<Entry> {
    if knows(entries, rewritten) {
        entries
    } else {
        entries.push((rewritten, original))
    }
}

/// The original of the first entry whose rewritten key is `key`.
pub open spec fn exact_match(entries: Seq<Entry>, key: Seq<char>) -> Option<Seq<char>>
    decreases entries.len(),
{
    if entries.len() == 0 {
        None
    } else if entries[0].0 == key {
        Some(entries[0].1)
    } else {
        exact_match(entries.drop_first(), key)
    }
}

/// `key` with the first known rewritten prefix replaced by its original prefix.
pub open spec fn prefix_match(entries: Seq<Entry>, key: Seq<char>) -> Option<Seq<char>>
    decreases entries.len(),
{
    if entries.len() == 0 {
        None
    } else if entries[0].0.is_prefix_of(key) {
        Some(entries[0].1 + key.skip(entries[0].0.len() as int))
    } else {
        prefix_match(entries.drop_first(), key)
    }
}

/// Whether no rewritten text occurs twice.
pub open spec fn distinct(entries: Seq<Entry>) -> bool {
    forall|i: int, j: int|
        0 <= i < j < entries.len() ==> (#[trigger] entries[i]).0 != (#[trigger] entries[j]).0
}

impl RewriteMap {
    /// The map that knows nothing.
    pub open spec fn empty() -> RewriteMap {
        RewriteMap { exact: Seq::empty(), prefix: Seq::empty() }
    }

    /// The map after the rewrite of `original` to `rewritten` is recorded. A key that was not
    /// changed is not recorded; an original with a wildcard is recorded by the parts before the
    /// first wildcard of each side; of two records with the same left side the first stays.
    pub open spec fn inserted(self, rewritten: Seq<char>, original: Seq<char>) -> RewriteMap {
        if rewritten == original {
            self
        } else if text::has_wildcard(original) {
            RewriteMap {
                prefix: with_entry(
                    self.prefix,
                    text::literal_prefix(rewritten),
                    text::literal_prefix(original),
                ),
                ..self
            }
        } else {
            RewriteMap { exact: with_entry(self.exact, rewritten, original), ..self }
        }
    }

    /// The key that `key` stands for: by a whole key first, then by a prefix.
    pub open spec fn reversed(self, key: Seq<char>) -> Option<Seq<char>> {
        match exact_match(self.exact, key) {
            Some(original) => Some(original),
            None => prefix_match(self.prefix, key),
        }
    }

    /// What every table keeps: no left side twice, no whole key that stands for itself or for a
    /// key with a wildcard, no wildcard in a prefix.
    pub open spec fn well_formed(self) -> bool {
        &&& distinct(self.exact)
        &&& distinct(self.prefix)
        &&& forall|i: int|
            0 <= i < self.exact.len() ==> {
                let entry = #[trigger] self.exact[i];
                entry.0 != entry.1 && !text::has_wildcard(entry.1)
            }
        &&& forall|i: int|
            0 <= i < self.prefix.len() ==> {
                let entry = #[trigger] self.prefix[i];
                !text::has_wildcard(entry.0) && !text::has_wildcard(entry.1)
            }
    }
}

/// The text of the pairs of a vector.
pub open spec fn entries_of(pairs: Seq<(String, String)>) -> Seq<Entry> {
    pairs.map_values(|pair: (String, String)| (pair.0@, pair.1@))
}

/// Records how keys were rewritten on the way in, and undoes it on the way out.
#[derive(Debug)]
pub struct ReverseRewriteTable {
    /// Whole keys: (rewritten, original).
    exact: Vec<(String, String)>,
    /// Prefixes: (rewritten, original).
    prefix: Vec<(String, String)>,
}

impl View for ReverseRewriteTable {
    type V = RewriteMap;

    closed spec fn view(&self) -> RewriteMap {
        RewriteMap { exact: entries_of(self.exact@), prefix: entries_of(self.prefix@) }
    }
}

impl Default for ReverseRewriteTable {
    fn default() -> (table: Self)
        ensures
            table@ == RewriteMap::empty(),
            table@.well_formed(),
    {
        let table = ReverseRewriteTable { exact: Vec::new(), prefix: Vec::new() };
        assert(table@.exact =~= Seq::<Entry>::empty());
        assert(table@.prefix =~= Seq::<Entry>::empty());
        table
    }
}

/// Adds the pair at the end of `pairs`, unless its left side is known already.
fn add_entry(pairs: &mut Vec<(String, String)>, rewritten: &str, original: &str)
    ensures
        entries_of(final(pairs)@) == with_entry(entries_of(old(pairs)@), rewritten@, original@),
{
    let left = rewritten.to_owned();
    let ghost entries = entries_of(pairs@);
    let mut i: usize = 0;
    while i < pairs.len()
        invariant
            i <= pairs@.len(),
            left@ == rewritten@,
            entries == entries_of(pairs@),
            forall|j: int| 0 <= j < i ==> (#[trigger] entries[j]).0 != rewritten@,
        decreases pairs@.len() - i,
    {
        assert(entries[i as int].0 == pairs@[i as int].0@);
        if pairs[i].0 == left {
            return ;
        }
        i = i + 1;
    }
    pairs.push((left, original.to_owned()));
    assert(entries_of(pairs@) =~= entries.push((rewritten@, original@)));
}

impl ReverseRewriteTable {
    /// Records that `original` was rewritten to `rewritten`.
    pub fn insert(&mut self, rewritten: &str, original: &str)
        ensures
            final(self)@ == old(self)@.inserted(rewritten@, original@),
            rewritten@ == original@ ==> final(self)@ == old(self)@,
            old(self)@.well_formed() ==> final(self)@.well_formed(),
    {
        proof {
            insert_keeps_well_formed(self@, rewritten@, original@);
        }
        if rewritten.to_owned() == original.to_owned() {
            return ;
        }
        if text::find_wildcard(original).is_some() {
            let original_prefix = text::literal_prefix_of(original);
            let rewritten_prefix = text::literal_prefix_of(rewritten);
            add_entry(&mut self.prefix, rewritten_prefix, original_prefix);
        } else {
            add_entry(&mut self.exact, rewritten, original);
        }
    }

    /// The key that the rewritten `key` stands for, if the table knows one.
    pub fn reverse(&self, key: &str) -> (original: Option<String>)
        ensures
            original is Some <==> self@.reversed(key@) is Some,
            original matches Some(o) ==> self@.reversed(key@) == Some(o@),
    {
        let whole = key.to_owned();
        let ghost exact = self@.exact;
        let mut i: usize = 0;
        assert(exact.skip(0) =~= exact);
        while i < self.exact.len()
            invariant
                i <= self.exact@.len(),
                whole@ == key@,
                exact == entries_of(self.exact@),
                exact == self@.exact,
                exact_match(exact, key@) == exact_match(exact.skip(i as int), key@),
            decreases self.exact@.len() - i,
        {
            assert(exact.skip(i as int)[0] == exact[i as int]);
            assert(exact.skip(i as int).drop_first() =~= exact.skip(i + 1));
            if whole == self.exact[i].0 {
                return Some(self.exact[i].1.clone());
            }
            i = i + 1;
        }
        let ghost prefix = self@.prefix;
        let mut j: usize = 0;
        assert(prefix.skip(0) =~= prefix);
        while j < self.prefix.len()
            invariant
                j <= self.prefix@.len(),
                prefix == entries_of(self.prefix@),
                self@.reversed(key@) == prefix_match(prefix, key@),
                prefix_match(prefix, key@) == prefix_match(prefix.skip(j as int), key@),
            decreases self.prefix@.len() - j,
        {
            assert(prefix.skip(j as int)[0] == prefix[j as int]);
            assert(prefix.skip(j as int).drop_first() =~= prefix.skip(j + 1));
            match text::strip_prefix(key, self.prefix[j].0.as_str()) {
                Some(suffix) => {
                    return Some(self.prefix[j].1.clone().concat(suffix));
                },
                None => {},
            }
            j = j + 1;
        }
        None
    }
}

/// A text up to its first wildcard has no wildcard.
proof fn lemma_literal_prefix_has_no_wildcard(s: Seq<char>)
    ensures
        !text::has_wildcard(text::literal_prefix(s)),
{
    text::lemma_literal_len(s);
    let p = text::literal_prefix(s);
    assert forall|i: int| 0 <= i < p.len() implies !text::is_wildcard(#[trigger] p[i]) by {
        assert(p[i] == s[i]);
    }
}

/// Recording a rewrite keeps a table well formed.
pub proof fn insert_keeps_well_formed(map: RewriteMap, rewritten: Seq<char>, original: Seq<char>)
    ensures
        map.well_formed() ==> map.inserted(rewritten, original).well_formed(),
{
    lemma_literal_prefix_has_no_wildcard(rewritten);
    lemma_literal_prefix_has_no_wildcard(original);
}

/// A key has a whole-key match exactly when some entry has it on the left.
proof fn lemma_exact_match_knows(entries: Seq<Entry>, key: Seq<char>)
    ensures
        exact_match(entries, key) is Some <==> knows(entries, key),
    decreases entries.len(),
{
    if entries.len() > 0 {
        let rest = entries.drop_first();
        lemma_exact_match_knows(rest, key);
        if knows(rest, key) {
            let i = choose|i: int| 0 <= i < rest.len() && (#[trigger] rest[i]).0 == key;
            assert(entries[i + 1].0 == key);
        }
        if knows(entries, key) {
            let i = choose|i: int| 0 <= i < entries.len() && (#[trigger] entries[i]).0 == key;
            if i > 0 {
                assert(rest[i - 1].0 == key);
            }
        }
    }
}

/// A new entry at the end answers only what the entries before it leave open.
proof fn lemma_exact_match_push(entries: Seq<Entry>, entry: Entry, key: Seq<char>)
    ensures
        exact_match(entries.push(entry), key) == (match exact_match(entries, key) {
            Some(original) => Some(original),
            None => if entry.0 == key {
                Some(entry.1)
            } else {
                None
            },
        }),
    decreases entries.len(),
{
    let longer = entries.push(entry);
    if entries.len() > 0 {
        assert(longer.drop_first() =~= entries.drop_first().push(entry));
        lemma_exact_match_push(entries.drop_first(), entry, key);
    } else {
        assert(exact_match(longer.drop_first(), key) is None);
    }
}

/// A new prefix at the end answers only what the prefixes before it leave open.
proof fn lemma_prefix_match_push(entries: Seq<Entry>, entry: Entry, key: Seq<char>)
    ensures
        prefix_match(entries.push(entry), key) == (match prefix_match(entries, key) {
            Some(original) => Some(original),
            None => if entry.0.is_prefix_of(key) {
                Some(entry.1 + key.skip(entry.0.len() as int))
            } else {
                None
            },
        }),
    decreases entries.len(),
{
    let longer = entries.push(entry);
    if entries.len() > 0 {
        assert(longer.drop_first() =~= entries.drop_first().push(entry));
        lemma_prefix_match_push(entries.drop_first(), entry, key);
    } else {
        assert(prefix_match(longer.drop_first(), key) is None);
    }
}

/// A key that starts with a known prefix has a match.
proof fn lemma_known_prefix_matches(entries: Seq<Entry>, prefix: Seq<char>, key: Seq<char>)
    requires
        knows(entries, prefix),
        prefix.is_prefix_of(key),
    ensures
        prefix_match(entries, key) is Some,
    decreases entries.len(),
{
    let i = choose|i: int| 0 <= i < entries.len() && (#[trigger] entries[i]).0 == prefix;
    if !entries[0].0.is_prefix_of(key) {
        assert(entries.drop_first()[i - 1].0 == prefix);
        lemma_known_prefix_matches(entries.drop_first(), prefix, key);
    }
}

/// An empty table gives no key back.
pub proof fn empty_table_reverses_nothing(key: Seq<char>)
    ensures
        RewriteMap::empty().reversed(key) is None,
        RewriteMap::empty().well_formed(),
{
}

/// Once the rewrite of a key without a wildcard is recorded, the rewritten key gives the
/// original key back, unless it had another original before.
pub proof fn recorded_key_is_reversed(map: RewriteMap, rewritten: Seq<char>, original: Seq<char>)
    requires
        rewritten != original,
        !text::has_wildcard(original),
        exact_match(map.exact, rewritten) matches Some(o) ==> o == original,
    ensures
        map.inserted(rewritten, original).reversed(rewritten) == Some(original),
{
    lemma_exact_match_knows(map.exact, rewritten);
    lemma_exact_match_push(map.exact, (rewritten, original), rewritten);
}

/// Once the rewrite of a key with a wildcard is recorded, every key under the rewritten prefix
/// that had no other answer before gets the original prefix, and keeps the rest.
pub proof fn recorded_prefix_is_reversed(
    map: RewriteMap,
    rewritten: Seq<char>,
    original: Seq<char>,
    suffix: Seq<char>,
)
    requires
        rewritten != original,
        text::has_wildcard(original),
        map.reversed(text::literal_prefix(rewritten) + suffix) matches Some(o) ==> o
            == text::literal_prefix(original) + suffix,
    ensures
        map.inserted(rewritten, original).reversed(text::literal_prefix(rewritten) + suffix)
            == Some(text::literal_prefix(original) + suffix),
{
    let left = text::literal_prefix(rewritten);
    let right = text::literal_prefix(original);
    let key = left + suffix;
    assert(left.is_prefix_of(key));
    if knows(map.prefix, left) {
        lemma_known_prefix_matches(map.prefix, left, key);
    }
    lemma_prefix_match_push(map.prefix, (left, right), key);
    assert(key.skip(left.len() as int) =~= suffix);
}

/// A record changes the answer for no key but the rewritten one, or, where the original has a
/// wildcard, for no key but those under the rewritten prefix that had no answer.
pub proof fn record_changes_no_other_key(
    map: RewriteMap,
    rewritten: Seq<char>,
    original: Seq<char>,
    key: Seq<char>,
)
    requires
        if text::has_wildcard(original) {
            map.reversed(key) is Some || !text::literal_prefix(rewritten).is_prefix_of(key)
        } else {
            key != rewritten || exact_match(map.exact, key) is Some
        },
    ensures
        map.inserted(rewritten, original).reversed(key) == map.reversed(key),
{
    let left = text::literal_prefix(rewritten);
    let right = text::literal_prefix(original);
    lemma_exact_match_push(map.exact, (rewritten, original), key);
    lemma_prefix_match_push(map.prefix, (left, right), key);
}

/// The first record of a rewritten key stays: a whole key that has an answer keeps it, whatever
/// is recorded after.
pub proof fn first_record_stays(
    map: RewriteMap,
    rewritten: Seq<char>,
    original: Seq<char>,
    key: Seq<char>,
)
    requires
        knows(map.exact, key),
    ensures
        map.inserted(rewritten, original).reversed(key) == map.reversed(key),
        knows(map.inserted(rewritten, original).exact, key),
{
    lemma_exact_match_knows(map.exact, key);
    lemma_exact_match_push(map.exact, (rewritten, original), key);
    lemma_exact_match_knows(map.inserted(rewritten, original).exact, key);
}

/// Recording the same rewrite again changes nothing.
pub proof fn second_record_changes_nothing(
    map: RewriteMap,
    rewritten: Seq<char>,
    original: Seq<char>,
)
    ensures
        map.inserted(rewritten, original).inserted(rewritten, original) == map.inserted(
            rewritten,
            original,
        ),
{
    let left = text::literal_prefix(rewritten);
    let right = text::literal_prefix(original);
    let exact = map.exact.push((rewritten, original));
    assert(exact[map.exact.len() as int].0 == rewritten);
    let prefix = map.prefix.push((left, right));
    assert(prefix[map.prefix.len() as int].0 == left);
}

/// In a well-formed table each whole key has one original: every entry with the key on its left
/// gives the answer.
pub proof fn original_is_unique(map: RewriteMap, i: int)
    requires
        map.well_formed(),
        0 <= i < map.exact.len(),
    ensures
        map.reversed(map.exact[i].0) == Some(map.exact[i].1),
{
    lemma_unique_exact_match(map.exact, i);
}

proof fn lemma_unique_exact_match(entries: Seq<Entry>, i: int)
    requires
        distinct(entries),
        0 <= i < entries.len(),
    ensures
        exact_match(entries, entries[i].0) == Some(entries[i].1),
    decreases entries.len(),
{
    if i > 0 {
        assert(entries[0].0 != entries[i].0);
        let rest = entries.drop_first();
        assert forall|a: int, b: int| 0 <= a < b < rest.len() implies (#[trigger] rest[a]).0 != (
        #[trigger] rest[b]).0 by {
            assert(rest[a] == entries[a + 1]);
            assert(rest[b] == entries[b + 1]);
        }
        lemma_unique_exact_match(rest, i - 1);
        assert(rest[i - 1] == entries[i]);
    }
}

/// A hook that puts `front` before every key is undone exactly: the key of a subscription without
/// a wildcard comes back, and so does every key under the literal part of a subscription with one.
pub proof fn prepended_text_is_removed(
    front: Seq<char>,
    original: Seq<char>,
    suffix: Seq<char>,
)
    requires
        front.len() > 0,
        !text::has_wildcard(front),
    ensures
        !text::has_wildcard(original) ==> RewriteMap::empty().inserted(
            front + original,
            original,
        ).reversed(front + original) == Some(original),
        text::has_wildcard(original) ==> RewriteMap::empty().inserted(
            front + original,
            original,
        ).reversed(front + (text::literal_prefix(original) + suffix)) == Some(
            text::literal_prefix(original) + suffix,
        ),
{
    let rewritten = front + original;
    assert(rewritten.len() != original.len());
    if !text::has_wildcard(original) {
        recorded_key_is_reversed(RewriteMap::empty(), rewritten, original);
    } else {
        text::lemma_literal_prefix_of_sum(front, original);
        let left = text::literal_prefix(rewritten);
        let right = text::literal_prefix(original);
        recorded_prefix_is_reversed(RewriteMap::empty(), rewritten, original, suffix);
        assert(left + suffix =~= front + (right + suffix));
    }
}

} // verus!
