//! A map keyed by text that keeps its keys in the order of `String`: the
//! form in which the database's maps (a record's fields, the metadata's
//! descriptions) are held.

use vstd::prelude::*;
use crate::text::{compare_text, lemma_lex_sign_antisymmetric, lemma_lex_sign_transitive,
    lemma_lex_sign_zero, same_text, text_less, utf8, TextOrder};

verus! {

/// A map keyed by text, kept sorted by key in the order of `String`, each
/// key at most once.
#[derive(Debug)]
pub struct TextMap<V> {
    entries: Vec<(String, V)>,
}

/// `key` is the key of entry `j`.
pub open spec fn key_at<V>(entries: Seq<(String, V)>, key: Seq<char>, j: int) -> bool {
    0 <= j < entries.len() && entries[j].0@ == key
}

/// Keys strictly increase along the entries.
pub open spec fn strictly_sorted<V>(entries: Seq<(String, V)>) -> bool {
    forall|i: int, j: int|
        0 <= i < j < entries.len() ==> text_less(#[trigger] entries[i].0@, #[trigger] entries[j].0@)
}

/// The map that a sequence of entries with distinct keys stands for.
pub open spec fn entries_map<V>(entries: Seq<(String, V)>) -> Map<Seq<char>, V> {
    Map::new(
        |k: Seq<char>| exists|j: int| key_at(entries, k, j),
        |k: Seq<char>| entries[choose|j: int| key_at(entries, k, j)].1,
    )
}

impl<V> TextMap<V> {
    #[verifier::type_invariant]
    spec fn sorted(self) -> bool {
        strictly_sorted(self.entries@)
    }

    /// The entries in key order.
    pub closed spec fn entry_seq(self) -> Seq<(String, V)> {
        self.entries@
    }

    /// The keys in the order in which they are kept.
    pub open spec fn keys(self) -> Seq<Seq<char>> {
        self.entry_seq().map_values(|e: (String, V)| e.0@)
    }

    /// An empty map.
    pub fn new() -> (m: TextMap<V>)
        ensures
            m@ == Map::<Seq<char>, V>::empty(),
            m.entry_seq().len() == 0,
    {
        let m = TextMap { entries: Vec::new() };
        assert(m@ =~= Map::<Seq<char>, V>::empty());
        m
    }

    /// Number of fields.
    pub fn len(&self) -> (n: usize)
        ensures
            n == self.entry_seq().len(),
            self@ == entries_map(self.entry_seq()),
            strictly_sorted(self.entry_seq()),
    {
        proof {
            use_type_invariant(self);
        }
        self.entries.len()
    }

    /// The fields in key order, as `(key, value)` pairs.
    pub fn entries(&self) -> (e: &Vec<(String, V)>)
        ensures
            e@ == self.entry_seq(),
            strictly_sorted(e@),
            self@ == entries_map(e@),
    {
        proof {
            use_type_invariant(self);
        }
        &self.entries
    }

    /// The value stored under `key`, if any.
    pub fn get(&self, key: &str) -> (r: Option<&V>)
        ensures
            r is Some <==> self@.contains_key(key@),
            r matches Some(v) ==> *v == self@[key@],
    {
        proof {
            use_type_invariant(self);
        }
        let n = self.entries.len();
        let mut i: usize = 0;
        while i < n
            invariant
                n == self.entries@.len(),
                i <= n,
                strictly_sorted(self.entries@),
                forall|j: int| 0 <= j < i ==> !key_at(self.entries@, key@, j),
            decreases n - i,
        {
            if same_text(self.entries[i].0.as_str(), key) {
                proof {
                    lemma_unique_key(self.entries@, key@, i as int);
                }
                return Some(&self.entries[i].1);
            }
            i = i + 1;
        }
        None
    }

    /// Gives up the map for the value stored under `key`, if any.
    pub fn take(self, key: &str) -> (r: Option<V>)
        ensures
            r == (if self@.contains_key(key@) {
                Some(self@[key@])
            } else {
                None
            }),
    {
        proof {
            use_type_invariant(&self);
        }
        let ghost view = self@;
        let TextMap { entries } = self;
        let mut entries = entries;
        let n = entries.len();
        let mut i: usize = 0;
        while i < n
            invariant
                n == entries@.len(),
                i <= n,
                strictly_sorted(entries@),
                view == entries_map(entries@),
                view == self@,
                forall|j: int| 0 <= j < i ==> !key_at(entries@, key@, j),
            decreases n - i,
        {
            if same_text(entries[i].0.as_str(), key) {
                proof {
                    lemma_unique_key(entries@, key@, i as int);
                }
                let ghost before = entries@;
                let (_, found) = entries.swap_remove(i);
                assert(found == before[i as int].1);
                assert(view[key@] == found);
                return Some(found);
            }
            i = i + 1;
        }
        None
    }

    /// Stores `value` under `key`, replacing what was there; keys stay sorted.
    pub fn insert(&mut self, key: String, value: V)
        ensures
            final(self)@ == old(self)@.insert(key@, value),
    {
        proof {
            use_type_invariant(&*self);
        }
        let ghost e0 = self.entries@;
        let n = self.entries.len();
        let mut i: usize = 0;
        let mut place = TextOrder::After;
        while i < n && place == TextOrder::After
            invariant
                n == self.entries@.len(),
                self.entries@ == e0,
                strictly_sorted(e0),
                i <= n,
                forall|j: int| 0 <= j < i ==> text_less(#[trigger] e0[j].0@, key@),
                place != TextOrder::After ==> i < n,
                place == TextOrder::Same ==> e0[i as int].0@ == key@,
                place == TextOrder::Before ==> text_less(key@, e0[i as int].0@),
            decreases n - i + (if place == TextOrder::After { 1int } else { 0int }),
        {
            let o = compare_text(key.as_str(), self.entries[i].0.as_str());
            if o == TextOrder::Before {
                place = TextOrder::Before;
            } else if o == TextOrder::Same {
                place = TextOrder::Same;
            } else {
                proof {
                    lemma_lex_sign_antisymmetric(utf8(key@), utf8(e0[i as int].0@));
                }
                i = i + 1;
            }
        }
        let ghost k = key@;
        let mut entries: Vec<(String, V)> = Vec::new();
        std::mem::swap(&mut entries, &mut self.entries);
        if place == TextOrder::Same {
            entries.set(i, (key, value));
            proof {
                let e1 = entries@;
                assert(e1 == e0.update(i as int, (e1[i as int].0, value)));
                assert(strictly_sorted(e1)) by {
                    assert forall|a: int, b: int| 0 <= a < b < e1.len() implies text_less(
                        #[trigger] e1[a].0@,
                        #[trigger] e1[b].0@,
                    ) by {
                        assert(text_less(e0[a].0@, e0[b].0@));
                    }
                }
                lemma_entries_map_update(e0, entries@, k, value, i as int, true);
            }
        } else {
            entries.insert(i, (key, value));
            proof {
                let e1 = entries@;
                assert(strictly_sorted(e1)) by {
                    assert forall|a: int, b: int| 0 <= a < b < e1.len() implies text_less(
                        #[trigger] e1[a].0@,
                        #[trigger] e1[b].0@,
                    ) by {
                        if b < i {
                            assert(text_less(e0[a].0@, e0[b].0@));
                        } else if b == i {
                            assert(text_less(e0[a].0@, k));
                        } else if a == i {
                            if b - 1 > i {
                                assert(text_less(e0[i as int].0@, e0[b - 1].0@));
                                lemma_lex_sign_transitive(
                                    utf8(k),
                                    utf8(e0[i as int].0@),
                                    utf8(e0[b - 1].0@),
                                );
                            }
                        } else if a < i {
                            assert(text_less(e0[a].0@, k));
                            if b - 1 > i {
                                assert(text_less(e0[i as int].0@, e0[b - 1].0@));
                                lemma_lex_sign_transitive(
                                    utf8(k),
                                    utf8(e0[i as int].0@),
                                    utf8(e0[b - 1].0@),
                                );
                            }
                            lemma_lex_sign_transitive(utf8(e0[a].0@), utf8(k), utf8(e0[b - 1].0@));
                        } else {
                            assert(text_less(e0[a - 1].0@, e0[b - 1].0@));
                        }
                    }
                }
                lemma_entries_map_update(e0, entries@, k, value, i as int, false);
            }
        }
        self.entries = entries;
    }
}

/// In sorted entries, the entry holding a key is the one the map view picks.
pub proof fn lemma_unique_key<V>(e: Seq<(String, V)>, key: Seq<char>, j: int)
    requires
        strictly_sorted(e),
        key_at(e, key, j),
    ensures
        entries_map(e).contains_key(key),
        entries_map(e)[key] == e[j].1,
{
    let c = choose|m: int| key_at(e, key, m);
    assert(key_at(e, key, c));
    if c != j {
        lemma_distinct_keys(e, c, j);
    }
}

/// How the map view changes when sorted entries change by one replacement
/// or one insertion at index `i`.
pub proof fn lemma_entries_map_update<V>(
    e0: Seq<(String, V)>,
    e1: Seq<(String, V)>,
    k: Seq<char>,
    value: V,
    i: int,
    replaced: bool,
)
    requires
        strictly_sorted(e0),
        strictly_sorted(e1),
        0 <= i <= e0.len(),
        replaced ==> i < e0.len() && e1 == e0.update(i, (e1[i].0, value)) && e0[i].0@ == k
            && e1[i].0@ == k,
        !replaced ==> e1.len() == e0.len() + 1 && e1[i].0@ == k && e1[i].1 == value && (forall|
            j: int,
        | 0 <= j < i ==> e1[j] == e0[j]) && (forall|j: int| i < j < e1.len() ==> e1[j] == e0[j - 1]),
    ensures
        entries_map(e1) == entries_map(e0).insert(k, value),
{
    let m0 = entries_map(e0);
    let m1 = entries_map(e1);
    assert(key_at(e1, k, i));
    lemma_unique_key(e1, k, i);
    assert forall|q: Seq<char>| #[trigger] m1.contains_key(q) == (q == k || m0.contains_key(q)) by {
        if q != k {
            if m0.contains_key(q) {
                let j = choose|j: int| key_at(e0, q, j);
                if replaced {
                    assert(key_at(e1, q, j));
                } else if j < i {
                    assert(key_at(e1, q, j));
                } else {
                    assert(key_at(e1, q, j + 1));
                }
            }
            if m1.contains_key(q) {
                let j = choose|j: int| key_at(e1, q, j);
                if replaced {
                    assert(key_at(e0, q, j));
                } else if j < i {
                    assert(key_at(e0, q, j));
                } else {
                    assert(j != i);
                    assert(key_at(e0, q, j - 1));
                }
            }
        }
    }
    assert forall|q: Seq<char>| m1.contains_key(q) && q != k implies #[trigger] m1[q] == m0[q] by {
        let j = choose|j: int| key_at(e1, q, j);
        lemma_unique_key(e1, q, j);
        let j0 = if replaced || j < i { j } else { j - 1 };
        assert(j != i);
        assert(key_at(e0, q, j0));
        lemma_unique_key(e0, q, j0);
    }
    assert(m1 =~= m0.insert(k, value));
}

/// In strictly sorted entries, distinct positions hold distinct keys.
pub proof fn lemma_distinct_keys<V>(e: Seq<(String, V)>, a: int, b: int)
    requires
        strictly_sorted(e),
        0 <= a < e.len(),
        0 <= b < e.len(),
        a != b,
    ensures
        e[a].0@ != e[b].0@,
{
    if a < b {
        assert(text_less(e[a].0@, e[b].0@));
    } else {
        assert(text_less(e[b].0@, e[a].0@));
    }
    lemma_lex_sign_zero(utf8(e[a].0@), utf8(e[b].0@));
}

impl<V> View for TextMap<V> {
    type V = Map<Seq<char>, V>;

    closed spec fn view(&self) -> Map<Seq<char>, V> {
        entries_map(self.entries@)
    }
}

} // verus!
