//! A build's image labels: string keys to string values, kept in key order so
//! that what the bridge is handed lists them ascending, as a `BTreeMap` would.

use vstd::prelude::*;
use vstd::string::{StrSliceExecFns, StringExecFns};

verus! {

/// Strict lexicographic order on strings, character by character, a proper
/// prefix coming first. For UTF-8 this is the order of `String`'s `Ord`.
pub open spec fn precedes(a: Seq<char>, b: Seq<char>) -> bool
    decreases a.len(),
{
    if a.len() == 0 {
        b.len() > 0
    } else if b.len() == 0 {
        false
    } else if a[0] != b[0] {
        a[0] < b[0]
    } else {
        precedes(a.drop_first(), b.drop_first())
    }
}

/// Nothing precedes itself.
pub proof fn lemma_precedes_irreflexive(a: Seq<char>)
    ensures
        !precedes(a, a),
    decreases a.len(),
{
    if a.len() > 0 {
        lemma_precedes_irreflexive(a.drop_first());
    }
}

/// The order is transitive.
pub proof fn lemma_precedes_transitive(a: Seq<char>, b: Seq<char>, c: Seq<char>)
    requires
        precedes(a, b),
        precedes(b, c),
    ensures
        precedes(a, c),
    decreases a.len(),
{
    if a.len() > 0 && b.len() > 0 && c.len() > 0 && a[0] == b[0] && b[0] == c[0] {
        lemma_precedes_transitive(a.drop_first(), b.drop_first(), c.drop_first());
    }
}

/// Of two different strings, one precedes the other.
pub proof fn lemma_precedes_total(a: Seq<char>, b: Seq<char>)
    requires
        a != b,
    ensures
        precedes(a, b) || precedes(b, a),
    decreases a.len(),
{
    if a.len() == 0 {
        assert(b.len() > 0) by {
            if b.len() == 0 {
                assert(a =~= b);
            }
        }
    } else if b.len() == 0 {
    } else if a[0] != b[0] {
    } else {
        assert(a.drop_first() != b.drop_first()) by {
            if a.drop_first() == b.drop_first() {
                assert(a =~= seq![a[0]] + a.drop_first());
                assert(b =~= seq![b[0]] + b.drop_first());
            }
        }
        lemma_precedes_total(a.drop_first(), b.drop_first());
    }
}

/// Whether `a` precedes `b` in [`precedes`] order.
pub fn precedes_text(a: &str, b: &str) -> (before: bool)
    ensures
        before == precedes(a@, b@),
{
    let a_len = a.unicode_len();
    let b_len = b.unicode_len();
    let mut i: usize = 0;
    assert(a@.skip(0) =~= a@ && b@.skip(0) =~= b@);
    while i < a_len && i < b_len
        invariant
            a_len == a@.len(),
            b_len == b@.len(),
            i <= a_len,
            i <= b_len,
            precedes(a@, b@) == precedes(a@.skip(i as int), b@.skip(i as int)),
        decreases a_len - i,
    {
        let x = a.get_char(i);
        let y = b.get_char(i);
        assert(a@.skip(i as int)[0] == x && b@.skip(i as int)[0] == y);
        if x != y {
            return x < y;
        }
        assert(a@.skip(i as int).drop_first() =~= a@.skip(i + 1));
        assert(b@.skip(i as int).drop_first() =~= b@.skip(i + 1));
        i += 1;
    }
    a_len < b_len
}

/// Strings strictly ascending, so none occurs twice.
pub open spec fn ascending_keys(keys: Seq<Seq<char>>) -> bool {
    forall|i: int, j: int| 0 <= i < j < keys.len() ==> precedes(#[trigger] keys[i], #[trigger] keys[j])
}

/// Keys strictly ascending, so no key occurs twice.
pub open spec fn ascending(pairs: Seq<(Seq<char>, Seq<char>)>) -> bool {
    forall|i: int, j: int| 0 <= i < j < pairs.len() ==> precedes(#[trigger] pairs[i].0, #[trigger] pairs[j].0)
}

/// Whether some pair has this key.
pub open spec fn has_key(pairs: Seq<(Seq<char>, Seq<char>)>, key: Seq<char>) -> bool {
    exists|i: int| 0 <= i < pairs.len() && (#[trigger] pairs[i]).0 == key
}

/// A place whose pair has `key`, where there is one.
pub open spec fn key_index(pairs: Seq<(Seq<char>, Seq<char>)>, key: Seq<char>) -> int {
    choose|i: int| 0 <= i < pairs.len() && (#[trigger] pairs[i]).0 == key
}

/// The value paired with `key`, if any pair has it.
pub open spec fn lookup(pairs: Seq<(Seq<char>, Seq<char>)>, key: Seq<char>) -> Option<Seq<char>> {
    if has_key(pairs, key) {
        Some(pairs[key_index(pairs, key)].1)
    } else {
        None
    }
}

/// In ascending pairs, the value at a key's place is the value looked up.
pub proof fn lemma_lookup_at(pairs: Seq<(Seq<char>, Seq<char>)>, i: int)
    requires
        ascending(pairs),
        0 <= i < pairs.len(),
    ensures
        lookup(pairs, pairs[i].0) == Some(pairs[i].1),
{
    let key = pairs[i].0;
    assert(has_key(pairs, key));
    let j = key_index(pairs, key);
    if j != i {
        lemma_precedes_irreflexive(key);
        if j < i {
            assert(precedes(pairs[j].0, pairs[i].0));
        } else {
            assert(precedes(pairs[i].0, pairs[j].0));
        }
    }
}

/// Replacing the value at a key's place keeps the keys ascending and changes only that key's value.
proof fn lemma_replace(pairs: Seq<(Seq<char>, Seq<char>)>, i: int, value: Seq<char>)
    requires
        ascending(pairs),
        0 <= i < pairs.len(),
    ensures
        ascending(pairs.update(i, (pairs[i].0, value))),
        lookup(pairs.update(i, (pairs[i].0, value)), pairs[i].0) == Some(value),
        forall|k: Seq<char>| k != pairs[i].0 ==> #[trigger] lookup(pairs.update(i, (pairs[i].0, value)), k) == lookup(pairs, k),
        has_key(pairs, pairs[i].0),
{
    let key = pairs[i].0;
    let next = pairs.update(i, (key, value));
    assert(ascending(next)) by {
        assert forall|a: int, b: int| 0 <= a < b < next.len() implies precedes(#[trigger] next[a].0, #[trigger] next[b].0) by {
            assert(next[a].0 == pairs[a].0 && next[b].0 == pairs[b].0);
            assert(precedes(pairs[a].0, pairs[b].0));
        }
    }
    assert(next[i] == (key, value));
    lemma_lookup_at(next, i);
    assert(pairs[i].0 == key);
    assert forall|k: Seq<char>| k != key implies #[trigger] lookup(next, k) == lookup(pairs, k) by {
        if has_key(pairs, k) {
            let j = choose|j: int| 0 <= j < pairs.len() && (#[trigger] pairs[j]).0 == k;
            assert(next[j] == pairs[j]);
            lemma_lookup_at(pairs, j);
            lemma_lookup_at(next, j);
        } else {
            assert(!has_key(next, k)) by {
                if has_key(next, k) {
                    let j = choose|j: int| 0 <= j < next.len() && (#[trigger] next[j]).0 == k;
                    assert(next[j].0 == pairs[j].0);
                    assert(pairs[j].0 == k);
                }
            }
        }
    }
}

/// Inserting a key at the place where it belongs keeps the keys ascending and adds just that key.
proof fn lemma_insert(pairs: Seq<(Seq<char>, Seq<char>)>, i: int, key: Seq<char>, value: Seq<char>)
    requires
        ascending(pairs),
        0 <= i <= pairs.len(),
        forall|k: int| 0 <= k < i ==> precedes((#[trigger] pairs[k]).0, key),
        i < pairs.len() ==> precedes(key, pairs[i].0),
    ensures
        ascending(pairs.insert(i, (key, value))),
        lookup(pairs.insert(i, (key, value)), key) == Some(value),
        forall|k: Seq<char>| k != key ==> #[trigger] lookup(pairs.insert(i, (key, value)), k) == lookup(pairs, k),
        !has_key(pairs, key),
{
    let next = pairs.insert(i, (key, value));
    assert forall|j: int| i <= j < pairs.len() implies precedes(key, #[trigger] pairs[j].0) by {
        if j > i {
            assert(precedes(pairs[i].0, pairs[j].0));
            lemma_precedes_transitive(key, pairs[i].0, pairs[j].0);
        }
    }
    assert(ascending(next)) by {
        assert forall|a: int, b: int| 0 <= a < b < next.len() implies precedes(#[trigger] next[a].0, #[trigger] next[b].0) by {
            if b < i {
                assert(next[a] == pairs[a] && next[b] == pairs[b]);
                assert(precedes(pairs[a].0, pairs[b].0));
            } else if b == i {
                assert(next[a] == pairs[a]);
                assert(precedes(pairs[a].0, key));
            } else if a < i {
                assert(next[a] == pairs[a] && next[b] == pairs[b - 1]);
                assert(precedes(pairs[a].0, key));
                assert(precedes(key, pairs[b - 1].0));
                lemma_precedes_transitive(pairs[a].0, key, pairs[b - 1].0);
            } else if a == i {
                assert(next[b] == pairs[b - 1]);
                assert(precedes(key, pairs[b - 1].0));
            } else {
                assert(next[a] == pairs[a - 1] && next[b] == pairs[b - 1]);
                assert(precedes(pairs[a - 1].0, pairs[b - 1].0));
            }
        }
    }
    assert(next[i] == (key, value));
    lemma_lookup_at(next, i);
    lemma_precedes_irreflexive(key);
    assert(!has_key(pairs, key)) by {
        if has_key(pairs, key) {
            let j = choose|j: int| 0 <= j < pairs.len() && (#[trigger] pairs[j]).0 == key;
            if j < i {
                assert(precedes(pairs[j].0, key));
            } else {
                assert(precedes(key, pairs[j].0));
            }
        }
    }
    assert forall|k: Seq<char>| k != key implies #[trigger] lookup(next, k) == lookup(pairs, k) by {
        if has_key(pairs, k) {
            let j = choose|j: int| 0 <= j < pairs.len() && (#[trigger] pairs[j]).0 == k;
            lemma_lookup_at(pairs, j);
            if j < i {
                assert(next[j] == pairs[j]);
                lemma_lookup_at(next, j);
            } else {
                assert(next[j + 1] == pairs[j]);
                lemma_lookup_at(next, j + 1);
            }
        } else {
            assert(!has_key(next, k)) by {
                if has_key(next, k) {
                    let j = choose|j: int| 0 <= j < next.len() && (#[trigger] next[j]).0 == k;
                    if j < i {
                        assert(next[j] == pairs[j]);
                    } else if j > i {
                        assert(next[j] == pairs[j - 1]);
                    }
                }
            }
        }
    }
}

/// Image labels: each key once, in ascending order.
#[derive(Debug, PartialEq, Eq)]
pub struct Labels {
    entries: Vec<(String, String)>,
}

impl Labels {
    /// The labels as key and value pairs, in the order they are kept.
    pub closed spec fn pairs(self) -> Seq<(Seq<char>, Seq<char>)> {
        self.entries@.map_values(|e: (String, String)| (e.0@, e.1@))
    }

    #[verifier::type_invariant]
    closed spec fn keys_ascend(self) -> bool {
        ascending(self.pairs())
    }

    /// No labels.
    pub fn new() -> (labels: Labels)
        ensures
            labels.pairs() == Seq::<(Seq<char>, Seq<char>)>::empty(),
    {
        let labels = Labels { entries: Vec::new() };
        assert(labels.pairs() =~= Seq::<(Seq<char>, Seq<char>)>::empty());
        labels
    }

    /// The pairs, ascending by key.
    pub fn entries(&self) -> (entries: &Vec<(String, String)>)
        ensures
            entries@.map_values(|e: (String, String)| (e.0@, e.1@)) == self.pairs(),
            ascending(self.pairs()),
    {
        proof {
            use_type_invariant(self);
        }
        &self.entries
    }

    /// How many labels there are.
    pub fn len(&self) -> (n: usize)
        ensures
            n == self.pairs().len(),
    {
        self.entries.len()
    }

    /// The value of `key`, if it is set.
    pub fn get(&self, key: &str) -> (value: Option<&String>)
        ensures
            match value {
                Some(v) => lookup(self.pairs(), key@) == Some(v@),
                None => lookup(self.pairs(), key@) is None,
            },
    {
        proof {
            use_type_invariant(self);
        }
        let ghost pairs = self.pairs();
        let wanted = String::from_str(key);
        let mut i: usize = 0;
        while i < self.entries.len()
            invariant
                i <= self.entries.len(),
                pairs == self.pairs(),
                ascending(pairs),
                wanted@ == key@,
                pairs.len() == self.entries@.len(),
                forall|k: int| 0 <= k < i ==> (#[trigger] pairs[k]).0 != key@,
            decreases self.entries.len() - i,
        {
            let entry = &self.entries[i];
            assert(pairs[i as int] == (entry.0@, entry.1@));
            if entry.0 == wanted {
                proof {
                    lemma_lookup_at(pairs, i as int);
                }
                return Some(&entry.1);
            }
            i += 1;
        }
        proof {
            assert(!has_key(pairs, key@));
        }
        None
    }

    /// Sets `key` to `value`, replacing the value it had; every other key keeps its own.
    pub fn insert(&mut self, key: String, value: String)
        ensures
            lookup(final(self).pairs(), key@) == Some(value@),
            forall|k: Seq<char>| k != key@ ==> #[trigger] lookup(final(self).pairs(), k) == lookup(old(self).pairs(), k),
            final(self).pairs().len() == old(self).pairs().len() + (if has_key(old(self).pairs(), key@) { 0int } else { 1int }),
    {
        proof {
            use_type_invariant(&*self);
        }
        let ghost old_pairs = self.pairs();
        let mut entries: Vec<(String, String)> = Vec::new();
        std::mem::swap(&mut entries, &mut self.entries);
        assert(entries@.map_values(|e: (String, String)| (e.0@, e.1@)) == old_pairs);
        let mut i: usize = 0;
        while i < entries.len() && precedes_text(entries[i].0.as_str(), key.as_str())
            invariant
                i <= entries.len(),
                old_pairs == entries@.map_values(|e: (String, String)| (e.0@, e.1@)),
                ascending(old_pairs),
                forall|k: int| 0 <= k < i ==> precedes((#[trigger] old_pairs[k]).0, key@),
            decreases entries.len() - i,
        {
            i += 1;
        }
        // Every key before `i` precedes `key`; the key at `i`, if any, does not.
        let same = i < entries.len() && !precedes_text(key.as_str(), entries[i].0.as_str());
        let ghost new_pairs;
        if same {
            proof {
                let found = old_pairs[i as int].0;
                assert(!precedes(found, key@));
                if found != key@ {
                    lemma_precedes_total(found, key@);
                }
            }
            let ghost found = old_pairs[i as int].0;
            entries.set(i, (key, value));
            proof {
                new_pairs = old_pairs.update(i as int, (key@, value@));
                lemma_replace(old_pairs, i as int, value@);
                assert(found == key@);
            }
        } else {
            proof {
                if i < entries.len() {
                    assert(precedes(key@, old_pairs[i as int].0));
                }
            }
            entries.insert(i, (key, value));
            proof {
                new_pairs = old_pairs.insert(i as int, (key@, value@));
                lemma_insert(old_pairs, i as int, key@, value@);
            }
        }
        proof {
            assert(entries@.map_values(|e: (String, String)| (e.0@, e.1@)) =~= new_pairs);
        }
        self.entries = entries;
    }
}

impl Clone for Labels {
    fn clone(&self) -> (copy: Self)
        ensures
            copy.pairs() == self.pairs(),
    {
        proof {
            use_type_invariant(self);
        }
        let ghost pairs = self.pairs();
        let mut entries: Vec<(String, String)> = Vec::new();
        let mut i: usize = 0;
        while i < self.entries.len()
            invariant
                i <= self.entries.len(),
                pairs == self.pairs(),
                ascending(pairs),
                entries@.map_values(|e: (String, String)| (e.0@, e.1@)) =~= pairs.take(i as int),
            decreases self.entries.len() - i,
        {
            let entry = &self.entries[i];
            assert(pairs[i as int] == (entry.0@, entry.1@));
            let key = entry.0.clone();
            let value = entry.1.clone();
            let ghost before = entries@;
            entries.push((key, value));
            assert(entries@ == before.push((key, value)));
            assert(entries@.map_values(|e: (String, String)| (e.0@, e.1@)) =~= before.map_values(|e: (String, String)| (e.0@, e.1@)).push((key@, value@)));
            assert(pairs.take(i + 1) =~= pairs.take(i as int).push(pairs[i as int]));
            i += 1;
        }
        assert(pairs.take(i as int) =~= pairs);
        Labels { entries }
    }
}

} // verus!
