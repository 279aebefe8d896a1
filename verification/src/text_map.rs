use vstd::prelude::*;
use crate::text::to_chars;

verus! {

/// Lexicographic order on texts, character by character; a proper prefix
/// comes first. This is the order of `String`'s `Ord`, since UTF-8 keeps the
/// order of code points.
pub open spec fn text_less(a: Seq<char>, b: Seq<char>) -> bool
    decreases a.len(),
{
    if a.len() == 0 {
        b.len() > 0
    } else if b.len() == 0 {
        false
    } else if a[0] != b[0] {
        a[0] < b[0]
    } else {
        text_less(a.skip(1), b.skip(1))
    }
}

pub proof fn lemma_text_less_irreflexive(a: Seq<char>)
    ensures
        !text_less(a, a),
    decreases a.len(),
{
    if a.len() > 0 {
        lemma_text_less_irreflexive(a.skip(1));
    }
}

pub proof fn lemma_text_less_transitive(a: Seq<char>, b: Seq<char>, c: Seq<char>)
    requires
        text_less(a, b),
        text_less(b, c),
    ensures
        text_less(a, c),
    decreases a.len(),
{
    if a.len() > 0 && b.len() > 0 && c.len() > 0 {
        if a[0] == b[0] && b[0] == c[0] {
            lemma_text_less_transitive(a.skip(1), b.skip(1), c.skip(1));
        }
    }
}

pub proof fn lemma_text_less_total(a: Seq<char>, b: Seq<char>)
    ensures
        a == b || text_less(a, b) || text_less(b, a),
    decreases a.len(),
{
    if a.len() > 0 && b.len() > 0 && a[0] == b[0] {
        lemma_text_less_total(a.skip(1), b.skip(1));
        if a.skip(1) == b.skip(1) {
            assert(a =~= seq![a[0]] + a.skip(1));
            assert(b =~= seq![b[0]] + b.skip(1));
        }
    } else if a.len() == 0 && b.len() == 0 {
        assert(a =~= b);
    }
}

/// Compare two texts: negative when `a` comes first, zero when they are the
/// same text, positive when `b` comes first.
pub fn text_order(a: &[char], b: &[char]) -> (order: i8)
    ensures
        order < 0 <==> text_less(a@, b@),
        order == 0 <==> a@ == b@,
        order > 0 <==> text_less(b@, a@),
{
    let mut i: usize = 0;
    proof {
        assert(a@.skip(0) =~= a@);
        assert(b@.skip(0) =~= b@);
    }
    while i < a.len() && i < b.len()
        invariant
            i <= a@.len(),
            i <= b@.len(),
            a@.take(i as int) == b@.take(i as int),
            text_less(a@, b@) == text_less(a@.skip(i as int), b@.skip(i as int)),
            text_less(b@, a@) == text_less(b@.skip(i as int), a@.skip(i as int)),
        decreases a.len() - i,
    {
        let x = a[i];
        let y = b[i];
        proof {
            assert(a@.skip(i as int)[0] == x);
            assert(b@.skip(i as int)[0] == y);
        }
        if x != y {
            proof {
                assert(a@[i as int] != b@[i as int]);
            }
            if x < y {
                return -1;
            } else {
                return 1;
            }
        }
        proof {
            assert(a@.skip(i as int).skip(1) =~= a@.skip(i + 1));
            assert(b@.skip(i as int).skip(1) =~= b@.skip(i + 1));
            assert(a@.take(i + 1) =~= a@.take(i as int).push(x));
            assert(b@.take(i + 1) =~= b@.take(i as int).push(y));
        }
        i += 1;
    }
    if i < b.len() {
        proof {
            assert(a@.take(i as int) =~= a@);
            assert(a@.len() != b@.len());
        }
        -1
    } else if i < a.len() {
        proof {
            assert(b@.take(i as int) =~= b@);
            assert(a@.len() != b@.len());
        }
        1
    } else {
        proof {
            assert(a@.take(i as int) =~= a@);
            assert(b@.take(i as int) =~= b@);
            lemma_text_less_irreflexive(a@);
        }
        0
    }
}

/// The keys of `s`, in order.
pub open spec fn keys_of<V>(s: Seq<(String, V)>) -> Seq<Seq<char>> {
    s.map_values(|e: (String, V)| e.0@)
}

/// The keys of `s` are in strictly increasing order.
pub open spec fn strictly_sorted<V>(s: Seq<(String, V)>) -> bool {
    forall|i: int, j: int| 0 <= i < j < s.len() ==> text_less(#[trigger] s[i].0@, #[trigger] s[j].0@)
}

/// A position of the key `k` among the entries `s`.
pub open spec fn key_index<V>(s: Seq<(String, V)>, k: Seq<char>) -> int {
    choose|i: int| 0 <= i < s.len() && s[i].0@ == k
}

/// The map that the entries `s` hold, each key to its value.
pub open spec fn entries_map<V>(s: Seq<(String, V)>) -> Map<Seq<char>, V> {
    Map::new(
        |k: Seq<char>| exists|i: int| 0 <= i < s.len() && s[i].0@ == k,
        |k: Seq<char>| s[key_index(s, k)].1,
    )
}

pub proof fn lemma_sorted_distinct<V>(s: Seq<(String, V)>, i: int, j: int)
    requires
        strictly_sorted(s),
        0 <= i < s.len(),
        0 <= j < s.len(),
        i != j,
    ensures
        s[i].0@ != s[j].0@,
{
    if i < j {
        assert(text_less(s[i].0@, s[j].0@));
        lemma_text_less_irreflexive(s[i].0@);
    } else {
        assert(text_less(s[j].0@, s[i].0@));
        lemma_text_less_irreflexive(s[j].0@);
    }
}

/// In sorted entries, the entry at `i` is what the map holds for its key.
pub proof fn lemma_entries_lookup<V>(s: Seq<(String, V)>, i: int)
    requires
        strictly_sorted(s),
        0 <= i < s.len(),
    ensures
        entries_map(s).contains_key(s[i].0@),
        entries_map(s)[s[i].0@] == s[i].1,
{
    let k = s[i].0@;
    assert(exists|j: int| 0 <= j < s.len() && s[j].0@ == k);
    let c = key_index(s, k);
    if c != i {
        lemma_sorted_distinct(s, c, i);
    }
}

/// A map from texts to values, kept as entries sorted by key, as a
/// `BTreeMap<String, V>` iterates them.
pub struct TextMap<V> {
    entries: Vec<(String, V)>,
}

impl<V> View for TextMap<V> {
    type V = Map<Seq<char>, V>;

    closed spec fn view(&self) -> Map<Seq<char>, V> {
        entries_map(self.entries@)
    }
}

impl<V> TextMap<V> {
    /// The entries in key order.
    pub closed spec fn sequence(&self) -> Seq<(String, V)> {
        self.entries@
    }

    /// The entries are sorted by key and hold exactly the map.
    pub closed spec fn wf(&self) -> bool {
        strictly_sorted(self.entries@)
    }

    pub proof fn lemma_view(&self)
        requires
            self.wf(),
        ensures
            strictly_sorted(self.sequence()),
            self@ == entries_map(self.sequence()),
            self@.dom().finite(),
            self@.len() == self.sequence().len(),
    {
        self.lemma_len();
    }

    pub fn new() -> (map: Self)
        ensures
            map.wf(),
            map@ == Map::<Seq<char>, V>::empty(),
            map.sequence().len() == 0,
    {
        let map = TextMap { entries: Vec::new() };
        proof {
            assert(map@ =~= Map::<Seq<char>, V>::empty());
        }
        map
    }

    pub fn len(&self) -> (n: usize)
        requires
            self.wf(),
        ensures
            n == self@.len(),
            n == self.sequence().len(),
    {
        proof {
            self.lemma_len();
        }
        self.entries.len()
    }

    proof fn lemma_len(&self)
        requires
            self.wf(),
        ensures
            self@.len() == self.entries@.len(),
            self@.dom() == keys_of(self.entries@).to_set(),
            self@.dom().finite(),
        decreases self.entries@.len(),
    {
        let s = self.entries@;
        let keys = keys_of(s);
        assert(self@.dom() =~= keys.to_set()) by {
            assert forall|k: Seq<char>| self@.dom().contains(k) implies keys.to_set().contains(k) by {
                let i = choose|i: int| 0 <= i < s.len() && s[i].0@ == k;
                assert(keys[i] == k);
            }
            assert forall|k: Seq<char>| keys.to_set().contains(k) implies self@.dom().contains(k) by {
                let i = choose|i: int| 0 <= i < keys.len() && keys[i] == k;
                assert(s[i].0@ == k);
            }
        }
        assert(keys.no_duplicates()) by {
            assert forall|i: int, j: int| 0 <= i < keys.len() && 0 <= j < keys.len() && i != j implies keys[i] != keys[j] by {
                lemma_sorted_distinct(s, i, j);
            }
        }
        keys.unique_seq_to_set();
        vstd::seq_lib::seq_to_set_is_finite(keys);
    }

    /// The position of `key` among the entries, or where it would go.
    fn search(&self, key: &[char]) -> (found: (usize, bool))
        requires
            self.wf(),
        ensures
            found.0 <= self.entries@.len(),
            found.1 ==> found.0 < self.entries@.len() && self.entries@[found.0 as int].0@ == key@,
            !found.1 ==> !self@.contains_key(key@),
            forall|j: int| 0 <= j < found.0 ==> text_less(#[trigger] self.entries@[j].0@, key@),
            forall|j: int| found.0 < j < self.entries@.len() ==> text_less(key@, #[trigger] self.entries@[j].0@),
            !found.1 && found.0 < self.entries@.len() ==> text_less(key@, self.entries@[found.0 as int].0@),
    {
        let n = self.entries.len();
        let mut i: usize = 0;
        while i < n
            invariant
                n == self.entries@.len(),
                i <= n,
                strictly_sorted(self.entries@),
                forall|j: int| 0 <= j < i ==> text_less(#[trigger] self.entries@[j].0@, key@),
            decreases n - i,
        {
            let stored = to_chars(self.entries[i].0.as_str());
            let order = text_order(stored.as_slice(), key);
            if order == 0 {
                proof {
                    assert forall|j: int| i < j < n implies text_less(key@, #[trigger] self.entries@[j].0@) by {
                        assert(text_less(self.entries@[i as int].0@, self.entries@[j].0@));
                    }
                }
                return (i, true);
            }
            if order > 0 {
                proof {
                    assert forall|j: int| i < j < n implies text_less(key@, #[trigger] self.entries@[j].0@) by {
                        assert(text_less(self.entries@[i as int].0@, self.entries@[j].0@));
                        lemma_text_less_transitive(key@, self.entries@[i as int].0@, self.entries@[j].0@);
                    }
                    self.lemma_absent(key@, i as int);
                }
                return (i, false);
            }
            i += 1;
        }
        proof {
            self.lemma_absent(key@, n as int);
        }
        (n, false)
    }

    proof fn lemma_absent(&self, key: Seq<char>, p: int)
        requires
            0 <= p <= self.entries@.len(),
            strictly_sorted(self.entries@),
            forall|j: int| 0 <= j < p ==> text_less(#[trigger] self.entries@[j].0@, key),
            p < self.entries@.len() ==> text_less(key, self.entries@[p].0@),
        ensures
            !self@.contains_key(key),
    {
        let s = self.entries@;
        if self@.contains_key(key) {
            let i = choose|i: int| 0 <= i < s.len() && s[i].0@ == key;
            if i < p {
                assert(text_less(s[i].0@, key));
                lemma_text_less_irreflexive(key);
            } else if i == p {
                lemma_text_less_irreflexive(key);
            } else {
                assert(text_less(s[p].0@, s[i].0@));
                lemma_text_less_transitive(key, s[p].0@, s[i].0@);
                lemma_text_less_irreflexive(key);
            }
        }
    }

    /// The value held for `key`.
    pub fn get(&self, key: &str) -> (value: Option<&V>)
        requires
            self.wf(),
        ensures
            match value {
                Some(v) => self@.contains_key(key@) && self@[key@] == *v,
                None => !self@.contains_key(key@),
            },
    {
        let chars = to_chars(key);
        let (i, found) = self.search(chars.as_slice());
        if found {
            proof {
                lemma_entries_lookup(self.entries@, i as int);
            }
            Some(&self.entries[i].1)
        } else {
            None
        }
    }

    /// Whether a value is held for `key`.
    pub fn contains_key(&self, key: &str) -> (held: bool)
        requires
            self.wf(),
        ensures
            held == self@.contains_key(key@),
    {
        let chars = to_chars(key);
        let (i, found) = self.search(chars.as_slice());
        if found {
            proof {
                lemma_entries_lookup(self.entries@, i as int);
            }
        }
        found
    }

    /// Hold `value` for `key`, returning the value it replaces.
    pub fn insert(&mut self, key: &str, value: V) -> (previous: Option<V>)
        requires
            old(self).wf(),
        ensures
            final(self).wf(),
            final(self)@ == old(self)@.insert(key@, value),
            match previous {
                Some(v) => old(self)@.contains_key(key@) && old(self)@[key@] == v,
                None => !old(self)@.contains_key(key@),
            },
    {
        let chars = to_chars(key);
        let (i, found) = self.search(chars.as_slice());
        let ghost before = self.entries@;
        if found {
            proof {
                lemma_entries_lookup(before, i as int);
            }
            let name = self.entries[i].0.clone();
            let (_, previous) = self.entries.remove(i);
            self.entries.insert(i, (name, value));
            proof {
                let after = self.entries@;
                assert(after =~= before.update(i as int, (before[i as int].0, value)));
                assert(strictly_sorted(after));
                let goal = entries_map(before).insert(key@, value);
                assert forall|k: Seq<char>|
                    #![trigger entries_map(after).dom().contains(k)]
                    #![trigger goal.dom().contains(k)]
                    (entries_map(after).dom().contains(k) == goal.dom().contains(k))
                    && (entries_map(after).dom().contains(k) ==> entries_map(after)[k] == goal[k]) by {
                    if k == key@ {
                        lemma_entries_lookup(after, i as int);
                    } else if entries_map(after).contains_key(k) {
                        let j = choose|j: int| 0 <= j < after.len() && after[j].0@ == k;
                        lemma_entries_lookup(after, j);
                        lemma_entries_lookup(before, j);
                    } else if entries_map(before).contains_key(k) {
                        let j = choose|j: int| 0 <= j < before.len() && before[j].0@ == k;
                        assert(after[j].0@ == k);
                    }
                }
                assert(entries_map(after) =~= goal);
            }
            Some(previous)
        } else {
            let mut name = String::new();
            name.append(key);
            self.entries.insert(i, (name, value));
            proof {
                let after = self.entries@;
                assert(after =~= before.insert(i as int, (name, value)));
                assert(after[i as int].0@ == key@);
                assert forall|a: int, b: int| 0 <= a < b < after.len() implies text_less(#[trigger] after[a].0@, #[trigger] after[b].0@) by {
                    if b < i {
                    } else if a < i && b == i {
                    } else if a < i && b > i {
                        assert(before[a].0@ == after[a].0@);
                        assert(before[b - 1].0@ == after[b].0@);
                        assert(text_less(before[a].0@, before[b - 1].0@));
                    } else if a == i {
                        assert(after[b].0@ == before[b - 1].0@);
                        if b - 1 > i {
                            assert(text_less(key@, before[b - 1].0@));
                        }
                    } else {
                        assert(text_less(before[a - 1].0@, before[b - 1].0@));
                    }
                }
                let goal = entries_map(before).insert(key@, value);
                assert forall|k: Seq<char>|
                    #![trigger entries_map(after).dom().contains(k)]
                    #![trigger goal.dom().contains(k)]
                    (entries_map(after).dom().contains(k) == goal.dom().contains(k))
                    && (entries_map(after).dom().contains(k) ==> entries_map(after)[k] == goal[k]) by {
                    if k == key@ {
                        lemma_entries_lookup(after, i as int);
                    } else if entries_map(after).contains_key(k) {
                        let j = choose|j: int| 0 <= j < after.len() && after[j].0@ == k;
                        lemma_entries_lookup(after, j);
                        if j < i {
                            lemma_entries_lookup(before, j);
                        } else {
                            assert(j != i);
                            assert(after[j] == before[j - 1]);
                            lemma_entries_lookup(before, j - 1);
                        }
                    } else if entries_map(before).contains_key(k) {
                        let j = choose|j: int| 0 <= j < before.len() && before[j].0@ == k;
                        if j < i {
                            assert(after[j].0@ == k);
                        } else {
                            assert(after[j + 1].0@ == k);
                        }
                    }
                }
                assert(entries_map(after) =~= goal);
            }
            None
        }
    }

    /// Stop holding a value for `key`, returning the value it held.
    pub fn remove(&mut self, key: &str) -> (previous: Option<V>)
        requires
            old(self).wf(),
        ensures
            final(self).wf(),
            final(self)@ == old(self)@.remove(key@),
            match previous {
                Some(v) => old(self)@.contains_key(key@) && old(self)@[key@] == v,
                None => !old(self)@.contains_key(key@),
            },
    {
        let chars = to_chars(key);
        let (i, found) = self.search(chars.as_slice());
        let ghost before = self.entries@;
        if !found {
            proof {
                assert(entries_map(before) =~= entries_map(before).remove(key@));
            }
            return None;
        }
        proof {
            lemma_entries_lookup(before, i as int);
        }
        let (_, previous) = self.entries.remove(i);
        proof {
            let after = self.entries@;
            assert(after =~= before.remove(i as int));
            assert forall|a: int, b: int| 0 <= a < b < after.len() implies text_less(#[trigger] after[a].0@, #[trigger] after[b].0@) by {
                if a < i && b < i {
                } else if a < i {
                    assert(after[b] == before[b + 1]);
                    assert(text_less(before[a].0@, before[b + 1].0@));
                } else {
                    assert(text_less(before[a + 1].0@, before[b + 1].0@));
                }
            }
            let goal = entries_map(before).remove(key@);
            assert forall|k: Seq<char>|
                #![trigger entries_map(after).dom().contains(k)]
                #![trigger goal.dom().contains(k)]
                (entries_map(after).dom().contains(k) == goal.dom().contains(k))
                && (entries_map(after).dom().contains(k) ==> entries_map(after)[k] == goal[k]) by {
                if entries_map(after).contains_key(k) {
                    let j = choose|j: int| 0 <= j < after.len() && after[j].0@ == k;
                    lemma_entries_lookup(after, j);
                    if j < i {
                        lemma_entries_lookup(before, j);
                        lemma_sorted_distinct(before, j, i as int);
                    } else {
                        assert(after[j] == before[j + 1]);
                        lemma_entries_lookup(before, j + 1);
                        lemma_sorted_distinct(before, j + 1, i as int);
                    }
                } else if entries_map(before).contains_key(k) && k != key@ {
                    let j = choose|j: int| 0 <= j < before.len() && before[j].0@ == k;
                    if j < i {
                        assert(after[j].0@ == k);
                    } else {
                        assert(j != i);
                        assert(after[j - 1].0@ == k);
                    }
                }
            }
            assert(entries_map(after) =~= goal);
        }
        Some(previous)
    }

    /// The entries, sorted by key.
    pub fn entries(&self) -> (entries: &[(String, V)])
        requires
            self.wf(),
        ensures
            entries@ == self.sequence(),
    {
        self.entries.as_slice()
    }
}

} // verus!
