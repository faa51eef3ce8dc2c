//! A map keyed by strings that keeps its entries in lexical key order.
//!
//! Lexical order of characters is also the byte order of their UTF-8
//! encodings, so iteration follows the order of `String`'s `Ord`.
//!
//! vstd specifies `BTreeMap` only for keys whose comparison obeys its order
//! laws, which it establishes for integers and not for `String`; the map is
//! therefore a sorted vector whose order and key uniqueness are proved here.

use vstd::prelude::*;
use crate::text::chars_of;

verus! {

/// Lexical order of character sequences: a proper prefix comes first,
/// otherwise the first differing character decides.
pub open spec fn key_lt(a: Seq<char>, b: Seq<char>) -> bool
    decreases a.len(),
{
    if b.len() == 0 {
        false
    } else if a.len() == 0 {
        true
    } else if a[0] != b[0] {
        a[0] < b[0]
    } else {
        key_lt(a.drop_first(), b.drop_first())
    }
}

/// No key comes before itself.
pub proof fn lemma_key_lt_irreflexive(a: Seq<char>)
    ensures
        !key_lt(a, a),
    decreases a.len(),
{
    if a.len() > 0 {
        lemma_key_lt_irreflexive(a.drop_first());
    }
}

/// The lexical order is transitive.
pub proof fn lemma_key_lt_transitive(a: Seq<char>, b: Seq<char>, c: Seq<char>)
    requires
        key_lt(a, b),
        key_lt(b, c),
    ensures
        key_lt(a, c),
    decreases a.len(),
{
    if a.len() > 0 && a[0] == b[0] && b[0] == c[0] {
        lemma_key_lt_transitive(a.drop_first(), b.drop_first(), c.drop_first());
    }
}

/// Any two different keys are ordered one way or the other.
pub proof fn lemma_key_lt_total(a: Seq<char>, b: Seq<char>)
    ensures
        a != b ==> key_lt(a, b) || key_lt(b, a),
    decreases a.len(),
{
    if a.len() > 0 && b.len() > 0 && a[0] == b[0] {
        lemma_key_lt_total(a.drop_first(), b.drop_first());
        if a.drop_first() == b.drop_first() {
            assert(a =~= seq![a[0]] + a.drop_first());
            assert(b =~= seq![b[0]] + b.drop_first());
        }
    } else if a.len() == 0 && b.len() == 0 {
        assert(a =~= b);
    }
}

/// Whether `a` comes strictly before `b` in lexical order.
pub fn key_less(a: &[char], b: &[char]) -> (r: bool)
    ensures
        r == key_lt(a@, b@),
{
    let mut k: usize = 0;
    assert(a@.skip(0) =~= a@);
    assert(b@.skip(0) =~= b@);
    loop
        invariant
            k <= a@.len(),
            k <= b@.len(),
            key_lt(a@, b@) == key_lt(a@.skip(k as int), b@.skip(k as int)),
        decreases a@.len() - k,
    {
        if k == b.len() {
            return false;
        }
        if k == a.len() {
            return true;
        }
        if a[k] != b[k] {
            return a[k] < b[k];
        }
        assert(a@.skip(k as int).drop_first() =~= a@.skip(k + 1));
        assert(b@.skip(k as int).drop_first() =~= b@.skip(k + 1));
        k = k + 1;
    }
}

/// Entries whose keys strictly increase.
pub open spec fn sorted_pairs<V>(s: Seq<(Seq<char>, V)>) -> bool {
    forall|i: int, j: int| 0 <= i < j < s.len() ==> key_lt(#[trigger] s[i].0, #[trigger] s[j].0)
}

/// Entries whose keys are pairwise different.
pub open spec fn unique_keys<V>(s: Seq<(Seq<char>, V)>) -> bool {
    forall|i: int, j: int| 0 <= i < s.len() && 0 <= j < s.len() && i != j ==> #[trigger] s[i].0 != #[trigger] s[j].0
}

/// The map that a list of entries describes, a later entry overriding an earlier one.
pub open spec fn pairs_map<V>(s: Seq<(Seq<char>, V)>) -> Map<Seq<char>, V>
    decreases s.len(),
{
    if s.len() == 0 {
        Map::empty()
    } else {
        pairs_map(s.drop_last()).insert(s.last().0, s.last().1)
    }
}

/// Sorted entries have unique keys.
pub proof fn lemma_sorted_unique<V>(s: Seq<(Seq<char>, V)>)
    requires
        sorted_pairs(s),
    ensures
        unique_keys(s),
{
    assert forall|i: int, j: int| 0 <= i < s.len() && 0 <= j < s.len() && i != j implies #[trigger] s[i].0 != #[trigger] s[j].0 by {
        if i < j {
            lemma_key_lt_irreflexive(s[i].0);
        } else {
            lemma_key_lt_irreflexive(s[j].0);
        }
    }
}

/// With unique keys, the map holds exactly the listed entries, and as many keys as entries.
pub proof fn lemma_unique_map<V>(s: Seq<(Seq<char>, V)>)
    requires
        unique_keys(s),
    ensures
        forall|i: int| 0 <= i < s.len() ==> #[trigger] pairs_map(s).contains_key(s[i].0) && pairs_map(s)[s[i].0] == s[i].1,
        forall|k: Seq<char>| #[trigger] pairs_map(s).contains_key(k) ==> exists|i: int| 0 <= i < s.len() && s[i].0 == k,
        pairs_map(s).dom().finite(),
        pairs_map(s).dom().len() == s.len(),
    decreases s.len(),
{
    if s.len() > 0 {
        let t = s.drop_last();
        assert forall|i: int, j: int| 0 <= i < t.len() && 0 <= j < t.len() && i != j implies #[trigger] t[i].0 != #[trigger] t[j].0 by {
            assert(s[i].0 != s[j].0);
        }
        lemma_unique_map(t);
        let last = s.last();
        assert(!pairs_map(t).contains_key(last.0)) by {
            if pairs_map(t).contains_key(last.0) {
                let i = choose|i: int| 0 <= i < t.len() && t[i].0 == last.0;
                assert(s[i].0 == s[s.len() - 1].0);
            }
        }
        assert forall|i: int| 0 <= i < s.len() implies #[trigger] pairs_map(s).contains_key(s[i].0) && pairs_map(s)[s[i].0] == s[i].1 by {
            if i < s.len() - 1 {
                assert(t[i] == s[i]);
                assert(s[i].0 != s[s.len() - 1].0);
            }
        }
        assert forall|k: Seq<char>| #[trigger] pairs_map(s).contains_key(k) implies exists|i: int| 0 <= i < s.len() && s[i].0 == k by {
            if k == last.0 {
                assert(s[s.len() - 1].0 == k);
            } else {
                assert(pairs_map(t).contains_key(k));
                let i = choose|i: int| 0 <= i < t.len() && t[i].0 == k;
                assert(s[i].0 == k);
            }
        }
    }
}

/// Sorted entries are determined by the map they describe.
pub proof fn lemma_sorted_determined<V>(s1: Seq<(Seq<char>, V)>, s2: Seq<(Seq<char>, V)>)
    requires
        sorted_pairs(s1),
        sorted_pairs(s2),
        pairs_map(s1) == pairs_map(s2),
    ensures
        s1 == s2,
    decreases s1.len(),
{
    lemma_sorted_unique(s1);
    lemma_sorted_unique(s2);
    lemma_unique_map(s1);
    lemma_unique_map(s2);
    assert(s1.len() == s2.len());
    if s1.len() == 0 {
        assert(s1 =~= s2);
    } else {
        let n = s1.len() - 1;
        let a = s1[n].0;
        let b = s2[n].0;
        assert(pairs_map(s1).contains_key(a));
        assert(pairs_map(s2).contains_key(b));
        let j = choose|j: int| 0 <= j < s2.len() && s2[j].0 == a;
        let i = choose|i: int| 0 <= i < s1.len() && s1[i].0 == b;
        if a != b {
            assert(j != n);
            assert(i != n);
            assert(key_lt(s2[j].0, s2[n].0));
            assert(key_lt(s1[i].0, s1[n].0));
            lemma_key_lt_transitive(a, b, a);
            lemma_key_lt_irreflexive(a);
        }
        assert(s1[n].1 == pairs_map(s1)[a]);
        assert(s2[n].1 == pairs_map(s2)[a]);
        let t1 = s1.drop_last();
        let t2 = s2.drop_last();
        assert(sorted_pairs(t1)) by {
            assert forall|x: int, y: int| 0 <= x < y < t1.len() implies key_lt(#[trigger] t1[x].0, #[trigger] t1[y].0) by {
                assert(t1[x] == s1[x] && t1[y] == s1[y]);
            }
        }
        assert(sorted_pairs(t2)) by {
            assert forall|x: int, y: int| 0 <= x < y < t2.len() implies key_lt(#[trigger] t2[x].0, #[trigger] t2[y].0) by {
                assert(t2[x] == s2[x] && t2[y] == s2[y]);
            }
        }
        lemma_sorted_unique(t1);
        lemma_sorted_unique(t2);
        lemma_unique_map(t1);
        lemma_unique_map(t2);
        assert(!pairs_map(t1).contains_key(a)) by {
            if pairs_map(t1).contains_key(a) {
                let x = choose|x: int| 0 <= x < t1.len() && t1[x].0 == a;
                assert(s1[x].0 == s1[n].0);
            }
        }
        assert(!pairs_map(t2).contains_key(a)) by {
            if pairs_map(t2).contains_key(a) {
                let x = choose|x: int| 0 <= x < t2.len() && t2[x].0 == a;
                assert(s2[x].0 == s2[n].0);
            }
        }
        assert(pairs_map(s1) == pairs_map(t1).insert(a, s1[n].1));
        assert(pairs_map(s2) == pairs_map(t2).insert(a, s2[n].1));
        assert(pairs_map(t1) =~= pairs_map(t2)) by {
            assert forall|k: Seq<char>| #[trigger] pairs_map(t1).contains_key(k) implies pairs_map(t2).contains_key(k) by {
                assert(k != a);
                assert(pairs_map(s1).contains_key(k));
            }
            assert forall|k: Seq<char>| #[trigger] pairs_map(t2).contains_key(k) implies pairs_map(t1).contains_key(k) by {
                assert(k != a);
                assert(pairs_map(s2).contains_key(k));
            }
            assert forall|k: Seq<char>| #[trigger] pairs_map(t1).contains_key(k) implies pairs_map(t1)[k] == pairs_map(t2)[k] by {
                assert(k != a);
                assert(pairs_map(s1)[k] == pairs_map(t1)[k]);
                assert(pairs_map(s2)[k] == pairs_map(t2)[k]);
            }
        }
        lemma_sorted_determined(t1, t2);
        assert(s1 =~= t1.push(s1[n]));
        assert(s2 =~= t2.push(s2[n]));
    }
}

/// Inserting a new key at its place in sorted entries inserts it into the map.
proof fn lemma_insert_new<V>(s: Seq<(Seq<char>, V)>, pos: int, k: Seq<char>, v: V)
    requires
        sorted_pairs(s),
        0 <= pos <= s.len(),
        forall|j: int| 0 <= j < pos ==> key_lt(#[trigger] s[j].0, k),
        forall|j: int| pos <= j < s.len() ==> key_lt(k, #[trigger] s[j].0),
    ensures
        sorted_pairs(s.insert(pos, (k, v))),
        pairs_map(s.insert(pos, (k, v))) == pairs_map(s).insert(k, v),
{
    let t = s.insert(pos, (k, v));
    assert forall|i: int, j: int| 0 <= i < j < t.len() implies key_lt(#[trigger] t[i].0, #[trigger] t[j].0) by {
        if j < pos {
        } else if j == pos {
        } else if i < pos {
            lemma_key_lt_transitive(t[i].0, k, t[j].0);
        } else if i == pos {
        } else {
            assert(t[i] == s[i - 1] && t[j] == s[j - 1]);
        }
    }
    lemma_sorted_unique(s);
    lemma_sorted_unique(t);
    lemma_unique_map(s);
    lemma_unique_map(t);
    let m1 = pairs_map(t);
    let m2 = pairs_map(s).insert(k, v);
    assert forall|x: Seq<char>| #[trigger] m1.contains_key(x) <==> m2.contains_key(x) by {
        if m1.contains_key(x) {
            let i = choose|i: int| 0 <= i < t.len() && t[i].0 == x;
            if i < pos {
                assert(s[i] == t[i]);
                assert(pairs_map(s).contains_key(s[i].0));
            } else if i > pos {
                assert(s[i - 1] == t[i]);
                assert(pairs_map(s).contains_key(s[i - 1].0));
            }
        }
        if m2.contains_key(x) && x != k {
            let i = choose|i: int| 0 <= i < s.len() && s[i].0 == x;
            if i < pos {
                assert(t[i] == s[i]);
                assert(m1.contains_key(t[i].0));
            } else {
                assert(t[i + 1] == s[i]);
                assert(m1.contains_key(t[i + 1].0));
            }
        }
        if m2.contains_key(x) && x == k {
            assert(t[pos].0 == k);
            assert(m1.contains_key(t[pos].0));
        }
    }
    assert forall|x: Seq<char>| #[trigger] m1.contains_key(x) implies m1[x] == m2[x] by {
        let i = choose|i: int| 0 <= i < t.len() && t[i].0 == x;
        if i < pos {
            assert(s[i] == t[i]);
            lemma_key_lt_irreflexive(k);
        } else if i > pos {
            assert(s[i - 1] == t[i]);
            lemma_key_lt_irreflexive(k);
        }
    }
    assert(m1 =~= m2);
}

/// Replacing the value of an existing entry updates the map at that key.
proof fn lemma_replace<V>(s: Seq<(Seq<char>, V)>, pos: int, v: V)
    requires
        sorted_pairs(s),
        0 <= pos < s.len(),
    ensures
        sorted_pairs(s.update(pos, (s[pos].0, v))),
        pairs_map(s.update(pos, (s[pos].0, v))) == pairs_map(s).insert(s[pos].0, v),
{
    let k = s[pos].0;
    let t = s.update(pos, (k, v));
    assert forall|i: int, j: int| 0 <= i < j < t.len() implies key_lt(#[trigger] t[i].0, #[trigger] t[j].0) by {
        assert(t[i].0 == s[i].0 && t[j].0 == s[j].0);
    }
    lemma_sorted_unique(s);
    lemma_sorted_unique(t);
    lemma_unique_map(s);
    lemma_unique_map(t);
    let m1 = pairs_map(t);
    let m2 = pairs_map(s).insert(k, v);
    assert forall|x: Seq<char>| #[trigger] m1.contains_key(x) <==> m2.contains_key(x) by {
        if m1.contains_key(x) {
            let i = choose|i: int| 0 <= i < t.len() && t[i].0 == x;
            assert(s[i].0 == x);
            assert(pairs_map(s).contains_key(s[i].0));
        }
        if m2.contains_key(x) && x != k {
            let i = choose|i: int| 0 <= i < s.len() && s[i].0 == x;
            assert(t[i].0 == x);
            assert(m1.contains_key(t[i].0));
        }
        if m2.contains_key(x) && x == k {
            assert(t[pos].0 == k);
            assert(m1.contains_key(t[pos].0));
        }
    }
    assert forall|x: Seq<char>| #[trigger] m1.contains_key(x) implies m1[x] == m2[x] by {
        let i = choose|i: int| 0 <= i < t.len() && t[i].0 == x;
        if i != pos {
            assert(s[i] == t[i]);
        }
    }
    assert(m1 =~= m2);
}

/// A map from string keys to values, kept in lexical key order.
#[derive(Debug)]
pub struct StrMap<V> {
    entries: Vec<(String, V)>,
}

impl<V: Clone> Clone for StrMap<V> {
    /// Copies the entries in order: the same keys, each value cloned.
    fn clone(&self) -> (r: Self)
        ensures
            r.pairs().len() == self.pairs().len(),
            forall|i: int| 0 <= i < self.pairs().len() ==> (#[trigger] r.pairs()[i]).0 == self.pairs()[i].0
                && cloned::<V>(self.pairs()[i].1, r.pairs()[i].1),
    {
        proof { use_type_invariant(self); }
        let mut entries: Vec<(String, V)> = Vec::new();
        let mut k: usize = 0;
        while k < self.entries.len()
            invariant
                k <= self.entries@.len(),
                entries@.len() == k,
                forall|j: int| 0 <= j < k ==> (#[trigger] entries@[j]).0@ == self.entries@[j].0@
                    && cloned::<V>(self.entries@[j].1, entries@[j].1),
            decreases self.entries.len() - k,
        {
            let key = self.entries[k].0.clone();
            let value = self.entries[k].1.clone();
            entries.push((key, value));
            k = k + 1;
        }
        let ghost copied = entries@.map_values(|e: (String, V)| (e.0@, e.1));
        assert forall|i: int, j: int| 0 <= i < j < copied.len() implies key_lt(#[trigger] copied[i].0, #[trigger] copied[j].0) by {
            assert(copied[i].0 == self.pairs()[i].0);
            assert(copied[j].0 == self.pairs()[j].0);
        }
        let r = StrMap { entries };
        r
    }
}

impl<V> StrMap<V> {
    /// The entries in storage order, keys taken as characters.
    pub closed spec fn pairs(&self) -> Seq<(Seq<char>, V)> {
        self.entries@.map_values(|e: (String, V)| (e.0@, e.1))
    }

    #[verifier::type_invariant]
    closed spec fn sorted(&self) -> bool {
        sorted_pairs(self.pairs())
    }

    /// Creates an empty map.
    pub fn new() -> (r: Self)
        ensures
            r@ == Map::<Seq<char>, V>::empty(),
            r.pairs() == Seq::<(Seq<char>, V)>::empty(),
    {
        let r = StrMap { entries: Vec::new() };
        assert(r.pairs() =~= Seq::<(Seq<char>, V)>::empty());
        r
    }

    /// The position of a key, if present.
    fn position(&self, key: &[char]) -> (r: Option<usize>)
        ensures
            match r {
                Some(i) => i < self.pairs().len() && self.pairs()[i as int].0 == key@,
                None => forall|j: int| 0 <= j < self.pairs().len() ==> #[trigger] self.pairs()[j].0 != key@,
            },
    {
        let n = self.entries.len();
        let mut i: usize = 0;
        while i < n
            invariant
                n == self.entries@.len(),
                i <= n,
                forall|j: int| 0 <= j < i ==> #[trigger] self.pairs()[j].0 != key@,
            decreases n - i,
        {
            let k = chars_of(self.entries[i].0.as_str());
            if crate::scan::chars_equal(k.as_slice(), key) {
                return Some(i);
            }
            i = i + 1;
        }
        None
    }

    /// Returns the value stored for a key.
    pub fn get(&self, key: &str) -> (r: Option<&V>)
        ensures
            match r {
                Some(v) => self@.contains_key(key@) && *v == self@[key@],
                None => !self@.contains_key(key@),
            },
    {
        proof {
            use_type_invariant(self);
            lemma_sorted_unique(self.pairs());
            lemma_unique_map(self.pairs());
        }
        let chars = chars_of(key);
        match self.position(chars.as_slice()) {
            Some(i) => {
                assert(self.pairs()[i as int] == (self.entries@[i as int].0@, self.entries@[i as int].1));
                assert(pairs_map(self.pairs()).contains_key(self.pairs()[i as int].0));
                assert(self@.contains_key(key@));
                assert(self@[key@] == self.entries@[i as int].1);
                let e = &self.entries[i];
                Some(&e.1)
            },
            None => None,
        }
    }

    /// Stores a value for a key, returning the value it replaces.
    pub fn insert(&mut self, key: String, value: V) -> (r: Option<V>)
        ensures
            final(self)@ == old(self)@.insert(key@, value),
            r == (if old(self)@.contains_key(key@) { Some(old(self)@[key@]) } else { None::<V> }),
            sorted_pairs(final(self).pairs()),
    {
        proof {
            use_type_invariant(&*self);
            lemma_sorted_unique(self.pairs());
            lemma_unique_map(self.pairs());
        }
        let ghost before = self.pairs();
        let mut entries: Vec<(String, V)> = Vec::new();
        std::mem::swap(&mut entries, &mut self.entries);
        assert(entries@.map_values(|e: (String, V)| (e.0@, e.1)) == before);
        let k = chars_of(key.as_str());
        let n = entries.len();
        let mut i: usize = 0;
        while i < n
            invariant
                n == entries@.len(),
                i <= n,
                entries@.map_values(|e: (String, V)| (e.0@, e.1)) == before,
                k@ == key@,
                forall|j: int| 0 <= j < i ==> key_lt(#[trigger] before[j].0, key@),
            ensures
                i <= n,
                i < n ==> !key_lt(before[i as int].0, key@),
                forall|j: int| 0 <= j < i ==> key_lt(#[trigger] before[j].0, key@),
            decreases n - i,
        {
            assert(before[i as int] == (entries@[i as int].0@, entries@[i as int].1));
            let c = chars_of(entries[i].0.as_str());
            if !key_less(c.as_slice(), k.as_slice()) {
                break;
            }
            i = i + 1;
        }
        let found = i < n && {
            assert(before[i as int] == (entries@[i as int].0@, entries@[i as int].1));
            let c = chars_of(entries[i].0.as_str());
            crate::scan::chars_equal(c.as_slice(), k.as_slice())
        };
        if found {
            let old_entry = entries.remove(i);
            entries.insert(i, (key, value));
            proof {
                lemma_replace(before, i as int, value);
                assert(entries@.map_values(|e: (String, V)| (e.0@, e.1)) =~= before.update(i as int, (before[i as int].0, value)));
            }
            self.entries = entries;
            Some(old_entry.1)
        } else {
            proof {
                assert forall|j: int| i <= j < before.len() implies key_lt(key@, #[trigger] before[j].0) by {
                    if i < n {
                        lemma_key_lt_total(before[i as int].0, key@);
                        if j > i {
                            lemma_key_lt_transitive(key@, before[i as int].0, before[j].0);
                        }
                    }
                }
                lemma_insert_new(before, i as int, key@, value);
                assert(!pairs_map(before).contains_key(key@)) by {
                    if pairs_map(before).contains_key(key@) {
                        let j = choose|j: int| 0 <= j < before.len() && before[j].0 == key@;
                        lemma_key_lt_irreflexive(key@);
                    }
                }
            }
            let ghost kv = key@;
            entries.insert(i, (key, value));
            proof {
                assert(entries@.map_values(|e: (String, V)| (e.0@, e.1)) =~= before.insert(i as int, (kv, value)));
            }
            self.entries = entries;
            None
        }
    }

    /// The number of entries.
    pub fn len(&self) -> (r: usize)
        ensures
            r == self@.dom().len(),
            r == self.pairs().len(),
    {
        proof {
            use_type_invariant(self);
            lemma_sorted_unique(self.pairs());
            lemma_unique_map(self.pairs());
        }
        self.entries.len()
    }

    /// Whether the map has no entries.
    pub fn is_empty(&self) -> (r: bool)
        ensures
            r == (self@.dom().len() == 0),
    {
        self.len() == 0
    }

    /// The entries in lexical key order.
    pub fn iter(&self) -> (r: &[(String, V)])
        ensures
            r@.map_values(|e: (String, V)| (e.0@, e.1)) == self.pairs(),
            sorted_pairs(self.pairs()),
            pairs_map(self.pairs()) == self@,
    {
        proof {
            use_type_invariant(self);
        }
        self.entries.as_slice()
    }
}

impl<V> View for StrMap<V> {
    type V = Map<Seq<char>, V>;

    open spec fn view(&self) -> Map<Seq<char>, V> {
        pairs_map(self.pairs())
    }
}

/// Viewing each value of a listing maps the described map's values the same way.
pub proof fn lemma_pairs_map_values<V, W>(s: Seq<(Seq<char>, V)>, f: spec_fn(V) -> W)
    ensures
        pairs_map(s.map_values(|e: (Seq<char>, V)| (e.0, f(e.1)))) == pairs_map(s).map_values(f),
        sorted_pairs(s) ==> sorted_pairs(s.map_values(|e: (Seq<char>, V)| (e.0, f(e.1)))),
    decreases s.len(),
{
    let t = s.map_values(|e: (Seq<char>, V)| (e.0, f(e.1)));
    if s.len() > 0 {
        lemma_pairs_map_values(s.drop_last(), f);
        assert(t.drop_last() =~= s.drop_last().map_values(|e: (Seq<char>, V)| (e.0, f(e.1))));
        let m = pairs_map(s.drop_last());
        assert(m.insert(s.last().0, s.last().1).map_values(f) =~= m.map_values(f).insert(s.last().0, f(s.last().1)));
    } else {
        assert(pairs_map(s).map_values(f) =~= Map::<Seq<char>, W>::empty());
    }
}

/// Sorted listings describe the same map, with values viewed through `f`,
/// exactly when their entries agree once viewed.
pub proof fn lemma_viewed_entries<V, W>(s1: Seq<(Seq<char>, V)>, s2: Seq<(Seq<char>, V)>, f: spec_fn(V) -> W)
    requires
        sorted_pairs(s1),
        sorted_pairs(s2),
    ensures
        (pairs_map(s1).map_values(f) == pairs_map(s2).map_values(f))
            == (s1.map_values(|e: (Seq<char>, V)| (e.0, f(e.1))) == s2.map_values(|e: (Seq<char>, V)| (e.0, f(e.1)))),
{
    lemma_pairs_map_values(s1, f);
    lemma_pairs_map_values(s2, f);
    if pairs_map(s1).map_values(f) == pairs_map(s2).map_values(f) {
        lemma_sorted_determined(s1.map_values(|e: (Seq<char>, V)| (e.0, f(e.1))), s2.map_values(|e: (Seq<char>, V)| (e.0, f(e.1))));
    }
}

/// Reading a key right after storing a value under it gives that value back.
pub proof fn law_get_after_insert<V>(m: Map<Seq<char>, V>, k: Seq<char>, v: V)
    ensures
        m.insert(k, v).contains_key(k),
        m.insert(k, v)[k] == v,
{
}

/// Storing a value under one key leaves every other key as it was.
pub proof fn law_insert_keeps_other_keys<V>(m: Map<Seq<char>, V>, k: Seq<char>, v: V, other: Seq<char>)
    requires
        other != k,
    ensures
        m.insert(k, v).contains_key(other) == m.contains_key(other),
        m.contains_key(other) ==> m.insert(k, v)[other] == m[other],
{
}

} // verus!
