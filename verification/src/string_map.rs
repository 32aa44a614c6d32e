//! An ordered map from strings to strings.
//!
//! It holds labels, annotations and configuration options: each key once, and the
//! entries in the order of their keys.

use vstd::prelude::*;

use crate::text::{chars_of, same_text};

verus! {

broadcast use vstd::seq_lib::group_seq_properties;

/// Whether `a` comes before `b`, comparing character by character.
pub open spec fn text_less(a: Seq<char>, b: Seq<char>) -> bool
    decreases a.len(),
{
    if b.len() == 0 {
        false
    } else if a.len() == 0 {
        true
    } else if a[0] != b[0] {
        (a[0] as u32) < (b[0] as u32)
    } else {
        text_less(a.drop_first(), b.drop_first())
    }
}

/// Whether the keys are in strictly ascending order.
pub open spec fn ascending(keys: Seq<Seq<char>>) -> bool {
    forall|i: int, j: int| 0 <= i < j < keys.len() ==> text_less(#[trigger] keys[i], #[trigger] keys[j])
}

/// Whether `keys` lists the set `s` in ascending order.
pub open spec fn is_listing(keys: Seq<Seq<char>>, s: Set<Seq<char>>) -> bool {
    &&& ascending(keys)
    &&& forall|k: Seq<char>| #[trigger] keys.contains(k) <==> s.contains(k)
}

/// The elements of `s` in ascending order.
pub open spec fn listing(s: Set<Seq<char>>) -> Seq<Seq<char>> {
    choose|keys: Seq<Seq<char>>| is_listing(keys, s)
}

/// No text comes before itself.
pub proof fn lemma_less_irreflexive(a: Seq<char>)
    ensures
        !text_less(a, a),
    decreases a.len(),
{
    if a.len() > 0 {
        lemma_less_irreflexive(a.drop_first());
    }
}

/// The order is transitive.
pub proof fn lemma_less_transitive(a: Seq<char>, b: Seq<char>, c: Seq<char>)
    requires
        text_less(a, b),
        text_less(b, c),
    ensures
        text_less(a, c),
    decreases a.len(),
{
    if a.len() > 0 && a[0] == b[0] && b[0] == c[0] {
        lemma_less_transitive(a.drop_first(), b.drop_first(), c.drop_first());
    }
}

/// Of two different texts one comes first.
pub proof fn lemma_less_total(a: Seq<char>, b: Seq<char>)
    ensures
        text_less(a, b) || text_less(b, a) || a == b,
    decreases a.len(),
{
    if a.len() > 0 && b.len() > 0 {
        if a[0] == b[0] {
            lemma_less_total(a.drop_first(), b.drop_first());
            if a.drop_first() == b.drop_first() {
                assert(a =~= seq![a[0]] + a.drop_first());
                assert(b =~= seq![b[0]] + b.drop_first());
            }
        } else {
            vstd::utf8::char_u32_cast(a[0], a[0] as u32);
            vstd::utf8::char_u32_cast(b[0], b[0] as u32);
        }
    } else if a.len() == 0 && b.len() == 0 {
        assert(a =~= b);
    }
}

/// A set has one ascending listing.
pub proof fn lemma_listing_unique(a: Seq<Seq<char>>, b: Seq<Seq<char>>, s: Set<Seq<char>>)
    requires
        is_listing(a, s),
        is_listing(b, s),
    ensures
        a == b,
    decreases a.len(),
{
    if a.len() == 0 {
        if b.len() > 0 {
            assert(b.contains(b[0]));
            assert(a.contains(b[0]));
        }
        assert(a =~= b);
    } else {
        assert(a.contains(a[0]));
        assert(b.contains(a[0]));
        let j = choose|j: int| 0 <= j < b.len() && b[j] == a[0];
        assert(b.contains(b[0]));
        assert(a.contains(b[0]));
        let i = choose|i: int| 0 <= i < a.len() && a[i] == b[0];
        if i > 0 {
            assert(text_less(a[0], a[i]));
            if j > 0 {
                assert(text_less(b[0], b[j]));
                lemma_less_transitive(a[0], b[0], a[0]);
            }
            lemma_less_irreflexive(a[0]);
        }
        assert(a[0] == b[0]);
        let t = s.remove(a[0]);
        let a1 = a.drop_first();
        let b1 = b.drop_first();
        lemma_listing_tail(a, s);
        lemma_listing_tail(b, s);
        lemma_listing_unique(a1, b1, t);
        assert(a =~= seq![a[0]] + a1);
        assert(b =~= seq![b[0]] + b1);
    }
}

proof fn lemma_listing_tail(a: Seq<Seq<char>>, s: Set<Seq<char>>)
    requires
        is_listing(a, s),
        a.len() > 0,
    ensures
        is_listing(a.drop_first(), s.remove(a[0])),
{
    let a1 = a.drop_first();
    let t = s.remove(a[0]);
    assert forall|i: int, j: int| 0 <= i < j < a1.len() implies text_less(
        #[trigger] a1[i],
        #[trigger] a1[j],
    ) by {
        assert(text_less(a[i + 1], a[j + 1]));
    }
    assert forall|k: Seq<char>| #[trigger] a1.contains(k) <==> t.contains(k) by {
        if a1.contains(k) {
            let i = choose|i: int| 0 <= i < a1.len() && a1[i] == k;
            assert(a[i + 1] == k);
            assert(a.contains(k));
            assert(text_less(a[0], a[i + 1]));
            lemma_less_irreflexive(k);
        }
        if t.contains(k) {
            assert(a.contains(k));
            let i = choose|i: int| 0 <= i < a.len() && a[i] == k;
            assert(a1[i - 1] == k);
        }
    }
}

/// A finite set has an ascending listing.
pub proof fn lemma_listing_exists(s: Set<Seq<char>>)
    requires
        s.finite(),
    ensures
        is_listing(listing(s), s),
    decreases s.len(),
{
    if s.len() == 0 {
        assert(s =~= Set::empty());
        assert(is_listing(Seq::empty(), s));
    } else {
        let k = s.choose();
        let t = s.remove(k);
        lemma_listing_exists(t);
        let rest = listing(t);
        assert(!rest.contains(k));
        let i = lemma_position(rest, k, 0);
        lemma_insert(rest, rest, i, k, k);
        let keys = rest.insert(i, k);
        assert forall|x: Seq<char>| #[trigger] keys.contains(x) <==> s.contains(x) by {
            if keys.contains(x) {
                let p = choose|p: int| 0 <= p < keys.len() && keys[p] == x;
                if p < i {
                    assert(rest[p] == x);
                    assert(rest.contains(x));
                } else if p > i {
                    assert(rest[p - 1] == x);
                    assert(rest.contains(x));
                }
            }
            if s.contains(x) {
                if x == k {
                    assert(keys[i] == x);
                } else {
                    assert(t.contains(x));
                    assert(rest.contains(x));
                    let p = choose|p: int| 0 <= p < rest.len() && rest[p] == x;
                    if p < i {
                        assert(keys[p] == x);
                    } else {
                        assert(keys[p + 1] == x);
                    }
                }
            }
        }
        assert(is_listing(keys, s));
    }
}

/// Where `k` belongs among ascending keys that it is not one of.
proof fn lemma_position(keys: Seq<Seq<char>>, k: Seq<char>, from: int) -> (i: int)
    requires
        ascending(keys),
        !keys.contains(k),
        0 <= from <= keys.len(),
        forall|j: int| 0 <= j < from ==> text_less(#[trigger] keys[j], k),
    ensures
        from <= i <= keys.len(),
        forall|j: int| 0 <= j < i ==> text_less(#[trigger] keys[j], k),
        forall|j: int| i <= j < keys.len() ==> text_less(k, #[trigger] keys[j]),
    decreases keys.len() - from,
{
    if from < keys.len() && text_less(keys[from], k) {
        lemma_position(keys, k, from + 1)
    } else {
        if from < keys.len() {
            assert(keys.contains(keys[from]));
            lemma_less_total(k, keys[from]);
            assert forall|j: int| from <= j < keys.len() implies text_less(k, #[trigger] keys[j]) by {
                if j > from {
                    assert(text_less(keys[from], keys[j]));
                    lemma_less_transitive(k, keys[from], keys[j]);
                }
            }
        }
        from
    }
}

/// Whether `a` comes before `b`.
pub fn comes_before(a: &str, b: &str) -> (r: bool)
    ensures
        r == text_less(a@, b@),
{
    let x = chars_of(a);
    let y = chars_of(b);
    let mut i: usize = 0;
    proof {
        assert(x@.skip(0) =~= x@);
        assert(y@.skip(0) =~= y@);
    }
    while i < x.len() && i < y.len() && x[i] == y[i]
        invariant
            i <= x@.len(),
            i <= y@.len(),
            text_less(a@, b@) == text_less(x@.skip(i as int), y@.skip(i as int)),
        decreases x@.len() - i,
    {
        proof {
            assert(x@.skip(i as int).drop_first() =~= x@.skip(i + 1));
            assert(y@.skip(i as int).drop_first() =~= y@.skip(i + 1));
        }
        i = i + 1;
    }
    if i == y.len() {
        false
    } else if i == x.len() {
        true
    } else {
        (x[i] as u32) < (y[i] as u32)
    }
}

/// An ordered map from strings to strings.
#[derive(Debug, PartialEq, Eq)]
pub struct StringMap {
    entries: Vec<(String, String)>,
}

impl StringMap {
    /// The keys in the order in which the map holds them.
    pub closed spec fn keys(&self) -> Seq<Seq<char>> {
        Seq::new(self.entries@.len(), |i: int| self.entries@[i].0@)
    }

    spec fn values(&self) -> Seq<Seq<char>> {
        Seq::new(self.entries@.len(), |i: int| self.entries@[i].1@)
    }

    #[verifier::type_invariant]
    spec fn well_formed(&self) -> bool {
        ascending(self.keys())
    }
}

impl View for StringMap {
    type V = Map<Seq<char>, Seq<char>>;

    closed spec fn view(&self) -> Map<Seq<char>, Seq<char>> {
        pairs_map(self.keys(), self.values())
    }
}

/// The map from `keys[i]` to `values[i]`.
spec fn pairs_map(keys: Seq<Seq<char>>, values: Seq<Seq<char>>) -> Map<Seq<char>, Seq<char>> {
    Map::new(|k: Seq<char>| keys.contains(k), |k: Seq<char>| values[keys.index_of(k)])
}

/// Ascending keys are all different.
pub proof fn lemma_ascending_distinct(keys: Seq<Seq<char>>)
    requires
        ascending(keys),
    ensures
        keys.no_duplicates(),
{
    assert forall|i: int, j: int| 0 <= i < keys.len() && 0 <= j < keys.len() && i != j implies keys[i]
        != keys[j] by {
        lemma_less_irreflexive(keys[i]);
        if i < j {
            assert(text_less(keys[i], keys[j]));
        } else {
            assert(text_less(keys[j], keys[i]));
        }
    }
}

proof fn lemma_pairs_index(keys: Seq<Seq<char>>, values: Seq<Seq<char>>, i: int)
    requires
        ascending(keys),
        0 <= i < keys.len(),
    ensures
        pairs_map(keys, values).contains_key(keys[i]),
        pairs_map(keys, values)[keys[i]] == values[i],
{
    lemma_ascending_distinct(keys);
    assert(keys.contains(keys[i]));
    let j = keys.index_of(keys[i]);
    assert(keys[j] == keys[i]);
}

impl StringMap {
    /// The map without entries.
    pub fn new() -> (r: StringMap)
        ensures
            r@ == Map::<Seq<char>, Seq<char>>::empty(),
    {
        let r = StringMap { entries: Vec::new() };
        proof {
            assert(r@ =~= Map::<Seq<char>, Seq<char>>::empty());
        }
        r
    }

    proof fn lemma_keys(&self)
        requires
            ascending(self.keys()),
        ensures
            is_listing(self.keys(), self@.dom()),
            self.keys() == listing(self@.dom()),
    {
        assert(is_listing(self.keys(), self@.dom()));
        lemma_listing_unique(self.keys(), listing(self@.dom()), self@.dom());
    }

    /// The number of entries. The keys are those of the map, each once, in ascending order.
    pub fn len(&self) -> (r: usize)
        ensures
            r == self.keys().len(),
            is_listing(self.keys(), self@.dom()),
            self.keys() == listing(self@.dom()),
    {
        proof {
            use_type_invariant(self);
            self.lemma_keys();
        }
        self.entries.len()
    }

    /// The key of the entry at `i`.
    pub fn key(&self, i: usize) -> (r: &String)
        requires
            i < self.keys().len(),
        ensures
            r@ == self.keys()[i as int],
    {
        &self.entries[i].0
    }

    /// The value of the entry at `i`.
    pub fn value(&self, i: usize) -> (r: &String)
        requires
            i < self.keys().len(),
        ensures
            self@.contains_key(self.keys()[i as int]),
            r@ == self@[self.keys()[i as int]],
    {
        proof {
            use_type_invariant(self);
            lemma_pairs_index(self.keys(), self.values(), i as int);
        }
        &self.entries[i].1
    }

    /// The value of `key`.
    pub fn get(&self, key: &str) -> (r: Option<&String>)
        ensures
            r is Some == self@.contains_key(key@),
            r matches Some(v) ==> v@ == self@[key@],
    {
        proof {
            use_type_invariant(self);
        }
        let mut i: usize = 0;
        while i < self.entries.len()
            invariant
                i <= self.entries@.len(),
                ascending(self.keys()),
                forall|j: int| 0 <= j < i ==> self.keys()[j] != key@,
            decreases self.entries@.len() - i,
        {
            if same_text(self.entries[i].0.as_str(), key) {
                proof {
                    lemma_pairs_index(self.keys(), self.values(), i as int);
                }
                return Some(&self.entries[i].1);
            }
            i = i + 1;
        }
        None
    }

    /// Sets the value of `key`.
    pub fn insert(&mut self, key: String, value: String)
        ensures
            final(self)@ == old(self)@.insert(key@, value@),
    {
        proof {
            use_type_invariant(&*self);
        }
        let ghost keys = self.keys();
        let ghost values = self.values();
        let mut entries: Vec<(String, String)> = Vec::new();
        std::mem::swap(&mut entries, &mut self.entries);
        let mut i: usize = 0;
        while i < entries.len() && comes_before(entries[i].0.as_str(), key.as_str())
            invariant
                i <= entries@.len(),
                keys == Seq::new(entries@.len(), |j: int| entries@[j].0@),
                forall|j: int| 0 <= j < i ==> text_less(#[trigger] keys[j], key@),
            decreases entries@.len() - i,
        {
            i = i + 1;
        }
        let ghost k = key@;
        let ghost v = value@;
        let ghost new_keys: Seq<Seq<char>>;
        let ghost new_values: Seq<Seq<char>>;
        if i < entries.len() && same_text(entries[i].0.as_str(), key.as_str()) {
            entries.set(i, (key, value));
            proof {
                new_keys = Seq::new(entries@.len(), |j: int| entries@[j].0@);
                new_values = Seq::new(entries@.len(), |j: int| entries@[j].1@);
                assert(new_keys =~= keys);
                assert(new_values =~= values.update(i as int, v));
                lemma_update(keys, values, i as int, v);
            }
        } else {
            proof {
                if i < keys.len() {
                    lemma_less_total(k, keys[i as int]);
                }
                assert forall|j: int| i <= j < keys.len() implies text_less(k, #[trigger] keys[j]) by {
                    if j > i {
                        assert(text_less(keys[i as int], keys[j]));
                        lemma_less_transitive(k, keys[i as int], keys[j]);
                    }
                }
            }
            entries.insert(i, (key, value));
            proof {
                new_keys = Seq::new(entries@.len(), |j: int| entries@[j].0@);
                new_values = Seq::new(entries@.len(), |j: int| entries@[j].1@);
                assert(new_keys =~= keys.insert(i as int, k));
                assert(new_values =~= values.insert(i as int, v));
                lemma_insert(keys, values, i as int, k, v);
            }
        }
        let ghost done = StringMap { entries };
        proof {
            assert(done.keys() =~= new_keys);
            assert(done.values() =~= new_values);
        }
        *self = StringMap { entries };
    }
    /// Copies the entries of `other` over those of `self`.
    pub fn extend(&mut self, other: &StringMap)
        ensures
            final(self)@ == old(self)@.union_prefer_right(other@),
    {
        let ghost before = self@;
        let len: usize = other.len();
        let mut i: usize = 0;
        let ghost keys = other.keys();
        proof {
            assert(before.union_prefer_right(other@.restrict(keys.take(0).to_set())) =~= before);
        }
        while i < len
            invariant
                i <= len == keys.len(),
                keys == other.keys(),
                is_listing(keys, other@.dom()),
                self@ == before.union_prefer_right(
                    other@.restrict(keys.take(i as int).to_set()),
                ),
            decreases len - i,
        {
            let key = other.key(i).clone();
            let value = other.value(i).clone();
            self.insert(key, value);
            proof {
                let seen = keys.take(i as int);
                let next = keys.take(i + 1);
                assert(next =~= seen.push(keys[i as int]));
                assert forall|k: Seq<char>| next.to_set().contains(k) <==> (
                seen.to_set().contains(k) || k == keys[i as int]) by {
                    if seen.to_set().contains(k) {
                        let j = choose|j: int| 0 <= j < seen.len() && seen[j] == k;
                        assert(next[j] == k);
                    }
                    if k == keys[i as int] {
                        assert(next[i as int] == k);
                    }
                }
                assert(self@ =~= before.union_prefer_right(other@.restrict(next.to_set())));
            }
            i = i + 1;
        }
        proof {
            assert(keys.take(len as int) =~= keys);
            assert(other@.restrict(keys.to_set()) =~= other@);
        }
    }
}

proof fn lemma_update(keys: Seq<Seq<char>>, values: Seq<Seq<char>>, i: int, v: Seq<char>)
    requires
        ascending(keys),
        keys.len() == values.len(),
        0 <= i < keys.len(),
    ensures
        pairs_map(keys, values.update(i, v)) == pairs_map(keys, values).insert(keys[i], v),
{
    let a = pairs_map(keys, values.update(i, v));
    let b = pairs_map(keys, values).insert(keys[i], v);
    assert(keys.contains(keys[i]));
    assert(a.dom() =~= b.dom());
    assert forall|k: Seq<char>| #[trigger] a.contains_key(k) implies a[k] == b[k] by {
        let j = choose|j: int| 0 <= j < keys.len() && keys[j] == k;
        lemma_pairs_index(keys, values, j);
        lemma_pairs_index(keys, values.update(i, v), j);
        lemma_ascending_distinct(keys);
    }
    assert(a =~= b);
}

proof fn lemma_insert(
    keys: Seq<Seq<char>>,
    values: Seq<Seq<char>>,
    i: int,
    k: Seq<char>,
    v: Seq<char>,
)
    requires
        ascending(keys),
        keys.len() == values.len(),
        0 <= i <= keys.len(),
        forall|j: int| 0 <= j < i ==> text_less(#[trigger] keys[j], k),
        forall|j: int| i <= j < keys.len() ==> text_less(k, #[trigger] keys[j]),
    ensures
        ascending(keys.insert(i, k)),
        pairs_map(keys.insert(i, k), values.insert(i, v)) == pairs_map(keys, values).insert(k, v),
{
    let keys1 = keys.insert(i, k);
    let values1 = values.insert(i, v);
    assert forall|p: int, q: int| 0 <= p < q < keys1.len() implies text_less(
        #[trigger] keys1[p],
        #[trigger] keys1[q],
    ) by {
        let p0 = if p < i {
            p
        } else {
            p - 1
        };
        let q0 = if q < i {
            q
        } else {
            q - 1
        };
        if p != i && q != i {
            assert(text_less(keys[p0], keys[q0]));
        } else if p == i {
            assert(text_less(k, keys[q0]));
        } else {
            assert(text_less(keys[p0], k));
        }
    }
    let a = pairs_map(keys1, values1);
    let b = pairs_map(keys, values).insert(k, v);
    assert forall|x: Seq<char>| #[trigger] a.contains_key(x) <==> b.contains_key(x) by {
        if a.contains_key(x) {
            let p = choose|p: int| 0 <= p < keys1.len() && keys1[p] == x;
            if p < i {
                assert(keys[p] == x);
            } else if p > i {
                assert(keys[p - 1] == x);
            }
        }
        if b.contains_key(x) {
            if x == k {
                assert(keys1[i] == x);
            } else {
                let p = choose|p: int| 0 <= p < keys.len() && keys[p] == x;
                if p < i {
                    assert(keys1[p] == x);
                } else {
                    assert(keys1[p + 1] == x);
                }
            }
        }
    }
    assert(a.dom() =~= b.dom());
    assert forall|x: Seq<char>| #[trigger] a.contains_key(x) implies a[x] == b[x] by {
        let p = choose|p: int| 0 <= p < keys1.len() && keys1[p] == x;
        lemma_pairs_index(keys1, values1, p);
        lemma_ascending_distinct(keys1);
        if p < i {
            lemma_pairs_index(keys, values, p);
            assert(keys1[i] == k);
        } else if p > i {
            lemma_pairs_index(keys, values, p - 1);
            assert(keys1[i] == k);
        }
    }
    assert(a =~= b);
}

impl Clone for StringMap {
    fn clone(&self) -> (r: StringMap)
        ensures
            r@ == self@,
    {
        let len: usize = self.len();
        let mut r = StringMap::new();
        let mut i: usize = 0;
        while i < len
            invariant
                i <= len == self.keys().len(),
                is_listing(self.keys(), self@.dom()),
                r@ == self@.restrict(self.keys().take(i as int).to_set()),
            decreases self.keys().len() - i,
        {
            let key = self.key(i).clone();
            let value = self.value(i).clone();
            proof {
                assert(self.keys().take(i + 1) =~= self.keys().take(i as int).push(
                    self.keys()[i as int],
                ));
                assert(self.keys().take(i + 1).to_set() =~= self.keys().take(i as int).to_set().insert(
                    self.keys()[i as int],
                ));
                assert(self@.restrict(self.keys().take(i + 1).to_set()) =~= r@.insert(
                    key@,
                    value@,
                ));
            }
            r.insert(key, value);
            i = i + 1;
        }
        proof {
            assert(self.keys().take(self.keys().len() as int) =~= self.keys());
            assert(self.keys().to_set() =~= self@.dom());
            assert(self@.restrict(self@.dom()) =~= self@);
        }
        r
    }
}

impl Default for StringMap {
    fn default() -> (r: StringMap)
        ensures
            r@ == Map::<Seq<char>, Seq<char>>::empty(),
    {
        StringMap::new()
    }
}

} // verus!
