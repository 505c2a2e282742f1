//! Maps and sets keyed by text. The entries are few, so they are kept in a list, in the
//! order of their texts, and no text occurs twice. Two that hold the same have the same
//! list, and so `==` goes by what they hold, however it came in.

use crate::text::{
    comes_first, law_texts_chain, law_texts_compare, law_texts_meet, same, text_le, texts,
};
use vstd::prelude::*;
use vstd::string::*;

verus! {

/// A map from texts.
#[derive(Debug, PartialEq, Eq)]
pub struct TextMap<V> {
    entries: Vec<(String, V)>,
}

/// The place of the entry for `key` at or after `from`, or the end.
spec fn entry_place<V>(entries: Seq<(String, V)>, key: Seq<char>, from: int) -> int
    decreases entries.len() - from,
{
    if from >= entries.len() || entries[from].0@ == key {
        from
    } else {
        entry_place(entries, key, from + 1)
    }
}

proof fn lemma_entry_place<V>(entries: Seq<(String, V)>, key: Seq<char>, from: int)
    requires
        0 <= from <= entries.len(),
    ensures
        from <= entry_place(entries, key, from) <= entries.len(),
        forall|i: int|
            from <= i < entry_place(entries, key, from) ==> (#[trigger] entries[i]).0@ != key,
        entry_place(entries, key, from) < entries.len() ==> entries[entry_place(
            entries,
            key,
            from,
        )].0@ == key,
    decreases entries.len() - from,
{
    if from < entries.len() && entries[from].0@ != key {
        lemma_entry_place(entries, key, from + 1);
    }
}

/// Each text comes before those that follow it.
spec fn is_rising(keys: Seq<Seq<char>>) -> bool {
    forall|i: int, j: int|
        0 <= i < j < keys.len() ==> (#[trigger] keys[i]) != (#[trigger] keys[j]) && text_le(
            keys[i],
            keys[j],
        )
}

/// Rising lists of the same texts are the same list.
proof fn lemma_rising(a: Seq<Seq<char>>, b: Seq<Seq<char>>)
    requires
        is_rising(a),
        is_rising(b),
        a.to_set() == b.to_set(),
    ensures
        a == b,
    decreases a.len(),
{
    if a.len() == 0 || b.len() == 0 {
        if a.len() > 0 {
            assert(a.to_set().contains(a[0]));
        }
        if b.len() > 0 {
            assert(b.to_set().contains(b[0]));
        }
        assert(a =~= b);
    } else {
        let x = a.last();
        let y = b.last();
        assert(a.to_set().contains(x));
        assert(b.to_set().contains(y));
        let i = choose|i: int| 0 <= i < a.len() && a[i] == y;
        let j = choose|j: int| 0 <= j < b.len() && b[j] == x;
        if x != y {
            assert(text_le(a[i], a[a.len() - 1]));
            assert(text_le(b[j], b[b.len() - 1]));
            law_texts_meet(x, y);
        }
        lemma_without_last(a);
        lemma_without_last(b);
        assert forall|k: int, l: int| 0 <= k < l < a.len() - 1 implies (
        #[trigger] a.drop_last()[k]) != (#[trigger] a.drop_last()[l]) && text_le(
            a.drop_last()[k],
            a.drop_last()[l],
        ) by {
            assert(a[k] != a[l]);
        }
        assert forall|k: int, l: int| 0 <= k < l < b.len() - 1 implies (
        #[trigger] b.drop_last()[k]) != (#[trigger] b.drop_last()[l]) && text_le(
            b.drop_last()[k],
            b.drop_last()[l],
        ) by {
            assert(b[k] != b[l]);
        }
        lemma_rising(a.drop_last(), b.drop_last());
        assert(a =~= a.drop_last().push(x));
        assert(b =~= b.drop_last().push(y));
    }
}

/// The last text of a rising list is there but once.
proof fn lemma_without_last(a: Seq<Seq<char>>)
    requires
        is_rising(a),
        a.len() > 0,
    ensures
        a.drop_last().to_set() == a.to_set().remove(a.last()),
{
    assert forall|t: Seq<char>| a.drop_last().to_set().contains(t) <==> a.to_set().remove(
        a.last(),
    ).contains(t) by {
        if a.drop_last().contains(t) {
            let k = choose|k: int| 0 <= k < a.len() - 1 && a.drop_last()[k] == t;
            assert(a[k] == t && a[k] != a[a.len() - 1]);
        }
        if a.contains(t) && t != a.last() {
            let k = choose|k: int| 0 <= k < a.len() && a[k] == t;
            assert(a.drop_last()[k] == t);
        }
    }
    assert(a.drop_last().to_set() =~= a.to_set().remove(a.last()));
}

impl<V> View for TextMap<V> {
    type V = Map<Seq<char>, V>;

    closed spec fn view(&self) -> Map<Seq<char>, V> {
        Map::new(
            |key: Seq<char>| entry_place(self.entries@, key, 0) < self.entries@.len(),
            |key: Seq<char>| self.entries@[entry_place(self.entries@, key, 0)].1,
        )
    }
}

impl<V> TextMap<V> {
    /// The texts are in order, and none occurs twice.
    pub closed spec fn wf(self) -> bool {
        forall|i: int, j: int|
            0 <= i < j < self.entries@.len() ==> (#[trigger] self.entries@[i]).0@ != (
            #[trigger] self.entries@[j]).0@ && text_le(self.entries@[i].0@, self.entries@[j].0@)
    }

    /// The texts as they are listed.
    spec fn keys_in_order(self) -> Seq<Seq<char>> {
        self.entries@.map_values(|entry: (String, V)| entry.0@)
    }

    /// The list of the texts with their values.
    pub closed spec fn listed(self) -> Seq<(Seq<char>, V)> {
        self.entries@.map_values(|entry: (String, V)| (entry.0@, entry.1))
    }

    /// Two maps hold the same just where they list the same.
    pub proof fn law_listed_by_contents(a: Self, b: Self)
        requires
            a.wf(),
            b.wf(),
        ensures
            a@ == b@ <==> a.listed() == b.listed(),
    {
        if a@ == b@ {
            a.lemma_size();
            b.lemma_size();
            lemma_rising(a.keys_in_order(), b.keys_in_order());
            assert forall|i: int| 0 <= i < a.listed().len() implies a.listed()[i]
                == b.listed()[i] by {
                a.lemma_entry(i);
                b.lemma_entry(i);
                assert(a.keys_in_order()[i] == b.keys_in_order()[i]);
            }
            assert(a.listed() =~= b.listed());
        }
        if a.listed() == b.listed() {
            assert(a.entries@.len() == a.listed().len());
            assert(b.entries@.len() == b.listed().len());
            assert forall|i: int| 0 <= i < a.entries@.len() implies (#[trigger] a.entries@[i]).0@
                == b.entries@[i].0@ && a.entries@[i].1 == b.entries@[i].1 by {
                assert(a.listed()[i] == b.listed()[i]);
            }
            assert forall|t: Seq<char>| a@.dom().contains(t) <==> b@.dom().contains(t) by {
                if a@.dom().contains(t) {
                    let k = a.lemma_has_entry(t);
                    b.lemma_entry(k);
                }
                if b@.dom().contains(t) {
                    let k = b.lemma_has_entry(t);
                    a.lemma_entry(k);
                }
            }
            assert forall|t: Seq<char>| a@.dom().contains(t) implies a@[t] == b@[t] by {
                let k = a.lemma_has_entry(t);
                b.lemma_entry(k);
            }
            assert(a@ =~= b@);
        }
    }

    /// Each entry is where its text is looked for.
    proof fn lemma_entry(self, i: int)
        requires
            self.wf(),
            0 <= i < self.entries@.len(),
        ensures
            self@.dom().contains(self.entries@[i].0@),
            self@[self.entries@[i].0@] == self.entries@[i].1,
            entry_place(self.entries@, self.entries@[i].0@, 0) == i,
    {
        lemma_entry_place(self.entries@, self.entries@[i].0@, 0);
    }

    /// Each text of the map has an entry.
    proof fn lemma_has_entry(self, key: Seq<char>) -> (i: int)
        requires
            self@.dom().contains(key),
        ensures
            0 <= i < self.entries@.len(),
            self.entries@[i].0@ == key,
            self@[key] == self.entries@[i].1,
    {
        lemma_entry_place(self.entries@, key, 0);
        entry_place(self.entries@, key, 0)
    }

    /// The map has as many texts as the list has entries.
    proof fn lemma_size(self)
        requires
            self.wf(),
        ensures
            self@.dom().finite(),
            self@.dom().len() == self.entries@.len(),
            self.keys_in_order().no_duplicates(),
            self@.dom() == self.keys_in_order().to_set(),
    {
        let keys = self.keys_in_order();
        assert(keys.no_duplicates());
        keys.unique_seq_to_set();
        assert(self@.dom() =~= keys.to_set()) by {
            assert forall|key: Seq<char>| self@.dom().contains(key) implies keys.to_set().contains(
                key,
            ) by {
                let i = self.lemma_has_entry(key);
                assert(keys[i] == key);
            }
            assert forall|key: Seq<char>| keys.to_set().contains(key) implies self@.dom().contains(
                key,
            ) by {
                let i = choose|i: int| 0 <= i < keys.len() && keys[i] == key;
                self.lemma_entry(i);
            }
        }
    }

    /// A map has only so many texts.
    pub proof fn lemma_finite(self)
        requires
            self.wf(),
        ensures
            self@.dom().finite(),
    {
        self.lemma_size();
    }

    pub fn new() -> (r: Self)
        ensures
            r.wf(),
            r@ == Map::<Seq<char>, V>::empty(),
    {
        let r = TextMap { entries: Vec::new() };
        assert(r@ =~= Map::<Seq<char>, V>::empty());
        r
    }

    /// The place of a text in the list.
    fn find(&self, key: &str) -> (r: Option<usize>)
        ensures
            r matches Some(i) ==> i < self.entries@.len() && self.entries@[i as int].0@ == key@
                && entry_place(self.entries@, key@, 0) == i,
            r is None ==> entry_place(self.entries@, key@, 0) >= self.entries@.len() && forall|
                i: int,
            |
                0 <= i < self.entries@.len() ==> (#[trigger] self.entries@[i]).0@ != key@,
    {
        for i in 0..self.entries.len()
            invariant
                entry_place(self.entries@, key@, 0) == entry_place(self.entries@, key@, i as int),
                forall|j: int| 0 <= j < i ==> (#[trigger] self.entries@[j]).0@ != key@,
        {
            if same(self.entries[i].0.as_str(), key) {
                return Some(i);
            }
        }
        None
    }

    pub fn entry(&self, key: &str) -> (r: Option<&V>)
        ensures
            r is Some <==> self@.dom().contains(key@),
            r matches Some(value) ==> *value == self@[key@],
    {
        match self.find(key) {
            Some(i) => Some(&self.entries[i].1),
            None => None,
        }
    }

    pub fn contains(&self, key: &str) -> (r: bool)
        ensures
            r == self@.dom().contains(key@),
    {
        self.find(key).is_some()
    }

    pub fn len(&self) -> (r: usize)
        requires
            self.wf(),
        ensures
            r == self@.dom().len(),
            self@.dom().finite(),
    {
        proof {
            self.lemma_size();
        }
        self.entries.len()
    }

    pub fn is_empty(&self) -> (r: bool)
        ensures
            r == (self@ == Map::<Seq<char>, V>::empty()),
    {
        let r = self.entries.len() == 0;
        proof {
            if r {
                assert(self@ =~= Map::<Seq<char>, V>::empty());
            } else {
                let key = self.entries@[0].0@;
                lemma_entry_place(self.entries@, key, 0);
                assert(self@.dom().contains(key));
            }
        }
        r
    }

    /// Sets the value of a text.
    pub fn insert(&mut self, key: &str, value: V)
        requires
            old(self).wf(),
        ensures
            final(self).wf(),
            final(self)@ == old(self)@.insert(key@, value),
    {
        let ghost before = *self;
        match self.find(key) {
            Some(i) => {
                let name = self.entries[i].0.clone();
                self.entries.set(i, (name, value));
                proof {
                    let after = *self;
                    assert forall|k: int| 0 <= k < after.entries@.len() implies (
                    #[trigger] after.entries@[k]).0@ == before.entries@[k].0@ by {}
                    assert(after.wf());
                    assert(after@ =~= before@.insert(key@, value)) by {
                        assert forall|t: Seq<char>|
                            after@.dom().contains(t) <==> before@.insert(
                                key@,
                                value,
                            ).dom().contains(t) by {
                            if after@.dom().contains(t) {
                                let k = after.lemma_has_entry(t);
                                before.lemma_entry(k);
                            }
                            if before@.dom().contains(t) {
                                let k = before.lemma_has_entry(t);
                                after.lemma_entry(k);
                            }
                            after.lemma_entry(i as int);
                        }
                        assert forall|t: Seq<char>| after@.dom().contains(t) implies after@[t]
                            == before@.insert(key@, value)[t] by {
                            let k = after.lemma_has_entry(t);
                            before.lemma_entry(k);
                        }
                    }
                }
            },
            None => {
                let mut place: usize = 0;
                while place < self.entries.len() && comes_first(
                    self.entries[place].0.as_str(),
                    key,
                )
                    invariant
                        place <= self.entries@.len(),
                        forall|j: int|
                            0 <= j < place ==> text_le((#[trigger] self.entries@[j]).0@, key@),
                    decreases self.entries.len() - place,
                {
                    place = place + 1;
                }
                self.entries.insert(place, (key.to_owned(), value));
                proof {
                    let after = *self;
                    let at = place as int;
                    assert forall|k: int| 0 <= k < after.entries@.len() && k != at implies (
                    #[trigger] after.entries@[k]) == before.entries@[if k < at {
                        k
                    } else {
                        k - 1
                    }] by {}
                    assert forall|k: int| at <= k < before.entries@.len() implies text_le(
                        key@,
                        (#[trigger] before.entries@[k]).0@,
                    ) by {
                        law_texts_compare(key@, before.entries@[at].0@);
                        if at < k {
                            law_texts_chain(
                                key@,
                                before.entries@[at].0@,
                                before.entries@[k].0@,
                            );
                        }
                    }
                    assert(after.wf());
                    assert(after@ =~= before@.insert(key@, value)) by {
                        after.lemma_entry(at);
                        assert forall|t: Seq<char>|
                            after@.dom().contains(t) <==> before@.insert(
                                key@,
                                value,
                            ).dom().contains(t) by {
                            if after@.dom().contains(t) {
                                let k = after.lemma_has_entry(t);
                                if k < at {
                                    before.lemma_entry(k);
                                } else if k > at {
                                    before.lemma_entry(k - 1);
                                }
                            }
                            if before@.dom().contains(t) {
                                let k = before.lemma_has_entry(t);
                                after.lemma_entry(
                                    if k < at {
                                        k
                                    } else {
                                        k + 1
                                    },
                                );
                            }
                        }
                        assert forall|t: Seq<char>| after@.dom().contains(t) implies after@[t]
                            == before@.insert(key@, value)[t] by {
                            let k = after.lemma_has_entry(t);
                            if k < at {
                                before.lemma_entry(k);
                            } else if k > at {
                                before.lemma_entry(k - 1);
                            }
                        }
                    }
                }
            },
        }
    }

    /// Takes a text out.
    pub fn remove(&mut self, key: &str)
        requires
            old(self).wf(),
        ensures
            final(self).wf(),
            final(self)@ == old(self)@.remove(key@),
    {
        let ghost before = *self;
        match self.find(key) {
            None => {
                assert(before@.remove(key@) =~= before@);
            },
            Some(i) => {
                self.entries.remove(i);
                proof {
                    let after = *self;
                    assert forall|k: int| 0 <= k < after.entries@.len() implies (
                    #[trigger] after.entries@[k]) == before.entries@[if k < i {
                        k
                    } else {
                        k + 1
                    }] by {}
                    assert(after.wf());
                    assert(after@ =~= before@.remove(key@)) by {
                        assert forall|t: Seq<char>|
                            after@.dom().contains(t) <==> before@.remove(key@).dom().contains(
                                t,
                            ) by {
                            if after@.dom().contains(t) {
                                let k = after.lemma_has_entry(t);
                                before.lemma_entry(
                                    if k < i {
                                        k
                                    } else {
                                        k + 1
                                    },
                                );
                            }
                            if before@.remove(key@).dom().contains(t) {
                                let k = before.lemma_has_entry(t);
                                assert(k != i);
                                after.lemma_entry(
                                    if k < i {
                                        k
                                    } else {
                                        k - 1
                                    },
                                );
                            }
                        }
                        assert forall|t: Seq<char>| after@.dom().contains(t) implies after@[t]
                            == before@.remove(key@)[t] by {
                            let k = after.lemma_has_entry(t);
                            before.lemma_entry(
                                if k < i {
                                    k
                                } else {
                                    k + 1
                                },
                            );
                        }
                    }
                }
            },
        }
    }

    /// The texts of the map, each once.
    pub fn keys(&self) -> (r: Vec<String>)
        requires
            self.wf(),
        ensures
            texts(r@).no_duplicates(),
            texts(r@).to_set() == self@.dom(),
    {
        let mut out: Vec<String> = Vec::new();
        for i in 0..self.entries.len()
            invariant
                texts(out@) == self.keys_in_order().take(i as int),
        {
            let ghost before = out@;
            out.push(self.entries[i].0.clone());
            proof {
                assert(texts(out@) =~= texts(before).push(self.keys_in_order()[i as int]));
                assert(texts(out@) =~= self.keys_in_order().take(i + 1));
            }
        }
        proof {
            self.lemma_size();
            assert(self.keys_in_order().take(self.entries@.len() as int) =~= self.keys_in_order());
        }
        out
    }
}

impl<V: Copy> TextMap<V> {
    pub fn get(&self, key: &str) -> (r: Option<V>)
        ensures
            r == (if self@.dom().contains(key@) {
                Some(self@[key@])
            } else {
                None
            }),
    {
        match self.find(key) {
            Some(i) => Some(self.entries[i].1),
            None => None,
        }
    }
}

impl TextMap<u64> {
    /// A text whose number is the least.
    pub fn least(&self) -> (r: Option<String>)
        requires
            self.wf(),
        ensures
            self@.dom().finite(),
            r is None <==> self@ == Map::<Seq<char>, u64>::empty(),
            r matches Some(key) ==> self@.dom().contains(key@) && forall|other: Seq<char>|
                #[trigger]
                self@.dom().contains(other) ==> self@[key@] <= self@[other],
    {
        proof {
            self.lemma_size();
        }
        if self.entries.len() == 0 {
            assert(self@ =~= Map::<Seq<char>, u64>::empty());
            return None;
        }
        let mut best: usize = 0;
        for i in 1..self.entries.len()
            invariant
                best < self.entries@.len(),
                forall|j: int|
                    0 <= j < i ==> self.entries@[best as int].1 <= (
                    #[trigger] self.entries@[j]).1,
        {
            if self.entries[i].1 < self.entries[best].1 {
                best = i;
            }
        }
        proof {
            self.lemma_entry(best as int);
            assert forall|other: Seq<char>| #[trigger]
                self@.dom().contains(other) implies self@[self.entries@[best as int].0@]
                <= self@[other] by {
                let k = self.lemma_has_entry(other);
            }
        }
        Some(self.entries[best].0.clone())
    }
}

/// A set of texts.
#[derive(Debug, PartialEq, Eq)]
pub struct TextSet {
    map: TextMap<bool>,
}

impl View for TextSet {
    type V = Set<Seq<char>>;

    closed spec fn view(&self) -> Set<Seq<char>> {
        self.map@.dom()
    }
}

impl TextSet {
    pub closed spec fn wf(self) -> bool {
        &&& self.map.wf()
        &&& forall|text: Seq<char>| #[trigger]
            self.map@.dom().contains(text) ==> self.map@[text]
    }

    /// The list of the texts.
    pub closed spec fn listed(self) -> Seq<(Seq<char>, bool)> {
        self.map.listed()
    }

    /// Two sets hold the same just where they list the same.
    pub proof fn law_listed_by_contents(a: Self, b: Self)
        requires
            a.wf(),
            b.wf(),
        ensures
            a@ == b@ <==> a.listed() == b.listed(),
    {
        TextMap::law_listed_by_contents(a.map, b.map);
        if a@ == b@ {
            assert forall|text: Seq<char>| a.map@.dom().contains(text) implies a.map@[text]
                == b.map@[text] by {
                assert(b.map@.dom().contains(text));
            }
            assert(a.map@ =~= b.map@);
        }
    }

    pub fn new() -> (r: Self)
        ensures
            r.wf(),
            r@ == Set::<Seq<char>>::empty(),
    {
        let r = TextSet { map: TextMap::new() };
        assert(r@ =~= Set::<Seq<char>>::empty());
        r
    }

    pub fn contains(&self, text: &str) -> (r: bool)
        ensures
            r == self@.contains(text@),
    {
        self.map.contains(text)
    }

    pub fn is_empty(&self) -> (r: bool)
        ensures
            r == (self@ == Set::<Seq<char>>::empty()),
    {
        let r = self.map.is_empty();
        proof {
            if r {
                assert(self@ =~= Set::<Seq<char>>::empty());
            } else if self@ == Set::<Seq<char>>::empty() {
                assert(self.map@ =~= Map::<Seq<char>, bool>::empty());
            }
        }
        r
    }

    pub fn insert(&mut self, text: &str)
        requires
            old(self).wf(),
        ensures
            final(self).wf(),
            final(self)@ == old(self)@.insert(text@),
    {
        self.map.insert(text, true);
        assert(self@ =~= old(self)@.insert(text@));
    }

    pub fn remove(&mut self, text: &str)
        requires
            old(self).wf(),
        ensures
            final(self).wf(),
            final(self)@ == old(self)@.remove(text@),
    {
        self.map.remove(text);
        assert(self@ =~= old(self)@.remove(text@));
    }

    /// The set of the texts of a list.
    pub fn from_list(list: &Vec<String>) -> (r: Self)
        ensures
            r.wf(),
            r@ == texts(list@).to_set(),
    {
        let mut out = TextSet::new();
        assert(texts(list@).take(0).to_set() =~= Set::<Seq<char>>::empty());
        for i in 0..list.len()
            invariant
                out.wf(),
                out@ == texts(list@).take(i as int).to_set(),
        {
            out.insert(list[i].as_str());
            proof {
                let all = texts(list@);
                assert(all.take(i + 1) =~= all.take(i as int).push(all[i as int]));
                assert(all.take(i + 1).to_set() =~= all.take(i as int).to_set().insert(
                    all[i as int],
                )) by {
                    let a = all.take(i as int);
                    let b = all.take(i + 1);
                    assert forall|t: Seq<char>| b.to_set().contains(t) <==> a.to_set().insert(
                        all[i as int],
                    ).contains(t) by {
                        if b.contains(t) {
                            let k = choose|k: int| 0 <= k < b.len() && b[k] == t;
                            if k < i {
                                assert(a[k] == t);
                            }
                        }
                        if a.contains(t) {
                            let k = choose|k: int| 0 <= k < a.len() && a[k] == t;
                            assert(b[k] == t);
                        }
                        assert(b[i as int] == all[i as int]);
                    }
                }
            }
        }
        assert(texts(list@).take(list@.len() as int) =~= texts(list@));
        out
    }

    /// The texts of the set, each once.
    pub fn items(&self) -> (r: Vec<String>)
        requires
            self.wf(),
        ensures
            texts(r@).no_duplicates(),
            texts(r@).to_set() == self@,
    {
        self.map.keys()
    }
}

} // verus!
