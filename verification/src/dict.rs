//! A mapping from strings to strings, kept as a list of entries in which no
//! key occurs twice.

use vstd::prelude::*;

verus! {

/// Whether no two entries of `s` have the same key.
pub open spec fn distinct_keys(s: Seq<(String, String)>) -> bool {
    forall|i: int, j: int| 0 <= i < j < s.len() ==> (#[trigger] s[i]).0@ != (#[trigger] s[j]).0@
}

/// The mapping that a list of entries denotes: each entry maps its key to
/// its value, a later entry replacing an earlier one of the same key.
pub open spec fn entries_map(s: Seq<(String, String)>) -> Map<Seq<char>, Seq<char>>
    decreases s.len(),
{
    if s.len() == 0 {
        Map::empty()
    } else {
        entries_map(s.drop_last()).insert(s.last().0@, s.last().1@)
    }
}

/// The keys of the mapping are the keys of the entries, and where no key
/// occurs twice each entry's key is mapped to that entry's value.
pub proof fn lemma_entries_map(s: Seq<(String, String)>)
    ensures
        forall|k: Seq<char>| #[trigger]
            entries_map(s).contains_key(k) <==> exists|i: int|
                0 <= i < s.len() && (#[trigger] s[i]).0@ == k,
        distinct_keys(s) ==> forall|i: int|
            0 <= i < s.len() ==> entries_map(s)[(#[trigger] s[i]).0@] == s[i].1@,
    decreases s.len(),
{
    if s.len() > 0 {
        let front = s.drop_last();
        lemma_entries_map(front);
        assert forall|k: Seq<char>| #[trigger]
            entries_map(s).contains_key(k) implies exists|i: int|
            0 <= i < s.len() && (#[trigger] s[i]).0@ == k by {
            if k == s.last().0@ {
                assert(s[s.len() - 1].0@ == k);
            } else {
                assert(entries_map(front).contains_key(k));
                let i = choose|i: int| 0 <= i < front.len() && (#[trigger] front[i]).0@ == k;
                assert(s[i].0@ == k);
            }
        }
        assert forall|k: Seq<char>|
            (exists|i: int| 0 <= i < s.len() && (#[trigger] s[i]).0@ == k) implies #[trigger]
            entries_map(s).contains_key(k) by {
            let i = choose|i: int| 0 <= i < s.len() && (#[trigger] s[i]).0@ == k;
            if i < front.len() {
                assert(front[i].0@ == k);
                assert(entries_map(front).contains_key(k));
            } else {
                assert(k == s.last().0@);
            }
        }
        if distinct_keys(s) {
            assert(distinct_keys(front)) by {
                assert forall|i: int, j: int| 0 <= i < j < front.len() implies (
                #[trigger] front[i]).0@ != (#[trigger] front[j]).0@ by {
                    assert(s[i].0@ != s[j].0@);
                }
            }
            assert forall|i: int| 0 <= i < s.len() implies entries_map(s)[(#[trigger] s[i]).0@]
                == s[i].1@ by {
                if i < front.len() {
                    assert(s[i].0@ != s[s.len() - 1].0@);
                    assert(front[i] == s[i]);
                }
            }
        }
    }
}

/// Where no key occurs twice the mapping has as many keys as there are
/// entries.
pub proof fn lemma_entries_count(s: Seq<(String, String)>)
    requires
        distinct_keys(s),
    ensures
        entries_map(s).dom().finite(),
        entries_map(s).dom().len() == s.len(),
    decreases s.len(),
{
    if s.len() > 0 {
        let front = s.drop_last();
        assert(distinct_keys(front)) by {
            assert forall|i: int, j: int| 0 <= i < j < front.len() implies (
            #[trigger] front[i]).0@ != (#[trigger] front[j]).0@ by {
                assert(s[i].0@ != s[j].0@);
            }
        }
        lemma_entries_count(front);
        lemma_entries_map(front);
        let key = s.last().0@;
        assert(!entries_map(front).dom().contains(key)) by {
            if entries_map(front).contains_key(key) {
                let i = choose|i: int| 0 <= i < front.len() && (#[trigger] front[i]).0@ == key;
                assert(s[i].0@ != s[s.len() - 1].0@);
            }
        }
        assert(entries_map(s).dom() =~= entries_map(front).dom().insert(key));
    }
}

/// A mapping from strings to strings.
#[derive(Debug)]
pub struct Dict {
    entries: Vec<(String, String)>,
}

impl View for Dict {
    type V = Map<Seq<char>, Seq<char>>;

    /// The mapping as a mathematical map from keys to values.
    open spec fn view(&self) -> Map<Seq<char>, Seq<char>> {
        entries_map(self.spec_entries())
    }
}

impl Dict {
    #[verifier::type_invariant]
    spec fn inv(self) -> bool {
        distinct_keys(self.entries@)
    }

    /// The entries in the order in which their keys were first inserted.
    pub closed spec fn spec_entries(&self) -> Seq<(String, String)> {
        self.entries@
    }

    /// The empty mapping.
    pub fn new() -> (d: Dict)
        ensures
            d@ == Map::<Seq<char>, Seq<char>>::empty(),
            d.spec_entries().len() == 0,
    {
        Dict { entries: Vec::new() }
    }

    /// The entries of the mapping, each key once.
    pub fn entries(&self) -> (entries: &Vec<(String, String)>)
        ensures
            entries@ == self.spec_entries(),
            distinct_keys(entries@),
            self@ == entries_map(entries@),
    {
        proof {
            use_type_invariant(self);
        }
        &self.entries
    }

    /// Number of keys in the mapping.
    pub fn len(&self) -> (n: usize)
        ensures
            n == self.spec_entries().len(),
            self@.dom().finite(),
            n == self@.dom().len(),
    {
        proof {
            use_type_invariant(self);
            lemma_entries_count(self.entries@);
        }
        self.entries.len()
    }

    fn position(&self, key: &String) -> (r: Option<usize>)
        ensures
            match r {
                Some(i) => i < self.spec_entries().len() && self.spec_entries()[i as int].0@
                    == key@,
                None => forall|i: int|
                    0 <= i < self.spec_entries().len() ==> (#[trigger] self.spec_entries()[i]).0@
                        != key@,
            },
    {
        let mut i: usize = 0;
        while i < self.entries.len()
            invariant
                i <= self.entries.len(),
                forall|j: int| 0 <= j < i ==> (#[trigger] self.entries@[j]).0@ != key@,
            decreases self.entries.len() - i,
        {
            if self.entries[i].0 == *key {
                return Some(i);
            }
            i = i + 1;
        }
        None
    }

    /// The value that `key` is mapped to, if it is mapped.
    pub fn get(&self, key: &str) -> (r: Option<&String>)
        ensures
            match r {
                Some(value) => self@.contains_key(key@) && self@[key@] == value@,
                None => !self@.contains_key(key@),
            },
    {
        proof {
            use_type_invariant(self);
            lemma_entries_map(self.entries@);
        }
        let owned: String = key.to_owned();
        match self.position(&owned) {
            Some(i) => {
                assert(self.entries@[i as int].0@ == key@);
                Some(&self.entries[i].1)
            },
            None => None,
        }
    }

    /// Whether `key` is mapped.
    pub fn contains_key(&self, key: &str) -> (b: bool)
        ensures
            b == self@.contains_key(key@),
    {
        self.get(key).is_some()
    }

    /// Maps `key` to `value`, replacing what `key` was mapped to, and
    /// returns the value it was mapped to before.
    pub fn insert(&mut self, key: String, value: String) -> (previous: Option<String>)
        ensures
            final(self)@ == old(self)@.insert(key@, value@),
            match previous {
                Some(p) => old(self)@.contains_key(key@) && old(self)@[key@] == p@,
                None => !old(self)@.contains_key(key@),
            },
            final(self).spec_entries().len() == old(self).spec_entries().len() + if previous
                is Some {
                0int
            } else {
                1int
            },
    {
        proof {
            use_type_invariant(&*self);
            lemma_entries_map(self.entries@);
        }
        let ghost before = self.entries@;
        let found = self.position(&key);
        let mut entries: Vec<(String, String)> = Vec::new();
        core::mem::swap(&mut self.entries, &mut entries);
        match found {
            Some(i) => {
                let previous = entries[i].1.clone();
                entries.set(i, (key, value));
                proof {
                    let after = entries@;
                    assert(distinct_keys(after)) by {
                        assert forall|a: int, b: int| 0 <= a < b < after.len() implies (
                        #[trigger] after[a]).0@ != (#[trigger] after[b]).0@ by {
                            assert(before[a].0@ != before[b].0@);
                        }
                    }
                    lemma_entries_map(after);
                    assert(entries_map(after) =~= entries_map(before).insert(key@, value@)) by {
                        assert forall|k: Seq<char>|
                            entries_map(before).insert(key@, value@).contains_key(
                                k,
                            ) implies #[trigger] entries_map(after).contains_key(k) by {
                            if k == key@ {
                                assert(after[i as int].0@ == k);
                            } else {
                                let j = choose|j: int|
                                    0 <= j < before.len() && (#[trigger] before[j]).0@ == k;
                                assert(after[j].0@ == k);
                            }
                        }
                        assert forall|k: Seq<char>| #[trigger]
                            entries_map(after).contains_key(k) implies entries_map(before).insert(
                            key@,
                            value@,
                        ).contains_key(k) && entries_map(after)[k] == entries_map(before).insert(
                            key@,
                            value@,
                        )[k] by {
                            let j = choose|j: int|
                                0 <= j < after.len() && (#[trigger] after[j]).0@ == k;
                            if j != i {
                                assert(before[j].0@ == k);
                                assert(before[j].0@ != before[i as int].0@);
                            }
                        }
                    }
                }
                self.entries = entries;
                Some(previous)
            },
            None => {
                entries.push((key, value));
                proof {
                    let after = entries@;
                    assert(after.drop_last() =~= before);
                    assert(distinct_keys(after)) by {
                        assert forall|a: int, b: int| 0 <= a < b < after.len() implies (
                        #[trigger] after[a]).0@ != (#[trigger] after[b]).0@ by {
                            if b < before.len() {
                                assert(before[a].0@ != before[b].0@);
                            } else {
                                assert(before[a].0@ != key@);
                            }
                        }
                    }
                }
                self.entries = entries;
                None
            },
        }
    }

    /// The mapping that a list of entries denotes, a later entry replacing
    /// an earlier one of the same key.
    pub fn from_entries(entries: &Vec<(String, String)>) -> (d: Dict)
        ensures
            d@ == entries_map(entries@),
    {
        let mut d = Dict::new();
        let mut i: usize = 0;
        while i < entries.len()
            invariant
                i <= entries.len(),
                d@ == entries_map(entries@.take(i as int)),
            decreases entries.len() - i,
        {
            let key = entries[i].0.clone();
            let value = entries[i].1.clone();
            proof {
                assert(entries@.take(i + 1).drop_last() =~= entries@.take(i as int));
            }
            d.insert(key, value);
            i = i + 1;
        }
        proof {
            assert(entries@.take(i as int) =~= entries@);
        }
        d
    }
}

} // verus!
