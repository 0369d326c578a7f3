//! The configuration a driver is constructed from.

use vstd::prelude::*;

verus! {

/// A mapping from keys to values, both text. The registry hands it to a
/// factory unread; its meaning is the factory's business.
///
/// The entries are kept in a vector in which no key occurs twice.
pub struct DriverConfig {
    config: Vec<(String, String)>,
}

impl DriverConfig {
    #[verifier::type_invariant]
    spec fn inv(self) -> bool {
        Self::keys_distinct(self.config@)
    }

    spec fn keys_distinct(entries: Seq<(String, String)>) -> bool {
        forall|i: int, j: int|
            0 <= i < j < entries.len() ==> (#[trigger] entries[i]).0@ != (#[trigger] entries[j]).0@
    }

    spec fn holds(entries: Seq<(String, String)>, key: Seq<char>, i: int) -> bool {
        0 <= i < entries.len() && entries[i].0@ == key
    }

    /// The mapping this configuration stands for.
    pub closed spec fn view(&self) -> Map<Seq<char>, Seq<char>> {
        Self::mapping(self.config@)
    }

    spec fn mapping(entries: Seq<(String, String)>) -> Map<Seq<char>, Seq<char>> {
        Map::new(
            |key: Seq<char>| exists|i: int| Self::holds(entries, key, i),
            |key: Seq<char>| entries[choose|i: int| Self::holds(entries, key, i)].1@,
        )
    }

    /// Replacing the entry of a key, or adding an entry for a new key, keeps
    /// the keys distinct and changes the mapping at that key alone.
    proof fn lemma_put(
        before: Seq<(String, String)>,
        after: Seq<(String, String)>,
        key: Seq<char>,
        value: Seq<char>,
        at: int,
    )
        requires
            Self::keys_distinct(before),
            0 <= at <= before.len(),
            at < before.len() ==> before[at].0@ == key && after.len() == before.len(),
            at == before.len() ==> after.len() == before.len() + 1 && forall|i: int|
                !Self::holds(before, key, i),
            after[at].0@ == key,
            after[at].1@ == value,
            forall|j: int| 0 <= j < before.len() && j != at ==> after[j] == before[j],
        ensures
            Self::keys_distinct(after),
            Self::mapping(after) == Self::mapping(before).insert(key, value),
    {
        assert forall|j: int| 0 <= j < after.len() && j != at implies (#[trigger] after[j]).0@
            != key by {
            assert(after[j] == before[j]);
            if at < before.len() {
                assert(before[j].0@ != before[at].0@);
            } else {
                assert(!Self::holds(before, key, j));
            }
        }
        assert(Self::keys_distinct(after)) by {
            assert forall|i: int, j: int| 0 <= i < j < after.len() implies (#[trigger] after[i]).0@
                != (#[trigger] after[j]).0@ by {
                if i != at && j != at {
                    assert(after[i] == before[i]);
                    assert(after[j] == before[j]);
                }
            }
        }
        let m = Self::mapping(after);
        let n = Self::mapping(before).insert(key, value);
        assert forall|k: Seq<char>| m.dom().contains(k) <==> n.dom().contains(k) by {
            if m.dom().contains(k) {
                let i = choose|i: int| Self::holds(after, k, i);
                if i != at {
                    assert(after[i] == before[i]);
                    assert(Self::holds(before, k, i));
                }
            }
            if n.dom().contains(k) {
                if k == key {
                    assert(Self::holds(after, k, at));
                } else {
                    let i = choose|i: int| Self::holds(before, k, i);
                    assert(after[i] == before[i]);
                    assert(Self::holds(after, k, i));
                }
            }
        }
        assert forall|k: Seq<char>| m.dom().contains(k) implies m[k] == n[k] by {
            let i = choose|i: int| Self::holds(after, k, i);
            if k == key {
                assert(i == at);
            } else {
                assert(after[i] == before[i]);
                let j = choose|j: int| Self::holds(before, k, j);
                assert(Self::holds(before, k, i));
                assert(i == j);
            }
        }
        assert(m =~= n);
    }

    /// The empty configuration.
    pub fn new() -> (r: Self)
        ensures
            r@ == Map::<Seq<char>, Seq<char>>::empty(),
    {
        let r = DriverConfig { config: Vec::new() };
        assert(r@ =~= Map::<Seq<char>, Seq<char>>::empty());
        r
    }

    /// The number of keys.
    pub fn len(&self) -> (r: usize)
        ensures
            r == self@.len(),
    {
        proof {
            use_type_invariant(self);
            Self::lemma_len(self.config@, Self::mapping(self.config@));
        }
        self.config.len()
    }

    proof fn lemma_len(entries: Seq<(String, String)>, m: Map<Seq<char>, Seq<char>>)
        requires
            Self::keys_distinct(entries),
            m.dom() == Set::new(|key: Seq<char>| exists|i: int| Self::holds(entries, key, i)),
        ensures
            m.dom().finite(),
            m.dom().len() == entries.len(),
        decreases entries.len(),
    {
        if entries.len() == 0 {
            assert(m.dom() =~= Set::<Seq<char>>::empty());
        } else {
            let last = entries.last();
            let rest = entries.drop_last();
            let rest_dom = Set::new(|key: Seq<char>| exists|i: int| Self::holds(rest, key, i));
            let rest_map = Map::new(|key: Seq<char>| rest_dom.contains(key), |key: Seq<char>| key);
            assert(rest_map.dom() =~= rest_dom);
            assert(Self::keys_distinct(rest)) by {
                assert forall|i: int, j: int| 0 <= i < j < rest.len() implies (#[trigger] rest[i]).0@
                    != (#[trigger] rest[j]).0@ by {
                    assert(rest[i] == entries[i]);
                    assert(rest[j] == entries[j]);
                }
            }
            Self::lemma_len(rest, rest_map);
            assert(!rest_dom.contains(last.0@)) by {
                if rest_dom.contains(last.0@) {
                    let i = choose|i: int| Self::holds(rest, last.0@, i);
                    assert(rest[i] == entries[i]);
                    assert(entries[entries.len() - 1] == last);
                }
            }
            assert(m.dom() =~= rest_dom.insert(last.0@)) by {
                assert forall|key: Seq<char>| m.dom().contains(key) implies rest_dom.insert(
                    last.0@,
                ).contains(key) by {
                    let i = choose|i: int| Self::holds(entries, key, i);
                    if i < entries.len() - 1 {
                        assert(rest[i] == entries[i]);
                        assert(Self::holds(rest, key, i));
                    }
                }
                assert forall|key: Seq<char>| rest_dom.insert(last.0@).contains(
                    key,
                ) implies m.dom().contains(key) by {
                    if key == last.0@ {
                        assert(Self::holds(entries, key, entries.len() - 1));
                    } else {
                        let i = choose|i: int| Self::holds(rest, key, i);
                        assert(rest[i] == entries[i]);
                        assert(Self::holds(entries, key, i));
                    }
                }
            }
        }
    }

    /// The position of `key` among the entries, if it is there.
    fn position(&self, key: &String) -> (r: Option<usize>)
        ensures
            match r {
                Some(i) => Self::holds(self.config@, key@, i as int),
                None => forall|i: int| !Self::holds(self.config@, key@, i),
            },
    {
        let mut i: usize = 0;
        while i < self.config.len()
            invariant
                i <= self.config.len(),
                forall|j: int| 0 <= j < i ==> self.config@[j].0@ != key@,
            decreases self.config.len() - i,
        {
            if self.config[i].0 == *key {
                return Some(i);
            }
            i += 1;
        }
        None
    }

    /// The value of `key`, if the configuration has one.
    pub fn get(&self, key: &str) -> (r: Option<&String>)
        ensures
            match r {
                Some(value) => self@.contains_key(key@) && self@[key@] == value@,
                None => !self@.contains_key(key@),
            },
    {
        let owned = key.to_owned();
        proof {
            use_type_invariant(self);
        }
        match self.position(&owned) {
            Some(i) => {
                proof {
                    let c = choose|c: int| Self::holds(self.config@, key@, c);
                    assert(c == i);
                }
                Some(&self.config[i].1)
            },
            None => None,
        }
    }

    /// Gives `key` the value `value`. Hands back the value it had before, if
    /// it had one.
    pub fn insert(&mut self, key: String, value: String) -> (r: Option<String>)
        ensures
            final(self)@ == old(self)@.insert(key@, value@),
            match r {
                Some(before) => old(self)@.contains_key(key@) && old(self)@[key@] == before@,
                None => !old(self)@.contains_key(key@),
            },
    {
        proof {
            use_type_invariant(&*self);
        }
        let ghost before = self.config@;
        let ghost (k, v) = (key@, value@);
        let found = self.position(&key);
        let mut entries: Vec<(String, String)> = Vec::new();
        core::mem::swap(&mut entries, &mut self.config);
        let r = match found {
            Some(i) => {
                proof {
                    let c = choose|c: int| Self::holds(before, key@, c);
                    assert(c == i);
                }
                let mut entry: (String, String) = (key, value);
                core::mem::swap(&mut entry, &mut entries[i]);
                proof {
                    Self::lemma_put(before, entries@, k, v, i as int);
                }
                Some(entry.1)
            },
            None => {
                entries.push((key, value));
                proof {
                    Self::lemma_put(before, entries@, k, v, before.len() as int);
                }
                None
            },
        };
        self.config = entries;
        r
    }
}

} // verus!
