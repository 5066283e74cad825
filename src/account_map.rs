//! A map keyed by account identity, held as a list of entries with distinct
//! keys.
use vstd::prelude::*;

verus! {

/// A finite map from account identities (compared by their characters) to
/// values. Each key occurs in at most one entry.
pub struct AccountMap<V> {
    entries: Vec<(String, V)>,
    contents: Ghost<Map<Seq<char>, V>>,
}

impl<V> View for AccountMap<V> {
    type V = Map<Seq<char>, V>;

    closed spec fn view(&self) -> Map<Seq<char>, V> {
        self.contents@
    }
}

impl<V> AccountMap<V> {
    /// The entries hold distinct keys, and they are exactly the contents.
    pub closed spec fn well_formed(&self) -> bool {
        &&& forall|i: int, j: int|
            0 <= i < j < self.entries@.len() ==> self.entries@[i].0@ != self.entries@[j].0@
        &&& forall|k: Seq<char>|
            self.contents@.contains_key(k) <==> exists|i: int|
                0 <= i < self.entries@.len() && #[trigger] self.entries@[i].0@ == k
        &&& forall|i: int|
            0 <= i < self.entries@.len() ==> #[trigger] self.contents@[self.entries@[i].0@]
                == self.entries@[i].1
    }

    /// An empty map.
    pub fn new() -> (r: Self)
        ensures
            r.well_formed(),
            r@ == Map::<Seq<char>, V>::empty(),
    {
        AccountMap { entries: Vec::new(), contents: Ghost(Map::empty()) }
    }

    /// Position of the entry for `key`, if there is one.
    fn find(&self, key: &String) -> (r: Option<usize>)
        requires
            self.well_formed(),
        ensures
            match r {
                Some(i) => i < self.entries@.len() && self.entries@[i as int].0@ == key@,
                None => !self@.contains_key(key@),
            },
    {
        let mut i: usize = 0;
        while i < self.entries.len()
            invariant
                self.well_formed(),
                i <= self.entries@.len(),
                forall|j: int| 0 <= j < i ==> self.entries@[j].0@ != key@,
            decreases self.entries@.len() - i,
        {
            if self.entries[i].0 == *key {
                return Some(i);
            }
            i = i + 1;
        }
        None
    }

    /// The value held for `key`, if any.
    pub fn get(&self, key: &String) -> (r: Option<&V>)
        requires
            self.well_formed(),
        ensures
            match r {
                Some(v) => self@.contains_key(key@) && *v == self@[key@],
                None => !self@.contains_key(key@),
            },
    {
        match self.find(key) {
            Some(i) => Some(&self.entries[i].1),
            None => None,
        }
    }

    /// Whether `key` has a value.
    pub fn contains_key(&self, key: &String) -> (r: bool)
        requires
            self.well_formed(),
        ensures
            r == self@.contains_key(key@),
    {
        self.find(key).is_some()
    }

    /// Sets the value of `key`, replacing any earlier one.
    pub fn insert(&mut self, key: String, value: V)
        requires
            old(self).well_formed(),
        ensures
            final(self).well_formed(),
            final(self)@ == old(self)@.insert(key@, value),
    {
        let ghost k = key@;
        let ghost v = value;
        let ghost before = self.entries@;
        let ghost m = self.contents@;
        let ghost mut pos: int = before.len() as int;
        match self.find(&key) {
            Some(i) => {
                proof {
                    pos = i as int;
                }
                self.entries.set(i, (key, value));
                proof {
                    assert forall|a: int| 0 <= a < self.entries@.len() implies
                        #[trigger] self.entries@[a].0@ == before[a].0@ by {}
                }
            },
            None => {
                self.entries.push((key, value));
                proof {
                    assert forall|a: int| 0 <= a < before.len() implies
                        #[trigger] self.entries@[a] == before[a] by {}
                }
            },
        }
        self.contents = Ghost(m.insert(k, v));
        proof {
            assert forall|q: Seq<char>|
                self.contents@.contains_key(q) implies exists|a: int|
                    0 <= a < self.entries@.len() && #[trigger] self.entries@[a].0@ == q by {
                if q != k {
                    let a = choose|a: int| 0 <= a < before.len() && #[trigger] before[a].0@ == q;
                    assert(self.entries@[a].0@ == q);
                } else {
                    assert(self.entries@[pos].0@ == k);
                }
            }
        }
    }

    /// Removes the value of `key`, if any.
    pub fn remove(&mut self, key: &String)
        requires
            old(self).well_formed(),
        ensures
            final(self).well_formed(),
            final(self)@ == old(self)@.remove(key@),
    {
        let ghost before = self.entries@;
        let ghost m = self.contents@;
        match self.find(key) {
            Some(i) => {
                self.entries.remove(i);
                self.contents = Ghost(m.remove(key@));
                proof {
                    assert forall|a: int| 0 <= a < self.entries@.len() implies
                        #[trigger] self.entries@[a] == before[if a < i { a } else { a + 1 }] by {}
                    assert forall|q: Seq<char>|
                        self.contents@.contains_key(q) implies exists|a: int|
                            0 <= a < self.entries@.len() && #[trigger] self.entries@[a].0@ == q by {
                        let b = choose|b: int| 0 <= b < before.len() && #[trigger] before[b].0@ == q;
                        if b < i {
                            assert(self.entries@[b].0@ == q);
                        } else {
                            assert(self.entries@[b - 1].0@ == q);
                        }
                    }
                }
            },
            None => {
                assert(m.remove(key@) =~= m);
            },
        }
    }
}

} // verus!
