//! A map keyed by a pair of texts, with constant-time lookup.

use vstd::prelude::*;
use vstd::hash_map::StringHashMap;

verus! {

/// A map from pairs of texts to numbers.
pub struct PairIndex {
    /// The place in `rows` of each first text that has an entry.
    slots: StringHashMap<usize>,
    /// For each such first text, the number of each second text.
    rows: Vec<StringHashMap<usize>>,
}

impl View for PairIndex {
    type V = Map<(Seq<char>, Seq<char>), usize>;

    closed spec fn view(&self) -> Map<(Seq<char>, Seq<char>), usize> {
        Map::new(
            |p: (Seq<char>, Seq<char>)|
                self.slots@.contains_key(p.0) && self.slots@[p.0] < self.rows.len()
                    && self.rows@[self.slots@[p.0] as int]@.contains_key(p.1),
            |p: (Seq<char>, Seq<char>)| self.rows@[self.slots@[p.0] as int]@[p.1],
        )
    }
}

impl PairIndex {
    /// Whether the map is in order.
    pub closed spec fn wf(&self) -> bool {
        &&& forall|c: Seq<char>| #[trigger]
            self.slots@.contains_key(c) ==> self.slots@[c] < self.rows.len()
        &&& forall|c: Seq<char>, d: Seq<char>|
            #![trigger self.slots@[c], self.slots@[d]]
            self.slots@.contains_key(c) && self.slots@.contains_key(d) && c != d
                ==> self.slots@[c] != self.slots@[d]
    }

    /// The empty map.
    pub fn new() -> (m: PairIndex)
        ensures
            m.wf(),
            m@ == Map::<(Seq<char>, Seq<char>), usize>::empty(),
    {
        let m = PairIndex { slots: StringHashMap::new(), rows: Vec::new() };
        assert(m@ =~= Map::<(Seq<char>, Seq<char>), usize>::empty());
        m
    }

    /// The number of a pair, if it has one.
    pub fn get(&self, first: &str, second: &str) -> (r: Option<usize>)
        requires
            self.wf(),
        ensures
            r == (if self@.contains_key((first@, second@)) {
                Some(self@[(first@, second@)])
            } else {
                None
            }),
    {
        match self.slots.get(first) {
            Some(slot) => match self.rows[*slot].get(second) {
                Some(n) => Some(*n),
                None => None,
            },
            None => None,
        }
    }

    /// Gives a pair a number, in place of the one it may have had.
    pub fn insert(&mut self, first: String, second: String, number: usize)
        requires
            old(self).wf(),
        ensures
            final(self).wf(),
            final(self)@ == old(self)@.insert((first@, second@), number),
    {
        let found: Option<usize> = match self.slots.get(first.as_str()) {
            Some(slot) => Some(*slot),
            None => None,
        };
        match found {
            Some(slot) => {
                self.rows[slot].insert(second, number);
                assert(self@ =~= old(self)@.insert((first@, second@), number)) by {
                    assert forall|p: (Seq<char>, Seq<char>)|
                        self@.contains_key(p) <==> old(self)@.insert(
                            (first@, second@),
                            number,
                        ).contains_key(p) by {
                        if self.slots@.contains_key(p.0) && p.0 != first@ {
                            assert(self.slots@[p.0] != self.slots@[first@]);
                        }
                    }
                    assert forall|p: (Seq<char>, Seq<char>)| self@.contains_key(p) implies self@[p]
                        == old(self)@.insert((first@, second@), number)[p] by {
                        if p.0 != first@ {
                            assert(self.slots@[p.0] != self.slots@[first@]);
                        }
                    }
                }
            },
            None => {
                let mut row: StringHashMap<usize> = StringHashMap::new();
                row.insert(second, number);
                let slot = self.rows.len();
                self.rows.push(row);
                self.slots.insert(first, slot);
                assert(self@ =~= old(self)@.insert((first@, second@), number)) by {
                    assert forall|p: (Seq<char>, Seq<char>)|
                        self@.contains_key(p) <==> old(self)@.insert(
                            (first@, second@),
                            number,
                        ).contains_key(p) by {
                        if p.0 != first@ && old(self).slots@.contains_key(p.0) {
                            assert(old(self).slots@[p.0] < old(self).rows.len());
                        }
                    }
                    assert forall|p: (Seq<char>, Seq<char>)| self@.contains_key(p) implies self@[p]
                        == old(self)@.insert((first@, second@), number)[p] by {
                        if p.0 != first@ {
                            assert(old(self).slots@[p.0] < old(self).rows.len());
                        }
                    }
                }
            },
        }
    }
}

} // verus!
