//! The registry of known peers, keyed by identifier.
use vstd::prelude::*;

use crate::peer::{Peer, PeerView};

verus! {

/// Every peer heard so far, at most one record per identifier.
///
/// Records are replaced, never removed.
pub struct PeerRegistry {
    entries: Vec<Peer>,
    model: Ghost<Map<Seq<char>, PeerView>>,
}

impl View for PeerRegistry {
    type V = Map<Seq<char>, PeerView>;

    closed spec fn view(&self) -> Map<Seq<char>, PeerView> {
        self.model@
    }
}

impl PeerRegistry {
    /// The entries agree with the map: one entry per key, each under its own id.
    pub closed spec fn wf(&self) -> bool {
        &&& forall|i: int|
            0 <= i < self.entries.len() ==> {
                &&& #[trigger] self.model@.contains_key(self.entries[i].id@)
                &&& self.model@[self.entries[i].id@] == self.entries[i]@
            }
        &&& forall|k: Seq<char>|
            #[trigger] self.model@.contains_key(k) ==> exists|i: int|
                0 <= i < self.entries.len() && self.entries[i].id@ == k
        &&& forall|i: int, j: int|
            0 <= i < j < self.entries.len() ==> self.entries[i].id@ != self.entries[j].id@
    }

    /// A registry that knows no peer.
    pub fn new() -> (r: PeerRegistry)
        ensures
            r.wf(),
            r@ == Map::<Seq<char>, PeerView>::empty(),
    {
        PeerRegistry { entries: Vec::new(), model: Ghost(Map::empty()) }
    }

    /// Every record, one per identifier.
    pub fn records(&self) -> (r: &[Peer])
        requires
            self.wf(),
        ensures
            forall|i: int|
                0 <= i < r@.len() ==> #[trigger] self@.contains_key(r@[i].id@) && self@[r@[i].id@]
                    == r@[i]@,
            forall|k: Seq<char>|
                #[trigger] self@.contains_key(k) ==> exists|i: int| 0 <= i < r@.len() && r@[i].id@ == k,
            forall|i: int, j: int| 0 <= i < j < r@.len() ==> r@[i].id@ != r@[j].id@,
    {
        self.entries.as_slice()
    }

    fn index_of(&self, id: &String) -> (r: Option<usize>)
        requires
            self.wf(),
        ensures
            match r {
                Some(i) => i < self.entries.len() && self.entries[i as int].id@ == id@,
                None => !self@.contains_key(id@),
            },
    {
        let mut i: usize = 0;
        while i < self.entries.len()
            invariant
                self.wf(),
                i <= self.entries.len(),
                forall|j: int| 0 <= j < i ==> self.entries[j].id@ != id@,
            decreases self.entries.len() - i,
        {
            if self.entries[i].id == *id {
                return Some(i);
            }
            i = i + 1;
        }
        None
    }

    /// Whether a record for `id` is present.
    pub fn contains(&self, id: &str) -> (r: bool)
        requires
            self.wf(),
        ensures
            r == self@.contains_key(id@),
    {
        let key = String::from_str(id);
        match self.index_of(&key) {
            Some(i) => {
                assert(self.model@.contains_key(self.entries[i as int].id@));
                true
            },
            None => false,
        }
    }

    /// The record for `id`, if one is present.
    pub fn get(&self, id: &str) -> (r: Option<&Peer>)
        requires
            self.wf(),
        ensures
            match r {
                Some(p) => self@.contains_key(id@) && self@[id@] == p@ && p.id@ == id@,
                None => !self@.contains_key(id@),
            },
    {
        let key = String::from_str(id);
        match self.index_of(&key) {
            Some(i) => {
                assert(self.model@.contains_key(self.entries[i as int].id@));
                Some(&self.entries[i])
            },
            None => None,
        }
    }

    /// Files `peer` under its identifier, replacing any earlier record for it.
    pub fn insert(&mut self, peer: Peer)
        requires
            old(self).wf(),
        ensures
            final(self).wf(),
            final(self)@ == old(self)@.insert(peer.id@, peer@),
    {
        let ghost old_model = self.model@;
        let ghost key = peer.id@;
        let ghost value = peer@;
        let ghost old_entries = self.entries@;
        match self.index_of(&peer.id) {
            Some(i) => {
                self.entries.set(i, peer);
                self.model = Ghost(old_model.insert(key, value));
                assert forall|k: Seq<char>| #[trigger] self.model@.contains_key(k) implies exists|j: int|
                    0 <= j < self.entries.len() && self.entries[j].id@ == k by {
                    if k != key {
                        assert(old_model.contains_key(k));
                        let w = choose|w: int| 0 <= w < old_entries.len() && old_entries[w].id@ == k;
                        assert(self.entries[w].id@ == k);
                    } else {
                        assert(self.entries[i as int].id@ == k);
                    }
                }
                assert forall|j: int| 0 <= j < self.entries.len() implies {
                    &&& #[trigger] self.model@.contains_key(self.entries[j].id@)
                    &&& self.model@[self.entries[j].id@] == self.entries[j]@
                } by {
                    if j != i {
                        assert(old_entries[j].id@ != key);
                        assert(old_model.contains_key(old_entries[j].id@));
                    }
                }
                assert forall|a: int, b: int|
                    0 <= a < b < self.entries.len() implies self.entries[a].id@
                        != self.entries[b].id@ by {
                    assert(old_entries[a].id@ != old_entries[b].id@);
                }
            },
            None => {
                self.entries.push(peer);
                self.model = Ghost(old_model.insert(key, value));
                let ghost n = self.entries.len() - 1;
                assert forall|k: Seq<char>| #[trigger] self.model@.contains_key(k) implies exists|j: int|
                    0 <= j < self.entries.len() && self.entries[j].id@ == k by {
                    if k != key {
                        assert(old_model.contains_key(k));
                        let w = choose|w: int| 0 <= w < old_entries.len() && old_entries[w].id@ == k;
                        assert(self.entries[w].id@ == k);
                    } else {
                        assert(self.entries[n].id@ == k);
                    }
                }
                assert forall|a: int, b: int|
                    0 <= a < b < self.entries.len() implies self.entries[a].id@
                        != self.entries[b].id@ by {
                    if b == n {
                        assert(old_model.contains_key(self.entries[a].id@));
                    }
                }
            },
        }
    }
}

} // verus!
