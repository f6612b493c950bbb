//! The peer registry: one entry per currently connected peer, mapping the
//! peer id the transport assigned to the display name the peer announced.
//!
//! Entries keep announcement order: a round's score panel and the lobby list
//! walk the registry in insertion order, not in numeric id order. Inserting
//! an id that is already present replaces its name in place; erasing keeps
//! the order of the rest.

use vstd::prelude::*;

verus! {

/// Mathematical model of a registry: peer ids and display names, in
/// announcement order.
pub type RegistryModel = Seq<(u64, Seq<char>)>;

/// No peer id occurs twice.
pub open spec fn entries_wf(s: RegistryModel) -> bool {
    forall|i: int, j: int| 0 <= i < j < s.len() ==> #[trigger] s[i].0 != #[trigger] s[j].0
}

/// Whether some entry carries `id`.
pub open spec fn has_peer(s: RegistryModel, id: u64) -> bool {
    exists|i: int| 0 <= i < s.len() && #[trigger] s[i].0 == id
}

/// Position of the entry carrying `id` (unique when `entries_wf` holds).
pub open spec fn peer_index(s: RegistryModel, id: u64) -> int {
    choose|i: int| 0 <= i < s.len() && #[trigger] s[i].0 == id
}

/// Display name registered for `id`.
pub open spec fn peer_name(s: RegistryModel, id: u64) -> Seq<char> {
    s[peer_index(s, id)].1
}

/// Registry of connected peers, in announcement order.
pub struct PeerRegistry {
    entries: Vec<(u64, String)>,
}

impl View for PeerRegistry {
    type V = Seq<(u64, Seq<char>)>;

    closed spec fn view(&self) -> Seq<(u64, Seq<char>)> {
        Seq::new(self.entries@.len(), |i: int| (self.entries@[i].0, self.entries@[i].1@))
    }
}

impl PeerRegistry {
    /// No id occurs twice.
    pub open spec fn wf(self) -> bool {
        entries_wf(self@)
    }

    /// Whether some entry carries `id`.
    pub open spec fn contains_id(self, id: u64) -> bool {
        has_peer(self@, id)
    }

    /// Position of the entry carrying `id` (unique when `wf()` holds).
    pub open spec fn index_of(self, id: u64) -> int {
        peer_index(self@, id)
    }

    /// Display name registered for `id`.
    pub open spec fn name_of(self, id: u64) -> Seq<char> {
        peer_name(self@, id)
    }

    pub fn new() -> (r: Self)
        ensures
            r@.len() == 0,
            r.wf(),
    {
        PeerRegistry { entries: Vec::new() }
    }

    pub fn len(&self) -> (n: usize)
        ensures
            n == self@.len(),
    {
        self.entries.len()
    }

    /// Position of `id`'s entry, if any.
    pub fn position(&self, id: u64) -> (r: Option<usize>)
        requires
            self.wf(),
        ensures
            match r {
                Some(i) => self.contains_id(id) && i == self.index_of(id) && i < self@.len(),
                None => !self.contains_id(id),
            },
    {
        let n = self.entries.len();
        let mut k: usize = 0;
        while k < n
            invariant
                n == self@.len(),
                k <= n,
                self.wf(),
                forall|i: int| 0 <= i < k ==> #[trigger] self@[i].0 != id,
            decreases n - k,
        {
            if self.entries[k].0 == id {
                proof {
                    assert(self@[k as int].0 == id);
                    let w = self.index_of(id);
                    assert(0 <= w < self@.len() && self@[w].0 == id);
                    assert(w == k as int);
                }
                return Some(k);
            }
            k += 1;
        }
        None
    }

    pub fn contains(&self, id: u64) -> (r: bool)
        requires
            self.wf(),
        ensures
            r == self.contains_id(id),
    {
        self.position(id).is_some()
    }

    /// Id of the `i`-th entry, in announcement order.
    pub fn id_at(&self, i: usize) -> (id: u64)
        requires
            i < self@.len(),
        ensures
            id == self@[i as int].0,
    {
        self.entries[i].0
    }

    /// Display name of the `i`-th entry, in announcement order.
    pub fn name_at(&self, i: usize) -> (name: &String)
        requires
            i < self@.len(),
        ensures
            name@ == self@[i as int].1,
    {
        &self.entries[i].1
    }

    /// Record that peer `id` announced itself as `name`. A peer that
    /// re-announces keeps its position and gets the new name; a new peer is
    /// appended.
    pub fn insert(&mut self, id: u64, name: String)
        requires
            old(self).wf(),
        ensures
            final(self).wf(),
            final(self).contains_id(id),
            old(self).contains_id(id) ==> final(self)@ == old(self)@.update(
                old(self).index_of(id),
                (id, name@),
            ),
            !old(self).contains_id(id) ==> final(self)@ == old(self)@.push((id, name@)),
    {
        match self.position(id) {
            Some(i) => {
                self.entries[i] = (id, name);
                proof {
                    assert(self@ =~= old(self)@.update(old(self).index_of(id), (id, name@)));
                    assert(self@[old(self).index_of(id)].0 == id);
                }
            }
            None => {
                self.entries.push((id, name));
                proof {
                    assert(self@ =~= old(self)@.push((id, name@)));
                    assert(self@[self@.len() - 1].0 == id);
                }
            }
        }
    }

    /// Drop the entry of peer `id`, if any; the order of the rest stays.
    pub fn erase(&mut self, id: u64)
        requires
            old(self).wf(),
        ensures
            final(self).wf(),
            !final(self).contains_id(id),
            old(self).contains_id(id) ==> final(self)@ == old(self)@.remove(
                old(self).index_of(id),
            ),
            !old(self).contains_id(id) ==> final(self)@ == old(self)@,
    {
        match self.position(id) {
            Some(i) => {
                self.entries.remove(i);
                proof {
                    let w = old(self).index_of(id);
                    assert(self@ =~= old(self)@.remove(w));
                    assert forall|k: int| 0 <= k < self@.len() implies #[trigger] self@[k].0
                        != id by {
                        if k < w {
                            assert(self@[k] == old(self)@[k]);
                        } else {
                            assert(self@[k] == old(self)@[k + 1]);
                        }
                    }
                }
            }
            None => {}
        }
    }

    /// Forget every peer.
    pub fn clear(&mut self)
        ensures
            final(self)@.len() == 0,
            final(self).wf(),
    {
        self.entries.clear();
    }
}

} // verus!
