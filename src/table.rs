use vstd::prelude::*;

use crate::player::{spec_occupies, MovementData, PlayerData, PlayerId, PlayerView};

verus! {

/// The remote players this client knows of, keyed by id.
pub struct PlayerTable {
    ids: Vec<PlayerId>,
    players: Vec<PlayerData>,
}

impl View for PlayerTable {
    type V = Map<PlayerId, PlayerView>;

    closed spec fn view(&self) -> Map<PlayerId, PlayerView> {
        Map::new(
            |k: PlayerId| self.ids@.contains(k),
            |k: PlayerId| self.players@[self.ids@.index_of(k)]@,
        )
    }
}

impl PlayerTable {
    /// Each id is held once, beside its player.
    pub closed spec fn wf(&self) -> bool {
        &&& self.ids@.len() == self.players@.len()
        &&& self.ids@.no_duplicates()
    }

    proof fn lemma_entry(&self, i: int)
        requires
            self.wf(),
            0 <= i < self.ids@.len(),
        ensures
            self@.contains_key(self.ids@[i]),
            self@[self.ids@[i]] == self.players@[i]@,
    {
        assert(self.ids@.contains(self.ids@[i]));
        let j = self.ids@.index_of(self.ids@[i]);
        assert(self.ids@[j] == self.ids@[i]);
    }

    proof fn lemma_dom(&self)
        requires
            self.wf(),
        ensures
            self@.dom() == self.ids@.to_set(),
            self@.len() == self.ids@.len(),
    {
        assert(self@.dom() =~= self.ids@.to_set());
        self.ids@.unique_seq_to_set();
    }

    pub fn new() -> (r: PlayerTable)
        ensures
            r.wf(),
            r@ == Map::<PlayerId, PlayerView>::empty(),
    {
        let r = PlayerTable { ids: Vec::new(), players: Vec::new() };
        assert(r@ =~= Map::<PlayerId, PlayerView>::empty());
        r
    }

    /// The number of players in the table.
    pub fn len(&self) -> (r: usize)
        requires
            self.wf(),
        ensures
            r == self@.len(),
    {
        proof {
            self.lemma_dom();
        }
        self.ids.len()
    }

    fn position(&self, id: PlayerId) -> (r: Option<usize>)
        requires
            self.wf(),
        ensures
            match r {
                Some(i) => i < self.ids@.len() && self.ids@[i as int] == id,
                None => !self@.contains_key(id),
            },
    {
        let mut i: usize = 0;
        while i < self.ids.len()
            invariant
                i <= self.ids@.len(),
                forall|j: int| 0 <= j < i ==> self.ids@[j] != id,
            decreases self.ids@.len() - i,
        {
            if self.ids[i] == id {
                return Some(i);
            }
            i = i + 1;
        }
        None
    }

    /// The player stored under `id`, if any.
    pub fn get(&self, id: PlayerId) -> (r: Option<&PlayerData>)
        requires
            self.wf(),
        ensures
            r is Some <==> self@.contains_key(id),
            r matches Some(p) ==> p@ == self@[id],
    {
        match self.position(id) {
            Some(i) => {
                proof {
                    self.lemma_entry(i as int);
                }
                Some(&self.players[i])
            },
            None => None,
        }
    }

    /// Stores `data` under `id`, replacing what was there.
    pub fn insert(&mut self, id: PlayerId, data: PlayerData)
        requires
            old(self).wf(),
        ensures
            final(self).wf(),
            final(self)@ == old(self)@.insert(id, data@),
    {
        let ghost dv = data@;
        match self.position(id) {
            Some(i) => {
                self.players.set(i, data);
                proof {
                    assert forall|k: PlayerId| #[trigger]
                        self@.contains_key(k) == old(self)@.insert(id, dv).contains_key(k) by {}
                    assert forall|j: int| 0 <= j < self.ids@.len() implies self@[self.ids@[j]]
                        == old(self)@.insert(id, dv)[self.ids@[j]] by {
                        self.lemma_entry(j);
                        old(self).lemma_entry(j);
                    }
                    assert(self@ =~= old(self)@.insert(id, dv));
                }
            },
            None => {
                self.ids.push(id);
                self.players.push(data);
                proof {
                    let n = old(self).ids@.len() as int;
                    assert(self.ids@.no_duplicates()) by {
                        assert(!old(self).ids@.contains(id));
                    }
                    assert forall|j: int| 0 <= j < self.ids@.len() implies self@[self.ids@[j]]
                        == old(self)@.insert(id, dv)[self.ids@[j]] by {
                        self.lemma_entry(j);
                        if j < n {
                            old(self).lemma_entry(j);
                        }
                    }
                    assert forall|k: PlayerId| #[trigger]
                        self@.contains_key(k) == old(self)@.insert(id, dv).contains_key(k) by {
                        assert(self.ids@[n] == id);
                        if old(self).ids@.contains(k) {
                            let j = choose|j: int| 0 <= j < n && old(self).ids@[j] == k;
                            assert(self.ids@[j] == k);
                        }
                        if self.ids@.contains(k) && k != id {
                            let j = choose|j: int| 0 <= j < n + 1 && self.ids@[j] == k;
                            assert(old(self).ids@[j] == k);
                        }
                    }
                    assert(self@ =~= old(self)@.insert(id, dv));
                }
            },
        }
    }

    /// Replaces the movement of the player stored under `id`; does nothing when there is none.
    pub fn set_movement(&mut self, id: PlayerId, movement: MovementData)
        requires
            old(self).wf(),
        ensures
            final(self).wf(),
            old(self)@.contains_key(id) ==> final(self)@ == old(self)@.insert(
                id,
                PlayerView { movement_data: movement, ..old(self)@[id] },
            ),
            !old(self)@.contains_key(id) ==> final(self)@ == old(self)@,
    {
        match self.position(id) {
            Some(i) => {
                let mut p = self.players[i].duplicate();
                p.movement_data = movement;
                proof {
                    old(self).lemma_entry(i as int);
                }
                self.insert(id, p);
            },
            None => {},
        }
    }

    /// Forgets the player stored under `id`.
    pub fn remove(&mut self, id: PlayerId)
        requires
            old(self).wf(),
        ensures
            final(self).wf(),
            final(self)@ == old(self)@.remove(id),
    {
        match self.position(id) {
            Some(i) => {
                self.ids.remove(i);
                self.players.remove(i);
                proof {
                    let o = old(self).ids@;
                    assert(self.ids@ == o.remove(i as int));
                    assert forall|a: int, b: int|
                        0 <= a < self.ids@.len() && 0 <= b < self.ids@.len() && a != b implies
                        self.ids@[a] != self.ids@[b] by {
                        let a2 = if a < i { a } else { a + 1 };
                        let b2 = if b < i { b } else { b + 1 };
                        assert(self.ids@[a] == o[a2] && self.ids@[b] == o[b2]);
                    }
                    assert forall|k: PlayerId| #[trigger]
                        self@.contains_key(k) == old(self)@.remove(id).contains_key(k) by {
                        if self.ids@.contains(k) {
                            let j = choose|j: int| 0 <= j < self.ids@.len() && self.ids@[j] == k;
                            let j2 = if j < i { j } else { j + 1 };
                            assert(o[j2] == k);
                        }
                        if k != id && o.contains(k) {
                            let j = choose|j: int| 0 <= j < o.len() && o[j] == k;
                            assert(j != i);
                            let j2 = if j < i { j } else { j - 1 };
                            assert(self.ids@[j2] == k);
                        }
                    }
                    assert forall|j: int| 0 <= j < self.ids@.len() implies self@[self.ids@[j]]
                        == old(self)@.remove(id)[self.ids@[j]] by {
                        self.lemma_entry(j);
                        let j2 = if j < i { j } else { j + 1 };
                        old(self).lemma_entry(j2);
                    }
                    assert(self@ =~= old(self)@.remove(id));
                }
            },
            None => {
                assert(self@ =~= old(self)@.remove(id));
            },
        }
    }

    /// The id of a player standing on tile (`x`, `y`) of map `map_id`, if any.
    pub fn find_occupant(&self, map_id: u8, x: i32, y: i32) -> (r: Option<PlayerId>)
        requires
            self.wf(),
        ensures
            r matches Some(k) ==> self@.contains_key(k) && spec_occupies(
                self@[k],
                map_id,
                x as int,
                y as int,
            ),
            r is None ==> forall|k: PlayerId| #[trigger]
                self@.contains_key(k) ==> !spec_occupies(self@[k], map_id, x as int, y as int),
    {
        let mut i: usize = 0;
        while i < self.ids.len()
            invariant
                self.wf(),
                i <= self.ids@.len(),
                forall|j: int|
                    0 <= j < i ==> !spec_occupies(self.players@[j]@, map_id, x as int, y as int),
            decreases self.ids@.len() - i,
        {
            if self.players[i].occupies(map_id, x, y) {
                proof {
                    self.lemma_entry(i as int);
                }
                return Some(self.ids[i]);
            }
            i = i + 1;
        }
        proof {
            assert forall|k: PlayerId| #[trigger] self@.contains_key(k) implies !spec_occupies(
                self@[k],
                map_id,
                x as int,
                y as int,
            ) by {
                let j = choose|j: int| 0 <= j < self.ids@.len() && self.ids@[j] == k;
                self.lemma_entry(j);
            }
        }
        None
    }
}

} // verus!
