use vstd::prelude::*;

verus! {

/// Identifier that the server relay hands out at join time.
pub type PlayerId = u32;

/// Facing direction codes, as the engine stores them.
pub const DIR_DOWN: u8 = 0x00;

pub const DIR_UP: u8 = 0x04;

pub const DIR_LEFT: u8 = 0x08;

pub const DIR_RIGHT: u8 = 0x0C;

/// The longest walk counter: a tile traversal starts at this value and counts down to 0.
pub const MAX_WALK_COUNTER: u8 = 8;

/// Where a player stands and how far through a step it is.
#[derive(Clone, Copy, Debug, PartialEq, Eq, Structural)]
pub struct MovementData {
    pub map_id: u8,
    pub map_x: u8,
    pub map_y: u8,
    pub direction: u8,
    pub walk_counter: u8,
}

impl MovementData {
    pub open spec fn wf(&self) -> bool {
        self.walk_counter <= MAX_WALK_COUNTER
    }

    pub fn new() -> (r: MovementData)
        ensures
            r.wf(),
            r == (MovementData { map_id: 0, map_x: 0, map_y: 0, direction: DIR_DOWN, walk_counter: 0 }),
    {
        MovementData { map_id: 0, map_x: 0, map_y: 0, direction: DIR_DOWN, walk_counter: 0 }
    }
}

/// The mathematical value of a `PlayerData`.
pub struct PlayerView {
    pub id: PlayerId,
    pub name: Seq<u8>,
    pub movement_data: MovementData,
}

/// Everything the peers learn about one player; the name is in engine encoding.
#[derive(Clone, Debug)]
pub struct PlayerData {
    pub id: PlayerId,
    pub name: Vec<u8>,
    pub movement_data: MovementData,
}

impl View for PlayerData {
    type V = PlayerView;

    open spec fn view(&self) -> PlayerView {
        PlayerView { id: self.id, name: self.name@, movement_data: self.movement_data }
    }
}

/// True iff a player stands on tile (`x`, `y`) of map `map_id`.
pub open spec fn spec_occupies(p: PlayerView, map_id: u8, x: int, y: int) -> bool {
    p.movement_data.map_id == map_id && p.movement_data.map_x as int == x
        && p.movement_data.map_y as int == y
}

/// Byte-wise equality of two byte vectors.
pub fn bytes_equal(a: &Vec<u8>, b: &Vec<u8>) -> (r: bool)
    ensures
        r == (a@ == b@),
{
    if a.len() != b.len() {
        return false;
    }
    let mut i: usize = 0;
    while i < a.len()
        invariant
            a@.len() == b@.len(),
            i <= a@.len(),
            forall|j: int| 0 <= j < i ==> a@[j] == b@[j],
        decreases a@.len() - i,
    {
        if a[i] != b[i] {
            return false;
        }
        i = i + 1;
    }
    assert(a@ =~= b@);
    true
}

impl PartialEq for PlayerData {
    fn eq(&self, other: &PlayerData) -> (r: bool) {
        self.id == other.id && self.movement_data == other.movement_data && bytes_equal(
            &self.name,
            &other.name,
        )
    }
}

impl vstd::std_specs::cmp::PartialEqSpecImpl for PlayerData {
    open spec fn obeys_eq_spec() -> bool {
        true
    }

    open spec fn eq_spec(&self, other: &PlayerData) -> bool {
        self@ == other@
    }
}

impl PlayerData {
    /// A player with id 0, no name, standing still at the origin of map 0.
    pub open spec fn new_view() -> PlayerView {
        PlayerView {
            id: 0,
            name: Seq::empty(),
            movement_data: MovementData {
                map_id: 0,
                map_x: 0,
                map_y: 0,
                direction: DIR_DOWN,
                walk_counter: 0,
            },
        }
    }

    pub fn new() -> (r: PlayerData)
        ensures
            r@ == Self::new_view(),
    {
        PlayerData { id: 0, name: Vec::new(), movement_data: MovementData::new() }
    }

    /// True iff the player stands on tile (`x`, `y`) of map `map_id`.
    pub fn occupies(&self, map_id: u8, x: i32, y: i32) -> (r: bool)
        ensures
            r == spec_occupies(self@, map_id, x as int, y as int),
    {
        self.movement_data.map_id == map_id && self.movement_data.map_x as i32 == x
            && self.movement_data.map_y as i32 == y
    }

    /// A copy of this player's data.
    pub fn duplicate(&self) -> (r: PlayerData)
        ensures
            r@ == self@,
    {
        let name = self.name.clone();
        assert(name@ =~= self.name@);
        PlayerData { id: self.id, name, movement_data: self.movement_data }
    }

    /// True iff `other` is on the same map as this player.
    pub fn is_visible_to(&self, other: &PlayerData) -> (r: bool)
        ensures
            r == (self.movement_data.map_id == other.movement_data.map_id),
    {
        self.movement_data.map_id == other.movement_data.map_id
    }
}

} // verus!
