use vstd::prelude::*;

use crate::engine::Memory;
use crate::offsets::{MAP_ID, MAP_X, MAP_Y, PLAYER_DIR, PLAYER_NAME, PLAYER_NAME_LEN, WALK_COUNTER};
use crate::player::{MovementData, PlayerData, PlayerId};
use crate::text::TERMINATOR;

verus! {

/// The local player's name as the engine holds it: the bytes from `PLAYER_NAME` up to the
/// first terminator, at most `PLAYER_NAME_LEN` of them.
pub open spec fn is_stored_name(ram: Seq<u8>, name: Seq<u8>) -> bool {
    &&& name.len() <= PLAYER_NAME_LEN
    &&& forall|i: int|
        0 <= i < name.len() ==> name[i] == ram[PLAYER_NAME + i] && #[trigger] name[i] != TERMINATOR
    &&& name.len() == PLAYER_NAME_LEN || ram[PLAYER_NAME + name.len()] == TERMINATOR
}

/// The local player's state, read from the engine's variables.
pub fn player_data(id: PlayerId, mem: &Memory) -> (r: PlayerData)
    requires
        mem.wf(),
    ensures
        r.id == id,
        is_stored_name(mem.ram@, r.name@),
        r.movement_data == (MovementData {
            map_id: mem.ram@[MAP_ID as int],
            map_x: mem.ram@[MAP_X as int],
            map_y: mem.ram@[MAP_Y as int],
            direction: mem.ram@[PLAYER_DIR as int],
            walk_counter: mem.ram@[WALK_COUNTER as int],
        }),
{
    let mut name: Vec<u8> = Vec::new();
    let mut i: u16 = 0;
    while i < PLAYER_NAME_LEN
        invariant
            mem.wf(),
            i <= PLAYER_NAME_LEN,
            name@.len() == i,
            forall|j: int|
                0 <= j < i ==> name@[j] == mem.ram@[PLAYER_NAME + j] && #[trigger] name@[j]
                    != TERMINATOR,
        ensures
            name@.len() == i,
            i <= PLAYER_NAME_LEN,
            i == PLAYER_NAME_LEN || mem.ram@[PLAYER_NAME + i] == TERMINATOR,
            forall|j: int|
                0 <= j < i ==> name@[j] == mem.ram@[PLAYER_NAME + j] && #[trigger] name@[j]
                    != TERMINATOR,
        decreases PLAYER_NAME_LEN - i,
    {
        let b = mem.lb(PLAYER_NAME + i);
        if b == TERMINATOR {
            break;
        }
        name.push(b);
        i = i + 1;
    }
    PlayerData {
        id,
        name,
        movement_data: MovementData {
            map_id: mem.lb(MAP_ID),
            map_x: mem.lb(MAP_X),
            map_y: mem.lb(MAP_Y),
            direction: mem.lb(PLAYER_DIR),
            walk_counter: mem.lb(WALK_COUNTER),
        },
    }
}

} // verus!
