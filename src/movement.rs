use vstd::prelude::*;

use crate::player::{PlayerData, DIR_DOWN, DIR_UP, DIR_LEFT, DIR_RIGHT, MAX_WALK_COUNTER};

verus! {

/// Width of the engine's screen in pixels.
pub const SCREEN_WIDTH: i32 = 160;

/// Height of the engine's screen in pixels.
pub const SCREEN_HEIGHT: i32 = 144;

/// Side of a map tile in pixels.
pub const TILE_SIZE: i32 = 16;

/// Screen position at which the local player's sprite is drawn: half the screen width less
/// 16, half its height less 12.
pub const ANCHOR_X: i32 = 64;

pub const ANCHOR_Y: i32 = 60;

/// Whether a sprite frame is drawn mirrored.
#[derive(Clone, Copy, Debug, PartialEq, Eq, Structural)]
pub enum Flip {
    Unflipped,
    Horizontal,
}

/// Pixels travelled so far in the current step: two per tick once the counter has left 8,
/// and none when it is 0.
pub open spec fn step_pixels(walk_counter: u8) -> int {
    if walk_counter == 0 {
        0
    } else {
        (8 - walk_counter) * 2
    }
}

/// The pixel offset from the player's tile toward the tile it is walking into.
pub open spec fn spec_draw_offset(direction: u8, walk_counter: u8) -> (int, int) {
    let d = step_pixels(walk_counter);
    if direction == DIR_DOWN {
        (0, d)
    } else if direction == DIR_UP {
        (0, -d)
    } else if direction == DIR_LEFT {
        (-d, 0)
    } else if direction == DIR_RIGHT {
        (d, 0)
    } else {
        (0, 0)
    }
}

/// The pixel position of a player on its map.
pub open spec fn spec_player_position(p: PlayerData) -> (int, int) {
    let off = spec_draw_offset(p.movement_data.direction, p.movement_data.walk_counter);
    (p.movement_data.map_x * TILE_SIZE + off.0, p.movement_data.map_y * TILE_SIZE + off.1)
}

/// Sprite frame and mirroring for a facing direction and walk counter.
pub open spec fn spec_frame_index(direction: u8, walk_counter: u8) -> (int, Flip) {
    let base: (int, Flip) = if direction == DIR_UP {
        (1, Flip::Unflipped)
    } else if direction == DIR_RIGHT {
        (2, Flip::Horizontal)
    } else if direction == DIR_LEFT {
        (2, Flip::Unflipped)
    } else {
        (0, Flip::Unflipped)
    };
    let stride: int = if walk_counter / 4 == 1 {
        3
    } else {
        0
    };
    (base.0 + stride, base.1)
}

/// Offset of a walking player's sprite from its tile.
pub fn draw_offset(direction: u8, walk_counter: u8) -> (r: (i32, i32))
    requires
        walk_counter <= MAX_WALK_COUNTER,
    ensures
        (r.0 as int, r.1 as int) == spec_draw_offset(direction, walk_counter),
{
    let offset: i32 = if walk_counter == 0 {
        0
    } else {
        (8 - walk_counter as i32) * 2
    };
    if direction == DIR_DOWN {
        (0, offset)
    } else if direction == DIR_UP {
        (0, -offset)
    } else if direction == DIR_LEFT {
        (-offset, 0)
    } else if direction == DIR_RIGHT {
        (offset, 0)
    } else {
        (0, 0)
    }
}

/// Pixel position of a player on its map, between tiles while it walks.
pub fn get_player_position(player: &PlayerData) -> (r: (i32, i32))
    requires
        player.movement_data.wf(),
    ensures
        (r.0 as int, r.1 as int) == spec_player_position(*player),
{
    let x = player.movement_data.map_x as i32 * TILE_SIZE;
    let y = player.movement_data.map_y as i32 * TILE_SIZE;
    let (dx, dy) = draw_offset(player.movement_data.direction, player.movement_data.walk_counter);
    (x + dx, y + dy)
}

/// Where `other_player` is drawn on a screen that keeps `self_player` at the anchor.
pub fn get_player_draw_position(self_player: &PlayerData, other_player: &PlayerData) -> (r: (
    i32,
    i32,
))
    requires
        self_player.movement_data.wf(),
        other_player.movement_data.wf(),
    ensures
        r.0 as int == spec_player_position(*other_player).0 - spec_player_position(*self_player).0
            + ANCHOR_X,
        r.1 as int == spec_player_position(*other_player).1 - spec_player_position(*self_player).1
            + ANCHOR_Y,
{
    let (self_x, self_y) = get_player_position(self_player);
    let (other_x, other_y) = get_player_position(other_player);
    (other_x - self_x + ANCHOR_X, other_y - self_y + ANCHOR_Y)
}

/// Sprite frame and mirroring for a player facing `direction` with `walk_counter` ticks left.
pub fn determine_frame_index_and_flip(direction: u8, walk_counter: u8) -> (r: (i32, Flip))
    ensures
        (r.0 as int, r.1) == spec_frame_index(direction, walk_counter),
{
    let (mut index, flip) = if direction == DIR_UP {
        (1i32, Flip::Unflipped)
    } else if direction == DIR_RIGHT {
        (2i32, Flip::Horizontal)
    } else if direction == DIR_LEFT {
        (2i32, Flip::Unflipped)
    } else {
        (0i32, Flip::Unflipped)
    };
    if walk_counter / 4 == 1 {
        index = index + 3;
    }
    (index, flip)
}

/// A walking player is drawn `(8 - walk_counter) * 2` pixels off its tile along the axis of its
/// facing direction and not at all along the other axis; with a walk counter of 0 it is drawn on
/// its tile.
pub proof fn lemma_draw_offset_axis(direction: u8, walk_counter: u8)
    requires
        walk_counter <= MAX_WALK_COUNTER,
        direction == DIR_DOWN || direction == DIR_UP || direction == DIR_LEFT || direction
            == DIR_RIGHT,
    ensures
        walk_counter == 0 ==> spec_draw_offset(direction, walk_counter) == (0int, 0int),
        walk_counter > 0 ==> ({
            let (dx, dy) = spec_draw_offset(direction, walk_counter);
            let m = (8 - walk_counter) * 2;
            if direction == DIR_DOWN || direction == DIR_UP {
                dx == 0 && (dy == m || dy == -m)
            } else {
                dy == 0 && (dx == m || dx == -m)
            }
        }),
{
}

/// The frame is a function of direction and walk counter: any two results that meet the
/// contract of `determine_frame_index_and_flip` for the same arguments are equal.
pub proof fn lemma_frame_index_deterministic(
    direction: u8,
    walk_counter: u8,
    r1: (i32, Flip),
    r2: (i32, Flip),
)
    requires
        (r1.0 as int, r1.1) == spec_frame_index(direction, walk_counter),
        (r2.0 as int, r2.1) == spec_frame_index(direction, walk_counter),
    ensures
        r1 == r2,
{
}

/// Facing right and facing left use the same frame and differ only in mirroring.
pub proof fn lemma_frame_index_sideways(walk_counter: u8)
    ensures
        spec_frame_index(DIR_RIGHT, walk_counter).0 == spec_frame_index(DIR_LEFT, walk_counter).0,
        spec_frame_index(DIR_RIGHT, walk_counter).0 == 2 || spec_frame_index(
            DIR_RIGHT,
            walk_counter,
        ).0 == 5,
        spec_frame_index(DIR_RIGHT, walk_counter).1 == Flip::Horizontal,
        spec_frame_index(DIR_LEFT, walk_counter).1 == Flip::Unflipped,
{
}

} // verus!
