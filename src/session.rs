use vstd::prelude::*;

use crate::hooks::GameState;
use crate::movement::{
    determine_frame_index_and_flip, get_player_draw_position, spec_frame_index,
    spec_player_position, Flip, ANCHOR_X, ANCHOR_Y,
};
use crate::player::PlayerData;

verus! {

/// Factor by which the engine's screen is scaled up in the window.
pub const EMU_SCALE: i32 = 3;

/// Microseconds in one engine frame, rounded up: a frame is due once 1/60 s has passed.
pub const FRAME_MICROS: u64 = 16667;

/// A key, as far as the client tells keys apart.
#[derive(Clone, Copy, Debug, PartialEq, Eq, Structural)]
pub enum Key {
    Return,
    Backspace,
    Space,
    RShift,
    Up,
    Down,
    Left,
    Right,
    /// A letter key, named by its upper-case letter.
    Letter(char),
    Other,
}

/// What a key typed into the chat box does.
#[derive(Clone, Copy, Debug, PartialEq, Eq, Structural)]
pub enum ChatAction {
    Send,
    Erase,
    Type(char),
    Ignore,
}

/// Where key presses go.
#[derive(Clone, Copy, Debug, PartialEq, Eq, Structural)]
pub enum KeyboardTarget {
    Emulator,
    ChatBox,
}

/// The engine's eight buttons; `true` is pressed.
#[derive(Clone, Copy, Debug, PartialEq, Eq, Structural)]
pub struct Joypad {
    pub up: bool,
    pub down: bool,
    pub left: bool,
    pub right: bool,
    pub a: bool,
    pub b: bool,
    pub start: bool,
    pub select: bool,
}

impl Joypad {
    pub fn new() -> (r: Joypad)
        ensures
            !r.up && !r.down && !r.left && !r.right && !r.a && !r.b && !r.start && !r.select,
    {
        Joypad {
            up: false,
            down: false,
            left: false,
            right: false,
            a: false,
            b: false,
            start: false,
            select: false,
        }
    }
}

/// The chat action of a key: return sends, backspace erases, space and letters type (letters
/// in lower case), anything else is ignored.
pub open spec fn spec_chat_action(key: Key) -> ChatAction {
    match key {
        Key::Return => ChatAction::Send,
        Key::Backspace => ChatAction::Erase,
        Key::Space => ChatAction::Type(' '),
        Key::Letter(c) => if 'A' <= c && c <= 'Z' {
            ChatAction::Type(((c as u32) + 32) as char)
        } else {
            ChatAction::Ignore
        },
        _ => ChatAction::Ignore,
    }
}

/// The chat box's reading of a key press.
pub fn handle_keyboard_chat(key: Key) -> (r: ChatAction)
    ensures
        r == spec_chat_action(key),
{
    match key {
        Key::Return => ChatAction::Send,
        Key::Backspace => ChatAction::Erase,
        Key::Space => ChatAction::Type(' '),
        Key::Letter(c) => {
            if 'A' <= c && c <= 'Z' {
                let lower = (c as u8) + 32;
                assert(lower as u32 == (c as u32) + 32);
                ChatAction::Type(lower as char)
            } else {
                ChatAction::Ignore
            }
        },
        _ => ChatAction::Ignore,
    }
}

/// The joypad after a key changes to `pressed`: the arrows drive the pad, Z is A, X is B,
/// return is start, right shift is select; other keys leave it as it is.
pub open spec fn spec_joypad(j: Joypad, key: Key, pressed: bool) -> Joypad {
    match key {
        Key::Up => Joypad { up: pressed, ..j },
        Key::Down => Joypad { down: pressed, ..j },
        Key::Left => Joypad { left: pressed, ..j },
        Key::Right => Joypad { right: pressed, ..j },
        Key::Letter(c) => if c == 'Z' {
            Joypad { a: pressed, ..j }
        } else if c == 'X' {
            Joypad { b: pressed, ..j }
        } else {
            j
        },
        Key::Return => Joypad { start: pressed, ..j },
        Key::RShift => Joypad { select: pressed, ..j },
        _ => j,
    }
}

/// Passes a key change on to the joypad.
pub fn handle_joypad_event(joypad: &mut Joypad, key: Key, pressed: bool)
    ensures
        *final(joypad) == spec_joypad(*old(joypad), key, pressed),
{
    match key {
        Key::Up => joypad.up = pressed,
        Key::Down => joypad.down = pressed,
        Key::Left => joypad.left = pressed,
        Key::Right => joypad.right = pressed,
        Key::Letter(c) => {
            if c == 'Z' {
                joypad.a = pressed;
            } else if c == 'X' {
                joypad.b = pressed;
            }
        },
        Key::Return => joypad.start = pressed,
        Key::RShift => joypad.select = pressed,
        _ => {},
    }
}

/// The keyboard side of the session: where keys go, whether the engine runs unthrottled, and
/// the joypad.
pub struct InputState {
    pub target: KeyboardTarget,
    pub fast_mode: bool,
    pub joypad: Joypad,
}

impl InputState {
    pub fn new() -> (r: InputState)
        ensures
            r.target == KeyboardTarget::Emulator,
            !r.fast_mode,
            r.joypad == (Joypad {
                up: false,
                down: false,
                left: false,
                right: false,
                a: false,
                b: false,
                start: false,
                select: false,
            }),
    {
        InputState { target: KeyboardTarget::Emulator, fast_mode: false, joypad: Joypad::new() }
    }

    /// Handles a key going down; gives what the chat box is to do with it.
    ///
    /// Aimed at the engine, the key presses its button, and space turns fast mode on. Aimed at
    /// the chat box, the key is read as chat input.
    pub fn key_down(&mut self, key: Key) -> (r: ChatAction)
        ensures
            old(self).target == KeyboardTarget::Emulator ==> {
                &&& r == ChatAction::Ignore
                &&& final(self).joypad == spec_joypad(old(self).joypad, key, true)
                &&& final(self).fast_mode == (old(self).fast_mode || key == Key::Space)
                &&& final(self).target == KeyboardTarget::Emulator
            },
            old(self).target == KeyboardTarget::ChatBox ==> {
                &&& r == spec_chat_action(key)
                &&& *final(self) == *old(self)
            },
    {
        match self.target {
            KeyboardTarget::Emulator => {
                handle_joypad_event(&mut self.joypad, key, true);
                if key == Key::Space {
                    self.fast_mode = true;
                }
                ChatAction::Ignore
            },
            KeyboardTarget::ChatBox => handle_keyboard_chat(key),
        }
    }

    /// Handles a key going up.
    ///
    /// Aimed at the engine, the key releases its button, space ends fast mode and T turns the
    /// keyboard to the chat box. Aimed at the chat box, return turns it back to the engine.
    pub fn key_up(&mut self, key: Key)
        ensures
            old(self).target == KeyboardTarget::Emulator ==> {
                &&& final(self).joypad == spec_joypad(old(self).joypad, key, false)
                &&& final(self).fast_mode == (old(self).fast_mode && key != Key::Space)
                &&& final(self).target == if key == Key::Letter('T') {
                    KeyboardTarget::ChatBox
                } else {
                    KeyboardTarget::Emulator
                }
            },
            old(self).target == KeyboardTarget::ChatBox ==> {
                &&& final(self).joypad == old(self).joypad
                &&& final(self).fast_mode == old(self).fast_mode
                &&& final(self).target == if key == Key::Return {
                    KeyboardTarget::Emulator
                } else {
                    KeyboardTarget::ChatBox
                }
            },
    {
        match self.target {
            KeyboardTarget::Emulator => {
                handle_joypad_event(&mut self.joypad, key, false);
                if key == Key::Space {
                    self.fast_mode = false;
                }
                if key == Key::Letter('T') {
                    self.target = KeyboardTarget::ChatBox;
                }
            },
            KeyboardTarget::ChatBox => {
                if key == Key::Return {
                    self.target = KeyboardTarget::Emulator;
                }
            },
        }
    }
}

/// What the session driver does with the engine on one pass of its loop.
#[derive(Clone, Copy, Debug, PartialEq, Eq, Structural)]
pub struct EngineTick {
    /// Restart the engine's frame timer.
    pub reset_timer: bool,
    /// Run the engine for one frame, then record the local player's state.
    pub step: bool,
}

/// The engine's timing: a frame is due in fast mode or once 1/60 s has passed since the
/// timer was restarted; when it is due the timer restarts, and the engine runs only while the
/// game is not waiting for a peer's party.
pub fn emulator_tick(fast_mode: bool, elapsed_micros: u64, game_state: GameState) -> (r: EngineTick)
    ensures
        r.reset_timer == (fast_mode || elapsed_micros >= FRAME_MICROS),
        r.step == (r.reset_timer && game_state == GameState::Normal),
{
    let due = fast_mode || elapsed_micros >= FRAME_MICROS;
    EngineTick { reset_timer: due, step: due && game_state == GameState::Normal }
}

/// The network's timing: one outbound and one inbound pass once 1/60 s has passed since the
/// last.
pub fn network_tick(elapsed_micros: u64) -> (r: bool)
    ensures
        r == (elapsed_micros >= FRAME_MICROS),
{
    elapsed_micros >= FRAME_MICROS
}

/// Where and how a peer's sprite is drawn in the window.
#[derive(Clone, Copy, Debug, PartialEq, Eq, Structural)]
pub struct SpriteDraw {
    pub x: i32,
    pub y: i32,
    pub frame: i32,
    pub flip: Flip,
}

/// The drawing of `other` in a window that keeps `me` at the anchor, or `None` when the two
/// are on different maps.
pub fn sprite_placement(me: &PlayerData, other: &PlayerData) -> (r: Option<SpriteDraw>)
    requires
        me.movement_data.wf(),
        other.movement_data.wf(),
    ensures
        me.movement_data.map_id != other.movement_data.map_id ==> r is None,
        me.movement_data.map_id == other.movement_data.map_id ==> r == Some(
            SpriteDraw {
                x: ((spec_player_position(*other).0 - spec_player_position(*me).0 + ANCHOR_X)
                    * EMU_SCALE) as i32,
                y: ((spec_player_position(*other).1 - spec_player_position(*me).1 + ANCHOR_Y)
                    * EMU_SCALE) as i32,
                frame: spec_frame_index(
                    other.movement_data.direction,
                    other.movement_data.walk_counter,
                ).0 as i32,
                flip: spec_frame_index(
                    other.movement_data.direction,
                    other.movement_data.walk_counter,
                ).1,
            },
        ),
{
    if other.is_visible_to(me) {
        let (x, y) = get_player_draw_position(me, other);
        let (frame, flip) = determine_frame_index_and_flip(
            other.movement_data.direction,
            other.movement_data.walk_counter,
        );
        Some(SpriteDraw { x: x * EMU_SCALE, y: y * EMU_SCALE, frame, flip })
    } else {
        None
    }
}

} // verus!
