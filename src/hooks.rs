use vstd::prelude::*;

use crate::engine::{Cpu, Memory};
use crate::offsets::{
    DISPLAY_TEXT_ID_AFTER_INIT, DISPLAY_TEXT_SETUP_DONE, FRAME_COUNTER, MAP_ID, MAP_X, MAP_Y,
    NUM_SPRITES, OVERWORLD_LOOP_START, PLAYER_DIR, SPRITE_CHECK_EXIT_1, SPRITE_CHECK_EXIT_2,
    SPRITE_INDEX, SPRITE_SENTINEL, TEXT_DELAY_FRAMES, TEXT_PROCESSOR_END,
    TEXT_PROCESSOR_NEXT_CHAR_1, TEXT_PROCESSOR_NEXT_CHAR_2,
};
use crate::player::{spec_occupies, PlayerId, DIR_DOWN, DIR_RIGHT, DIR_UP};
use crate::table::PlayerTable;
use crate::text::{encode, spec_encode, END_MSG, TERMINATOR, TEXT_START};

verus! {

/// Whether a hook substitutes its own data for what the engine would read.
#[derive(Clone, Copy, Debug, PartialEq, Eq, Structural)]
pub enum DataState {
    Normal,
    Hacked,
}

/// Whether the engine may run, or waits for a peer's party.
#[derive(Clone, Copy, Debug, PartialEq, Eq, Structural)]
pub enum GameState {
    Normal,
    Waiting,
}

/// A request from the hooks to the network side.
#[derive(Clone, Copy, Debug, PartialEq, Eq, Structural)]
pub enum NetworkRequest {
    Idle,
    Battle(PlayerId),
}

/// State shared by the hooks, the session driver and the protocol.
pub struct GameData {
    pub game_state: GameState,
    pub network_request: NetworkRequest,
    pub other_players: PlayerTable,
    /// The peer most recently found in the way of the local player.
    pub last_interaction: PlayerId,
    pub sprite_id_state: DataState,
    pub text_state: DataState,
    /// Engine bytes that the text hook hands out while the text state is hacked.
    pub current_message: Vec<u8>,
}

/// A framed message box: text start, the encoded text, end of message, terminator.
pub open spec fn message_box(s: Seq<char>) -> Seq<u8> {
    seq![TEXT_START] + spec_encode(s) + seq![END_MSG, TERMINATOR]
}

/// The text shown when the local player talks to a peer.
pub open spec fn greeting() -> Seq<char> {
    "PLAYER has nothing\nto say."@
}

impl GameData {
    pub open spec fn wf(&self) -> bool {
        self.other_players.wf()
    }

    pub fn new() -> (r: GameData)
        ensures
            r.wf(),
            r.game_state == GameState::Normal,
            r.network_request == NetworkRequest::Idle,
            r.other_players@ == Map::<PlayerId, crate::player::PlayerView>::empty(),
            r.last_interaction == 0,
            r.sprite_id_state == DataState::Normal,
            r.text_state == DataState::Normal,
            r.current_message@ == Seq::<u8>::empty(),
    {
        GameData {
            game_state: GameState::Normal,
            network_request: NetworkRequest::Idle,
            other_players: PlayerTable::new(),
            last_interaction: 0,
            sprite_id_state: DataState::Normal,
            text_state: DataState::Normal,
            current_message: Vec::new(),
        }
    }

    /// Queues `input` as a framed message box.
    pub fn create_message_box(&mut self, input: &str)
        ensures
            final(self).current_message@ == old(self).current_message@ + message_box(input@),
            final(self).game_state == old(self).game_state,
            final(self).network_request == old(self).network_request,
            final(self).other_players == old(self).other_players,
            final(self).last_interaction == old(self).last_interaction,
            final(self).sprite_id_state == old(self).sprite_id_state,
            final(self).text_state == old(self).text_state,
    {
        let mut bytes = encode(input);
        self.current_message.push(TEXT_START);
        self.current_message.append(&mut bytes);
        self.current_message.push(END_MSG);
        self.current_message.push(TERMINATOR);
        assert(self.current_message@ =~= old(self).current_message@ + message_box(input@));
    }
}

/// The tile in front of a player at (`x`, `y`) facing `dir`.
pub open spec fn facing_tile(x: u8, y: u8, dir: u8) -> (int, int) {
    if dir == DIR_DOWN {
        (x as int, y + 1)
    } else if dir == DIR_UP {
        (x as int, y - 1)
    } else if dir == DIR_RIGHT {
        (x + 1, y as int)
    } else {
        (x - 1, y as int)
    }
}

/// True iff the engine stands at one of the sprite-check checkpoints.
pub open spec fn at_sprite_check(pc: u16, ram: Seq<u8>) -> bool {
    (pc == SPRITE_CHECK_EXIT_1 && ram[NUM_SPRITES as int] == 0) || pc == SPRITE_CHECK_EXIT_2
}

/// True iff some peer of `players` stands on the tile in front of the local player.
pub open spec fn peer_in_the_way(players: Map<PlayerId, crate::player::PlayerView>, ram: Seq<u8>) -> bool {
    let t = facing_tile(ram[MAP_X as int], ram[MAP_Y as int], ram[PLAYER_DIR as int]);
    exists|k: PlayerId|
        #[trigger] players.contains_key(k) && spec_occupies(players[k], ram[MAP_ID as int], t.0, t.1)
}

/// What one step of the sprite hook does, at program counter `pc`, to memory `ram0` and
/// shared state `g0`, giving `ram1` and `g1`: at a sprite-check checkpoint with a peer on the
/// tile in front of the local player, the sprite state becomes hacked, that peer is remembered
/// and the engine's sprite index is set to the sentinel; otherwise memory stays as it is and
/// the sprite state returns to normal at the start of the overworld loop.
pub open spec fn sprite_hook_post(
    pc: u16,
    ram0: Seq<u8>,
    g0: GameData,
    ram1: Seq<u8>,
    g1: GameData,
) -> bool {
    let players = g0.other_players@;
    let t = facing_tile(ram0[MAP_X as int], ram0[MAP_Y as int], ram0[PLAYER_DIR as int]);
    &&& g1.game_state == g0.game_state
    &&& g1.network_request == g0.network_request
    &&& g1.other_players == g0.other_players
    &&& g1.text_state == g0.text_state
    &&& g1.current_message == g0.current_message
    &&& if at_sprite_check(pc, ram0) && peer_in_the_way(players, ram0) {
        &&& g1.sprite_id_state == DataState::Hacked
        &&& players.contains_key(g1.last_interaction)
        &&& spec_occupies(players[g1.last_interaction], ram0[MAP_ID as int], t.0, t.1)
        &&& ram1 == ram0.update(SPRITE_INDEX as int, SPRITE_SENTINEL)
    } else {
        &&& g1.sprite_id_state == if pc == OVERWORLD_LOOP_START {
            DataState::Normal
        } else {
            g0.sprite_id_state
        }
        &&& g1.last_interaction == g0.last_interaction
        &&& ram1 == ram0
    }
}

/// Sprite hook, run at every engine step: makes the engine see an object on a tile where a
/// peer stands, and remembers that peer.
pub fn sprite_check_hack(cpu: &mut Cpu, mem: &mut Memory, game_data: &mut GameData)
    requires
        old(mem).wf(),
        old(game_data).wf(),
    ensures
        final(mem).wf(),
        final(game_data).wf(),
        *final(cpu) == *old(cpu),
        final(mem).rom@ == old(mem).rom@,
        sprite_hook_post(old(cpu).pc, old(mem).ram@, *old(game_data), final(mem).ram@, *final(game_data)),
{
    if cpu.pc == OVERWORLD_LOOP_START {
        game_data.sprite_id_state = DataState::Normal;
    }
    if (cpu.pc == SPRITE_CHECK_EXIT_1 && mem.lb(NUM_SPRITES) == 0) || cpu.pc == SPRITE_CHECK_EXIT_2 {
        let map_id = mem.lb(MAP_ID);
        // The tile that the player is trying to move into.
        let mut x = mem.lb(MAP_X) as i32;
        let mut y = mem.lb(MAP_Y) as i32;
        let dir = mem.lb(PLAYER_DIR);
        if dir == DIR_DOWN {
            y = y + 1;
        } else if dir == DIR_UP {
            y = y - 1;
        } else if dir == DIR_RIGHT {
            x = x + 1;
        } else {
            x = x - 1;
        }
        match game_data.other_players.find_occupant(map_id, x, y) {
            Some(id) => {
                mem.sb(SPRITE_INDEX, SPRITE_SENTINEL);
                game_data.sprite_id_state = DataState::Hacked;
                game_data.last_interaction = id;
            },
            None => {},
        }
    }
}

/// What the text hook reads and writes.
pub struct TextHookView {
    pub pc: u16,
    pub a: u8,
    pub ram: Seq<u8>,
    pub text_state: DataState,
    pub message: Seq<u8>,
    pub network_request: NetworkRequest,
    pub game_state: GameState,
}

pub open spec fn text_hook_view(cpu: Cpu, ram: Seq<u8>, g: GameData) -> TextHookView {
    TextHookView {
        pc: cpu.pc,
        a: cpu.a,
        ram,
        text_state: g.text_state,
        message: g.current_message@,
        network_request: g.network_request,
        game_state: g.game_state,
    }
}

/// First checkpoint: right after the text-id routine's initialisation, while the sprite state
/// is hacked, skip to the end of its setup, set the delay, queue the greeting, ask for a
/// battle against the last peer met, and wait for its party.
pub open spec fn text_stage_init(
    h: TextHookView,
    sprite: DataState,
    last: PlayerId,
) -> TextHookView {
    if sprite == DataState::Hacked && h.pc == DISPLAY_TEXT_ID_AFTER_INIT {
        TextHookView {
            pc: DISPLAY_TEXT_SETUP_DONE,
            ram: h.ram.update(FRAME_COUNTER as int, TEXT_DELAY_FRAMES),
            text_state: DataState::Hacked,
            message: h.message + message_box(greeting()),
            network_request: NetworkRequest::Battle(last),
            game_state: GameState::Waiting,
            ..h
        }
    } else {
        h
    }
}

/// Second checkpoint: at a next-character load, while the text state is hacked, hand the
/// engine the next queued byte (a terminator when the queue is empty) and skip the load.
pub open spec fn text_stage_next_char(h: TextHookView) -> TextHookView {
    if h.text_state == DataState::Hacked && (h.pc == TEXT_PROCESSOR_NEXT_CHAR_1 || h.pc
        == TEXT_PROCESSOR_NEXT_CHAR_2) {
        TextHookView {
            pc: (h.pc + 1) as u16,
            a: if h.message.len() > 0 {
                h.message[0]
            } else {
                TERMINATOR
            },
            message: if h.message.len() > 0 {
                h.message.drop_first()
            } else {
                h.message
            },
            ..h
        }
    } else {
        h
    }
}

/// Third checkpoint: leaving the text processor ends the substitution.
pub open spec fn text_stage_end(h: TextHookView) -> TextHookView {
    if h.pc == TEXT_PROCESSOR_END {
        TextHookView { text_state: DataState::Normal, ..h }
    } else {
        h
    }
}

/// One step of the text hook.
pub open spec fn spec_display_text(
    h: TextHookView,
    sprite: DataState,
    last: PlayerId,
) -> TextHookView {
    text_stage_end(text_stage_next_char(text_stage_init(h, sprite, last)))
}

/// Text hook, run at every engine step: substitutes the greeting for the text that the engine
/// would show for the object in the way.
pub fn display_text_hack(cpu: &mut Cpu, mem: &mut Memory, game_data: &mut GameData)
    requires
        old(mem).wf(),
        old(game_data).wf(),
    ensures
        final(mem).wf(),
        final(game_data).wf(),
        text_hook_view(*final(cpu), final(mem).ram@, *final(game_data)) == spec_display_text(
            text_hook_view(*old(cpu), old(mem).ram@, *old(game_data)),
            old(game_data).sprite_id_state,
            old(game_data).last_interaction,
        ),
        final(mem).rom@ == old(mem).rom@,
        final(game_data).other_players == old(game_data).other_players,
        final(game_data).last_interaction == old(game_data).last_interaction,
        final(game_data).sprite_id_state == old(game_data).sprite_id_state,
{
    if game_data.sprite_id_state == DataState::Hacked && cpu.pc == DISPLAY_TEXT_ID_AFTER_INIT {
        // Skip the part of the routine that looks up the message address of the object.
        cpu.jump(DISPLAY_TEXT_SETUP_DONE);
        // The delay is normally set in the part just skipped.
        mem.sb(FRAME_COUNTER, TEXT_DELAY_FRAMES);
        game_data.text_state = DataState::Hacked;
        game_data.create_message_box("PLAYER has nothing\nto say.");
        game_data.network_request = NetworkRequest::Battle(game_data.last_interaction);
        game_data.game_state = GameState::Waiting;
    }
    // While hacked, the text processor reads from the queued message instead of memory.
    if game_data.text_state == DataState::Hacked && (cpu.pc == TEXT_PROCESSOR_NEXT_CHAR_1
        || cpu.pc == TEXT_PROCESSOR_NEXT_CHAR_2) {
        if game_data.current_message.len() > 0 {
            cpu.a = game_data.current_message.remove(0);
        } else {
            cpu.a = TERMINATOR;
        }
        cpu.pc = cpu.pc + 1;
    }
    // Leaving the text processor: its next run reads the engine's own text again.
    if cpu.pc == TEXT_PROCESSOR_END {
        game_data.text_state = DataState::Normal;
    }
}

/// A peer that alone stands on the tile in front of the local player is met at either
/// sprite-check checkpoint: the sprite state becomes hacked and that peer is remembered. A
/// later step at the start of the overworld loop returns the sprite state to normal.
pub proof fn lemma_sprite_hack_then_reset(
    pc: u16,
    ram0: Seq<u8>,
    g0: GameData,
    ram1: Seq<u8>,
    g1: GameData,
    ram2: Seq<u8>,
    g2: GameData,
    peer: PlayerId,
)
    requires
        ram0.len() == crate::engine::ADDRESS_SPACE,
        at_sprite_check(pc, ram0),
        ({
            let t = facing_tile(ram0[MAP_X as int], ram0[MAP_Y as int], ram0[PLAYER_DIR as int]);
            let players = g0.other_players@;
            &&& players.contains_key(peer)
            &&& spec_occupies(players[peer], ram0[MAP_ID as int], t.0, t.1)
            &&& forall|k: PlayerId|
                #[trigger] players.contains_key(k) && k != peer ==> !spec_occupies(
                    players[k],
                    ram0[MAP_ID as int],
                    t.0,
                    t.1,
                )
        }),
        sprite_hook_post(pc, ram0, g0, ram1, g1),
        sprite_hook_post(OVERWORLD_LOOP_START, ram1, g1, ram2, g2),
    ensures
        g1.sprite_id_state == DataState::Hacked,
        g1.last_interaction == peer,
        g2.sprite_id_state == DataState::Normal,
{
    let players = g0.other_players@;
    assert(players.contains_key(peer));
    assert(peer_in_the_way(players, ram0));
}

} // verus!
