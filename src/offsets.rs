use vstd::prelude::*;

verus! {

// Checkpoints: program-counter values inside the engine's own routines.

/// Start of the overworld loop, reached once per overworld frame.
pub const OVERWORLD_LOOP_START: u16 = 0x03FF;

/// Exit of the sprite-in-front check taken when the map has no sprites.
pub const SPRITE_CHECK_EXIT_1: u16 = 0x0B6F;

/// Exit of the sprite-in-front check taken after the sprites were scanned.
pub const SPRITE_CHECK_EXIT_2: u16 = 0x0BA2;

/// In the text-id display routine, just after its initialisation.
pub const DISPLAY_TEXT_ID_AFTER_INIT: u16 = 0x2937;

/// In the text-id display routine, once the message address has been set up.
pub const DISPLAY_TEXT_SETUP_DONE: u16 = 0x29A2;

/// The one-byte instruction with which the string placer loads its next character.
pub const TEXT_PROCESSOR_NEXT_CHAR_1: u16 = 0x1956;

/// The one-byte instruction with which the text command processor loads its next byte.
pub const TEXT_PROCESSOR_NEXT_CHAR_2: u16 = 0x1B55;

/// Return of the text command processor.
pub const TEXT_PROCESSOR_END: u16 = 0x1B5C;

// Engine variables in the address space.

/// Number of sprites on the current map.
pub const NUM_SPRITES: u16 = 0xD4E1;

/// Current map.
pub const MAP_ID: u16 = 0xD35E;

/// Player's tile row.
pub const MAP_Y: u16 = 0xD361;

/// Player's tile column.
pub const MAP_X: u16 = 0xD362;

/// Player's facing direction.
pub const PLAYER_DIR: u16 = 0xC109;

/// Ticks left in the player's current step.
pub const WALK_COUNTER: u16 = 0xCFC5;

/// The player's name, in engine encoding, ended by a terminator when shorter than
/// `PLAYER_NAME_LEN`.
pub const PLAYER_NAME: u16 = 0xD158;

/// Room for the player's name.
pub const PLAYER_NAME_LEN: u16 = 11;

/// Index of the sprite in front of the player; 0xFF stands for an object in the way.
pub const SPRITE_INDEX: u16 = 0xFF8C;

/// Frames left in the current delay.
pub const FRAME_COUNTER: u16 = 0xFFD5;

/// Kind of battle.
pub const BATTLE_TYPE: u16 = 0xD05A;

/// Whether a battle is running, and against whom.
pub const ACTIVE_BATTLE: u16 = 0xD057;

/// Which trainer of its class the opponent is.
pub const TRAINER_NUM: u16 = 0xD05D;

/// The opponent: a trainer class plus `TRAINER_TAG`.
pub const CURRENT_OPPONENT: u16 = 0xD059;

/// Number of creatures in the player's party.
pub const PARTY_COUNT: u16 = 0xD163;

/// The species of each party slot, one byte each.
pub const PARTY_SPECIES: u16 = 0xD164;

/// Level of the first party creature; the others follow every `PARTY_MON_SIZE` bytes.
pub const PARTY_MON_LEVEL: u16 = 0xD18C;

/// Size of one party creature's record.
pub const PARTY_MON_SIZE: u16 = 44;

/// ROM bank that holds the party data of the professor's trainer record.
pub const PROF_OAK_DATA_BANK: usize = 0x0E;

/// Address of that party data.
pub const PROF_OAK_DATA_ADDR: u16 = 0x621D;

// Values the engine understands.

/// `BATTLE_TYPE` of an ordinary battle.
pub const BATTLE_TYPE_NORMAL: u8 = 0;

/// `ACTIVE_BATTLE` of a battle against a trainer.
pub const ACTIVE_BATTLE_TRAINER: u8 = 2;

/// Trainer class of the professor.
pub const TRAINER_CLASS_PROF_OAK: u8 = 0x1A;

/// Added to a trainer class in `CURRENT_OPPONENT`.
pub const TRAINER_TAG: u8 = 200;

/// `SPRITE_INDEX` value that makes the engine see an object in the way.
pub const SPRITE_SENTINEL: u8 = 0xFF;

/// Delay set when a substituted message is shown.
pub const TEXT_DELAY_FRAMES: u8 = 30;

} // verus!
