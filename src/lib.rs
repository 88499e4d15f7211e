//! Multiplayer presence for a single-player game engine: the engine's text encoding, the
//! movement model of remote players, the synchronisation protocol and its player table, the
//! hooks that the engine runs at fixed checkpoints, and the session driver's decisions.

pub mod engine;
pub mod extract;
pub mod hooks;
pub mod movement;
pub mod offsets;
pub mod party;
pub mod player;
pub mod protocol;
pub mod session;
pub mod table;
pub mod text;
