//! Per-guild playback session coordination for a voice-channel music player:
//! an ordered track queue with an implicit now-playing head, vote-skip
//! arithmetic, the session aggregate, and the protocol that rebuilds a remote
//! player after a voice-server migration.
pub mod attribution;
pub mod commands;
pub mod database;
pub mod embeds;
pub mod error;
pub mod playlist;
pub mod queue;
pub mod registry;
pub mod remote;
pub mod resolve;
pub mod responses;
pub mod resync;
pub mod rows;
pub mod session;
pub mod shuffle;
pub mod text;
pub mod timestamp;
pub mod title;
pub mod track;
pub mod votes;
