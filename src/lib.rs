//! Locates and follows the playback position of a running desktop music
//! player by reading its memory: header classification, signature scanning,
//! operand resolution, and the polling state machine that ties them together.

pub mod bytes;
pub mod header;
pub mod signature;
pub mod resolve;
pub mod engine;
pub mod names;
pub mod regions;
pub mod memory;
pub mod clock;
pub mod music;
pub mod hook;
pub mod dashboard;
