//! Playback session control for a terminal audio player: transport state,
//! track stepping with wraparound, volume in thousandths, elapsed-time
//! accounting, track discovery rules and tag-based display metadata.

pub mod app;
pub mod clock;
pub mod handler;
pub mod logs;
pub mod meta;
pub mod paths;
pub mod tracks;
pub mod volume;
