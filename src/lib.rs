//! Playback coordination for a voice-chat music bot: track descriptors, a
//! pause-aware position tracker, a per-guild queue store, and the state machine
//! that decides when the next track starts.

pub mod coordinator;
pub mod guild;
pub mod metadata;
pub mod prefixes;
pub mod presence;
pub mod store;
pub mod text;
pub mod track;
pub mod tracker;
pub mod utils;
