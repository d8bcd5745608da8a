//! Voice-presence core of a soundboard bot: which channel a request targets,
//! the single connection handle each guild may hold, the join / stop / play
//! decisions made against it, and the follow / abandon / re-join state
//! machine driven by membership changes.
pub mod actions;
pub mod audio_source;
pub mod call_result;
pub mod chat;
pub mod commands;
pub mod connection_data;
pub mod playback;
pub mod presence;
pub mod registry;
pub mod text;
