//! Playback, queue, and token-lifecycle core of a streaming-audio desktop
//! client: a play queue with a movable cursor, an audio-transport state
//! machine with backward-seek recovery, an OAuth2 credential lifecycle with
//! an on-disk persistence format, and the small pure helpers around them.
pub mod auth;
pub mod models;
pub mod player;
pub mod queue;
pub mod redirect;
pub mod settings;
pub mod storage;
pub mod stream;
pub mod text;
