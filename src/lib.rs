//! A worker node for a distributed audio-playback job platform: the wire
//! protocol, the job-dispatch engine and the bridge from voice-session
//! callbacks to outbound protocol messages, with their contracts.

pub mod commands;
pub mod config;
pub mod helpers;
pub mod laws;
pub mod pool;
pub mod protocol;
pub mod types;
pub mod voice;
