//! Client-side session logic for a room chat with voice: classification of
//! typed lines, the messages sent on the duplex channel, the session state
//! that governs the capture and playback devices, and the playback gate.

pub mod command;
pub mod session;
pub mod message;
pub mod playback;
