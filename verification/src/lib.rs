//! Core logic of a song-recognition pipeline: a session controller that
//! drives audio capture and remote recognition, an ordered deduplicated
//! history of recognized songs, and a playback state machine for preview
//! clips. All I/O (device capture, the network round trip, persistence,
//! presentation) lives outside this crate; the types here model those
//! collaborators' results as plain values and define every decision the
//! pipeline makes about them.

pub mod error;
pub mod history;
pub mod player;
pub mod recognizer;
pub mod recorder;
pub mod session;
pub mod song;
