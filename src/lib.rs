//! A client library for lavalink audio nodes: the decoder of lavaplayer
//! track blobs, the messages exchanged with a node, and the REST requests it
//! answers.
pub mod cursor;
pub mod decoder;
pub mod format;
pub mod laws;
pub mod model;
pub mod opcodes;
pub mod player;
pub mod rest;
pub mod stats;

pub use decoder::{decode_track, decode_track_base64, DecodedTrack};
pub use format::{DecodeError, TrackField};
