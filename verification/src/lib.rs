//! Conversion of Standard MIDI Files into rhythm-game charts.
//!
//! Ticks become bar/beat time triples, keys become stage positions, tracks
//! become judge lines. Every function carries a contract, and Verus proves
//! each of them but three: the contracts of `parse_timing` and `parse_tracks`
//! in `midi`, which call `midly`, and of `decode_lossy` in `text`, which calls
//! `String::from_utf8_lossy`, are believed as they stand.

pub mod midi;
pub mod post;
pub mod rpe;
pub mod text;
pub mod conversation;
pub mod convert;
pub mod laws;
