//! Decoding of heterogeneous media-stream records.
//!
//! A media server hands back one flat, loosely-typed field map per stream;
//! four semantically different kinds of stream (video, audio, subtitles,
//! lyrics) share that single wire shape. This crate coerces the loose wire
//! encodings (numbers as strings, booleans as numbers or strings, epoch
//! timestamps as text) into strict scalar values, assembles an intermediate
//! raw record, and projects it onto the strongly typed variant selected by
//! the record's discriminant, substituting defaults (with a diagnostic) for
//! required fields the server failed to send.

use vstd::prelude::*;

pub mod error;
pub mod numerals;
pub mod wire;
pub mod time;
pub mod coerce;
pub mod stream;
pub mod session;
pub mod metadata;

pub use crate::error::DecodeError;
pub use crate::metadata::MediaTag;
pub use crate::session::{Player, SessionUser};
pub use crate::stream::{
    AudioStream, DecodedStream, LyricsStream, MediaStream, MediaStreamStruct, MediaStreamType,
    SubtitlesStream, VideoStream, decode_stream, decode_streams,
};
pub use crate::wire::{Field, FieldMap, WireValue};

verus! {

} // verus!
