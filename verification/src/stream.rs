//! The heterogeneous stream decoder.
//!
//! One wire record shape is shared by four kinds of media stream. Decoding
//! runs in three steps: the primitive coercers normalize every known field
//! into the flat [`MediaStreamStruct`]; the record's discriminant selects a
//! kind; and that kind's projector maps the raw record onto its typed
//! variant, substituting a default (and recording a diagnostic) for each
//! required field the record failed to carry.

use vstd::prelude::*;

use crate::coerce::{
    bool_of_wire, num_of_wire, str_of_wire, float_text_of_wire, views_of, lemma_views_push,
    option_bool_from_anything, string_from_wire, u32_from_anything, u8_from_anything,
    option_u64_from_anything, option_u32_from_anything, option_u16_from_anything,
    option_u8_from_anything, option_string_from_wire, option_float_text_from_anything,
};
use crate::error::DecodeError;
use crate::numerals::{valid_numeral, numeral_val, parse_u64, lemma_numeral_nonneg};
use crate::wire::{Field, FieldMap, WireValue, lookup};

verus! {

/// The discriminant of a wire stream record: which of the four stream
/// kinds the record claims to be. `Unknown` is a valid value of the type
/// but names no kind, so no projector exists for it.
#[derive(Debug, Clone, Copy, PartialEq, Eq, Structural)]
pub enum MediaStreamType {
    Unknown,
    Video,
    Audio,
    Subtitles,
    Lyrics,
}

impl MediaStreamType {
    /// The kind named by an ordinal: `1` video, `2` audio, `3` subtitles,
    /// `4` lyrics, anything else unknown.
    pub open spec fn spec_from_ordinal(n: int) -> MediaStreamType {
        if n == 1 {
            MediaStreamType::Video
        } else if n == 2 {
            MediaStreamType::Audio
        } else if n == 3 {
            MediaStreamType::Subtitles
        } else if n == 4 {
            MediaStreamType::Lyrics
        } else {
            MediaStreamType::Unknown
        }
    }

    /// The kind a discriminant string names. The conversion is total:
    /// non-numeric or out-of-range text yields `Unknown`.
    pub open spec fn spec_from_text(t: Seq<char>) -> MediaStreamType {
        if valid_numeral(t) && numeral_val(t) <= u8::MAX {
            MediaStreamType::spec_from_ordinal(numeral_val(t))
        } else {
            MediaStreamType::Unknown
        }
    }

    /// The kind a wire value names; total as well.
    pub open spec fn spec_of_wire(w: WireValue) -> MediaStreamType {
        match w {
            WireValue::Str(s) => MediaStreamType::spec_from_text(s@),
            WireValue::Int(i) => if 0 <= i <= u8::MAX {
                MediaStreamType::spec_from_ordinal(i as int)
            } else {
                MediaStreamType::Unknown
            },
            WireValue::Bool(_) => MediaStreamType::Unknown,
            WireValue::Other => MediaStreamType::Unknown,
        }
    }

    /// The kind named by an ordinal.
    pub fn from_ordinal(n: u64) -> (r: MediaStreamType)
        ensures
            r == MediaStreamType::spec_from_ordinal(n as int),
    {
        if n == 1 {
            MediaStreamType::Video
        } else if n == 2 {
            MediaStreamType::Audio
        } else if n == 3 {
            MediaStreamType::Subtitles
        } else if n == 4 {
            MediaStreamType::Lyrics
        } else {
            MediaStreamType::Unknown
        }
    }

    /// Reads a discriminant from text; never fails.
    pub fn from_str(s: &str) -> (r: MediaStreamType)
        ensures
            r == MediaStreamType::spec_from_text(s@),
    {
        proof {
            if valid_numeral(s@) {
                lemma_numeral_nonneg(s@);
            }
        }
        match parse_u64(s) {
            Some(v) => {
                if v <= u8::MAX as u64 {
                    MediaStreamType::from_ordinal(v)
                } else {
                    MediaStreamType::Unknown
                }
            },
            None => MediaStreamType::Unknown,
        }
    }

    /// Reads a discriminant from a wire value; never fails.
    pub fn from_wire(w: &WireValue) -> (r: MediaStreamType)
        ensures
            r == MediaStreamType::spec_of_wire(*w),
    {
        match w {
            WireValue::Str(s) => MediaStreamType::from_str(s.as_str()),
            WireValue::Int(i) => {
                if *i >= 0 && *i <= u8::MAX as i64 {
                    MediaStreamType::from_ordinal(*i as u64)
                } else {
                    MediaStreamType::Unknown
                }
            },
            WireValue::Bool(_) => MediaStreamType::Unknown,
            WireValue::Other => MediaStreamType::Unknown,
        }
    }
}

impl Default for MediaStreamType {
    /// The default discriminant is `Unknown`.
    fn default() -> (r: MediaStreamType)
        ensures
            r == MediaStreamType::Unknown,
    {
        MediaStreamType::Unknown
    }
}

/// The flat, coercion-normalized intermediate record: every field any of
/// the four variants might want, each either present with a strict value
/// or absent. Numbers that may carry a fractional part are held as their
/// decimal text, exactly as validated on the wire.
#[derive(Debug, Clone)]
pub struct MediaStreamStruct {
    pub id: u32,
    pub stream_type: MediaStreamType,
    pub default: Option<bool>,
    pub selected: Option<bool>,
    pub codec: Option<String>,
    pub index: Option<u8>,
    pub bitrate: Option<u32>,
    pub chroma_subsampling: Option<String>,
    pub chroma_location: Option<String>,
    pub closed_captions: Option<String>,
    pub coded_height: Option<String>,
    pub coded_width: Option<String>,
    pub color_primaries: Option<String>,
    pub color_space: Option<String>,
    pub color_range: Option<String>,
    pub color_trc: Option<String>,
    pub frame_rate: Option<String>,
    pub height: Option<u16>,
    pub width: Option<u16>,
    pub level: Option<u16>,
    pub profile: Option<String>,
    pub ref_frames: Option<u64>,
    pub display_title: String,
    pub has_scaling_matrix: Option<bool>,
    pub scan_type: Option<String>,
    pub bit_depth: Option<u16>,
    pub sampling_rate: Option<u32>,
    pub channels: Option<u8>,
    pub audio_channel_layout: Option<String>,
    pub key: Option<String>,
    pub title: Option<String>,
    pub language: Option<String>,
    pub language_code: Option<String>,
    pub embedded_in_video: Option<bool>,
    pub extended_display_title: Option<String>,
    pub album_gain: Option<String>,
    pub album_peak: Option<String>,
    pub album_range: Option<String>,
    pub gain: Option<String>,
    pub loudness: Option<String>,
    pub lra: Option<String>,
    pub peak: Option<String>,
    pub format: Option<String>,
    pub provider: Option<String>,
}

/// The lenient boolean a record's field decodes to.
pub open spec fn field_bool(m: Seq<Field>, key: Seq<char>) -> Option<bool> {
    match lookup(m, key) {
        Some(w) => bool_of_wire(w),
        None => None,
    }
}

/// The lenient `u64` a record's field decodes to.
pub open spec fn field_u64(m: Seq<Field>, key: Seq<char>) -> Option<u64> {
    match lookup(m, key) {
        Some(w) => match num_of_wire(w, u64::MAX as int) {
            Some(n) => Some(n as u64),
            None => None,
        },
        None => None,
    }
}

/// The lenient `u32` a record's field decodes to.
pub open spec fn field_u32(m: Seq<Field>, key: Seq<char>) -> Option<u32> {
    match lookup(m, key) {
        Some(w) => match num_of_wire(w, u32::MAX as int) {
            Some(n) => Some(n as u32),
            None => None,
        },
        None => None,
    }
}

/// The lenient `u16` a record's field decodes to.
pub open spec fn field_u16(m: Seq<Field>, key: Seq<char>) -> Option<u16> {
    match lookup(m, key) {
        Some(w) => match num_of_wire(w, u16::MAX as int) {
            Some(n) => Some(n as u16),
            None => None,
        },
        None => None,
    }
}

/// The lenient `u8` a record's field decodes to.
pub open spec fn field_u8(m: Seq<Field>, key: Seq<char>) -> Option<u8> {
    match lookup(m, key) {
        Some(w) => match num_of_wire(w, u8::MAX as int) {
            Some(n) => Some(n as u8),
            None => None,
        },
        None => None,
    }
}

/// The string a record's field carries, if it carries one.
pub open spec fn field_str(m: Seq<Field>, key: Seq<char>) -> Option<String> {
    match lookup(m, key) {
        Some(w) => str_of_wire(w),
        None => None,
    }
}

/// The floating-point text a record's field decodes to.
pub open spec fn field_float_text(m: Seq<Field>, key: Seq<char>) -> Option<Seq<char>> {
    match lookup(m, key) {
        Some(w) => float_text_of_wire(w),
        None => None,
    }
}

/// The view of an optional string.
pub open spec fn opt_view(o: Option<String>) -> Option<Seq<char>> {
    match o {
        Some(s) => Some(s@),
        None => None,
    }
}

/// The identifier a record decodes to: absent means zero, a present value
/// must be numeric.
pub open spec fn spec_id(m: Seq<Field>) -> Result<u32, DecodeError> {
    match lookup(m, "id"@) {
        None => Ok(0),
        Some(w) => match num_of_wire(w, u32::MAX as int) {
            Some(n) => Ok(n as u32),
            None => Err(DecodeError::NumericFormat),
        },
    }
}

/// The stream index a record decodes to: absent stays absent, a present
/// value must be numeric.
pub open spec fn spec_index(m: Seq<Field>) -> Result<Option<u8>, DecodeError> {
    match lookup(m, "index"@) {
        None => Ok(None),
        Some(w) => match num_of_wire(w, u8::MAX as int) {
            Some(n) => Ok(Some(n as u8)),
            None => Err(DecodeError::NumericFormat),
        },
    }
}

/// The codec a record decodes to: absent stays absent, a present value
/// must be a string.
pub open spec fn spec_codec(m: Seq<Field>) -> Result<Option<String>, DecodeError> {
    match lookup(m, "codec"@) {
        None => Ok(None),
        Some(w) => match str_of_wire(w) {
            Some(s) => Ok(Some(s)),
            None => Err(DecodeError::StringFormat),
        },
    }
}

/// The display title a record decodes to: absent means the empty default,
/// a present value must be a string.
pub open spec fn spec_display_title(m: Seq<Field>) -> Result<Option<String>, DecodeError> {
    match lookup(m, "displayTitle"@) {
        None => Ok(None),
        Some(w) => match str_of_wire(w) {
            Some(s) => Ok(Some(s)),
            None => Err(DecodeError::StringFormat),
        },
    }
}

/// The discriminant a record decodes to; absent means `Unknown`.
pub open spec fn spec_stream_type(m: Seq<Field>) -> MediaStreamType {
    match lookup(m, "streamType"@) {
        Some(w) => MediaStreamType::spec_of_wire(w),
        None => MediaStreamType::Unknown,
    }
}

/// Why assembling the raw record fails, if it does: a malformed value in
/// one of the strict common fields — a non-numeric identifier or index,
/// or a non-string codec or display title.
pub open spec fn assemble_err(m: Seq<Field>) -> Option<DecodeError> {
    if spec_id(m) is Err {
        Some(DecodeError::NumericFormat)
    } else if spec_index(m) is Err {
        Some(DecodeError::NumericFormat)
    } else if spec_codec(m) is Err {
        Some(DecodeError::StringFormat)
    } else if spec_display_title(m) is Err {
        Some(DecodeError::StringFormat)
    } else {
        None
    }
}

/// The raw record `rec` is what the field map `m` assembles to: every
/// field is its own coercion of the correspondingly named wire field.
pub open spec fn assembled(m: Seq<Field>, rec: MediaStreamStruct) -> bool {
    &&& spec_id(m) == Ok::<u32, DecodeError>(rec.id)
    &&& spec_index(m) == Ok::<Option<u8>, DecodeError>(rec.index)
    &&& rec.stream_type == spec_stream_type(m)
    &&& match spec_display_title(m) {
        Ok(t) => match t {
            Some(s) => rec.display_title == s,
            None => rec.display_title@ == Seq::<char>::empty(),
        },
        Err(_) => false,
    }
    &&& spec_codec(m) == Ok::<Option<String>, DecodeError>(rec.codec)
    &&& rec.default == field_bool(m, "default"@)
    &&& rec.selected == field_bool(m, "selected"@)
    &&& rec.bitrate == field_u32(m, "bitrate"@)
    &&& rec.chroma_subsampling == field_str(m, "chromaSubsampling"@)
    &&& rec.chroma_location == field_str(m, "chromaLocation"@)
    &&& rec.closed_captions == field_str(m, "closedCaptions"@)
    &&& rec.coded_height == field_str(m, "codedHeight"@)
    &&& rec.coded_width == field_str(m, "codedWidth"@)
    &&& rec.color_primaries == field_str(m, "colorPrimaries"@)
    &&& rec.color_space == field_str(m, "colorSpace"@)
    &&& rec.color_range == field_str(m, "colorRange"@)
    &&& rec.color_trc == field_str(m, "colorTrc"@)
    &&& opt_view(rec.frame_rate) == field_float_text(m, "frameRate"@)
    &&& rec.height == field_u16(m, "height"@)
    &&& rec.width == field_u16(m, "width"@)
    &&& rec.level == field_u16(m, "level"@)
    &&& rec.profile == field_str(m, "profile"@)
    &&& rec.ref_frames == field_u64(m, "refFrames"@)
    &&& rec.has_scaling_matrix == field_bool(m, "hasScalingMatrix"@)
    &&& rec.scan_type == field_str(m, "scanType"@)
    &&& rec.bit_depth == field_u16(m, "bitDepth"@)
    &&& rec.sampling_rate == field_u32(m, "samplingRate"@)
    &&& rec.channels == field_u8(m, "channels"@)
    &&& rec.audio_channel_layout == field_str(m, "audioChannelLayout"@)
    &&& rec.key == field_str(m, "key"@)
    &&& rec.title == field_str(m, "title"@)
    &&& rec.language == field_str(m, "language"@)
    &&& rec.language_code == field_str(m, "languageCode"@)
    &&& rec.embedded_in_video == field_bool(m, "embeddedInVideo"@)
    &&& rec.extended_display_title == field_str(m, "extendedDisplayTitle"@)
    &&& opt_view(rec.album_gain) == field_float_text(m, "albumGain"@)
    &&& opt_view(rec.album_peak) == field_float_text(m, "albumPeak"@)
    &&& opt_view(rec.album_range) == field_float_text(m, "albumRange"@)
    &&& opt_view(rec.gain) == field_float_text(m, "gain"@)
    &&& opt_view(rec.loudness) == field_float_text(m, "loudness"@)
    &&& opt_view(rec.lra) == field_float_text(m, "lra"@)
    &&& opt_view(rec.peak) == field_float_text(m, "peak"@)
    &&& rec.format == field_str(m, "format"@)
    &&& rec.provider == field_str(m, "provider"@)
}

/// Assembles the raw stream record from a wire field map.
///
/// The strict common fields — identifier, index, codec, display title —
/// abort this one record with an error when present but malformed; every
/// other field is coerced leniently, treating a failure as absence. The
/// discriminant is the one common field that cannot fail here: reading it
/// is total, and an unreadable one surfaces later as an unrecognized kind.
pub fn assemble(map: &FieldMap) -> (r: Result<MediaStreamStruct, DecodeError>)
    ensures
        match r {
            Ok(rec) => assemble_err(map@) is None && assembled(map@, rec),
            Err(e) => assemble_err(map@) == Some(e),
        },
{
    let id: u32 = match map.get("id") {
        None => 0,
        Some(w) => match u32_from_anything(w) {
            Ok(v) => v,
            Err(e) => {
                return Err(e);
            },
        },
    };
    let index: Option<u8> = match map.get("index") {
        None => None,
        Some(w) => match u8_from_anything(w) {
            Ok(v) => Some(v),
            Err(e) => {
                return Err(e);
            },
        },
    };
    let codec: Option<String> = match map.get("codec") {
        None => None,
        Some(w) => match string_from_wire(w) {
            Ok(s) => Some(s),
            Err(e) => {
                return Err(e);
            },
        },
    };
    let display_title: String = match map.get("displayTitle") {
        None => String::new(),
        Some(w) => match string_from_wire(w) {
            Ok(s) => s,
            Err(e) => {
                return Err(e);
            },
        },
    };
    let stream_type = match map.get("streamType") {
        Some(w) => MediaStreamType::from_wire(w),
        None => MediaStreamType::Unknown,
    };
    let rec = MediaStreamStruct {
        id,
        stream_type,
        index,
        codec,
        display_title,
        default: option_bool_from_anything(map.get("default")),
        selected: option_bool_from_anything(map.get("selected")),
        bitrate: option_u32_from_anything(map.get("bitrate")),
        chroma_subsampling: option_string_from_wire(map.get("chromaSubsampling")),
        chroma_location: option_string_from_wire(map.get("chromaLocation")),
        closed_captions: option_string_from_wire(map.get("closedCaptions")),
        coded_height: option_string_from_wire(map.get("codedHeight")),
        coded_width: option_string_from_wire(map.get("codedWidth")),
        color_primaries: option_string_from_wire(map.get("colorPrimaries")),
        color_space: option_string_from_wire(map.get("colorSpace")),
        color_range: option_string_from_wire(map.get("colorRange")),
        color_trc: option_string_from_wire(map.get("colorTrc")),
        frame_rate: option_float_text_from_anything(map.get("frameRate")),
        height: option_u16_from_anything(map.get("height")),
        width: option_u16_from_anything(map.get("width")),
        level: option_u16_from_anything(map.get("level")),
        profile: option_string_from_wire(map.get("profile")),
        ref_frames: option_u64_from_anything(map.get("refFrames")),
        has_scaling_matrix: option_bool_from_anything(map.get("hasScalingMatrix")),
        scan_type: option_string_from_wire(map.get("scanType")),
        bit_depth: option_u16_from_anything(map.get("bitDepth")),
        sampling_rate: option_u32_from_anything(map.get("samplingRate")),
        channels: option_u8_from_anything(map.get("channels")),
        audio_channel_layout: option_string_from_wire(map.get("audioChannelLayout")),
        key: option_string_from_wire(map.get("key")),
        title: option_string_from_wire(map.get("title")),
        language: option_string_from_wire(map.get("language")),
        language_code: option_string_from_wire(map.get("languageCode")),
        embedded_in_video: option_bool_from_anything(map.get("embeddedInVideo")),
        extended_display_title: option_string_from_wire(map.get("extendedDisplayTitle")),
        album_gain: option_float_text_from_anything(map.get("albumGain")),
        album_peak: option_float_text_from_anything(map.get("albumPeak")),
        album_range: option_float_text_from_anything(map.get("albumRange")),
        gain: option_float_text_from_anything(map.get("gain")),
        loudness: option_float_text_from_anything(map.get("loudness")),
        lra: option_float_text_from_anything(map.get("lra")),
        peak: option_float_text_from_anything(map.get("peak")),
        format: option_string_from_wire(map.get("format")),
        provider: option_string_from_wire(map.get("provider")),
    };
    Ok(rec)
}

/// A typed video stream.
#[derive(Debug, Clone)]
pub struct VideoStream {
    pub id: u32,
    pub stream_type: MediaStreamType,
    pub codec: Option<String>,
    pub index: Option<u8>,
    pub display_title: String,
    pub default: bool,
    pub bitrate: u32,
    pub chroma_subsampling: String,
    pub chroma_location: String,
    pub closed_captions: String,
    pub coded_height: String,
    pub coded_width: String,
    pub color_primaries: String,
    pub color_space: String,
    pub color_range: String,
    pub color_trc: String,
    pub frame_rate: String,
    pub height: u16,
    pub width: u16,
    pub level: u16,
    pub profile: String,
    pub ref_frames: u64,
    pub has_scaling_matrix: bool,
    pub scan_type: String,
    pub bit_depth: Option<u16>,
}

/// A typed audio stream.
#[derive(Debug, Clone)]
pub struct AudioStream {
    pub id: u32,
    pub stream_type: MediaStreamType,
    pub codec: Option<String>,
    pub index: Option<u8>,
    pub display_title: String,
    pub default: Option<bool>,
    pub selected: bool,
    pub bitrate: u32,
    pub profile: String,
    pub sampling_rate: u32,
    pub channels: u8,
    pub audio_channel_layout: String,
    pub album_gain: Option<String>,
    pub album_peak: Option<String>,
    pub album_range: Option<String>,
    pub bit_depth: Option<u16>,
    pub extended_display_title: Option<String>,
    pub gain: Option<String>,
    pub loudness: Option<String>,
    pub lra: Option<String>,
    pub peak: Option<String>,
}

/// A typed subtitles stream.
#[derive(Debug, Clone)]
pub struct SubtitlesStream {
    pub id: u32,
    pub stream_type: MediaStreamType,
    pub codec: Option<String>,
    pub index: Option<u8>,
    pub display_title: String,
    pub selected: bool,
    pub bitrate: Option<u32>,
    pub embedded_in_video: bool,
}

/// A typed lyrics stream.
#[derive(Debug, Clone)]
pub struct LyricsStream {
    pub id: u32,
    pub stream_type: MediaStreamType,
    pub codec: Option<String>,
    pub index: Option<u8>,
    pub display_title: String,
    pub extended_display_title: Option<String>,
    pub format: Option<String>,
    pub provider: Option<String>,
}

/// A decoded stream: exactly one of the four typed shapes, tagged by its
/// kind.
#[derive(Debug, Clone)]
pub enum MediaStream {
    Video(VideoStream),
    Audio(AudioStream),
    Subtitles(SubtitlesStream),
    Lyrics(LyricsStream),
}

/// The result of one successful decode: the typed stream and the
/// diagnostics the fallback policy recorded, one per required field that
/// was absent, in field order.
#[derive(Debug, Clone)]
pub struct DecodedStream {
    pub stream: MediaStream,
    pub diagnostics: Vec<String>,
}

/// Fills a required target field from an optional raw field: the value
/// when present, otherwise the type's default plus one diagnostic naming
/// the field.
pub fn coerce_required<T>(
    field: &str,
    value: Option<T>,
    default: T,
    diagnostics: &mut Vec<String>,
) -> (r: T)
    ensures
        match value {
            Some(v) => r == v && final(diagnostics)@ == old(diagnostics)@,
            None => r == default && views_of(final(diagnostics)@) == views_of(
                old(diagnostics)@,
            ).push(field@),
        },
{
    match value {
        Some(v) => v,
        None => {
            let name = String::from_str(field);
            let ghost gname = name;
            diagnostics.push(name);
            proof {
                lemma_views_push(old(diagnostics)@, gname);
            }
            default
        },
    }
}

/// Carries an optional raw field into an optional target field unchanged:
/// absence stays absence, silently.
pub fn pass_through<T>(value: Option<T>) -> (r: Option<T>)
    ensures
        r == value,
{
    value
}

/// Appends a diagnostic name when a required field is missing.
pub open spec fn with_missing(d: Seq<Seq<char>>, miss: bool, name: Seq<char>) -> Seq<Seq<char>> {
    if miss {
        d.push(name)
    } else {
        d
    }
}

/// The diagnostics a video projection records, in field order.
pub open spec fn video_missing(s: MediaStreamStruct) -> Seq<Seq<char>> {
    let d = Seq::<Seq<char>>::empty();
    let d = with_missing(d, s.default is None, "default"@);
    let d = with_missing(d, s.bitrate is None, "bitrate"@);
    let d = with_missing(d, s.chroma_subsampling is None, "chroma_subsampling"@);
    let d = with_missing(d, s.chroma_location is None, "chroma_location"@);
    let d = with_missing(d, s.closed_captions is None, "closed_captions"@);
    let d = with_missing(d, s.coded_height is None, "coded_height"@);
    let d = with_missing(d, s.coded_width is None, "coded_width"@);
    let d = with_missing(d, s.color_primaries is None, "color_primaries"@);
    let d = with_missing(d, s.color_space is None, "color_space"@);
    let d = with_missing(d, s.color_range is None, "color_range"@);
    let d = with_missing(d, s.color_trc is None, "color_trc"@);
    let d = with_missing(d, s.frame_rate is None, "frame_rate"@);
    let d = with_missing(d, s.height is None, "height"@);
    let d = with_missing(d, s.width is None, "width"@);
    let d = with_missing(d, s.level is None, "level"@);
    let d = with_missing(d, s.profile is None, "profile"@);
    let d = with_missing(d, s.ref_frames is None, "ref_frames"@);
    let d = with_missing(d, s.has_scaling_matrix is None, "has_scaling_matrix"@);
    let d = with_missing(d, s.scan_type is None, "scan_type"@);
    d
}

/// The diagnostics an audio projection records, in field order.
pub open spec fn audio_missing(s: MediaStreamStruct) -> Seq<Seq<char>> {
    let d = Seq::<Seq<char>>::empty();
    let d = with_missing(d, s.selected is None, "selected"@);
    let d = with_missing(d, s.bitrate is None, "bitrate"@);
    let d = with_missing(d, s.profile is None, "profile"@);
    let d = with_missing(d, s.sampling_rate is None, "sampling_rate"@);
    let d = with_missing(d, s.channels is None, "channels"@);
    let d = with_missing(d, s.audio_channel_layout is None, "audio_channel_layout"@);
    d
}

/// The diagnostics a subtitles projection records, in field order.
pub open spec fn subtitles_missing(s: MediaStreamStruct) -> Seq<Seq<char>> {
    let d = Seq::<Seq<char>>::empty();
    let d = with_missing(d, s.selected is None, "selected"@);
    let d = with_missing(d, s.embedded_in_video is None, "embedded_in_video"@);
    d
}

/// A required boolean field fell back to `false` when absent.
pub open spec fn fb_bool(src: Option<bool>, dst: bool) -> bool {
    match src {
        Some(b) => dst == b,
        None => dst == false,
    }
}

/// A required `u8` field fell back to `0` when absent.
pub open spec fn fb_u8(src: Option<u8>, dst: u8) -> bool {
    match src {
        Some(x) => dst == x,
        None => dst == 0,
    }
}

/// A required `u16` field fell back to `0` when absent.
pub open spec fn fb_u16(src: Option<u16>, dst: u16) -> bool {
    match src {
        Some(x) => dst == x,
        None => dst == 0,
    }
}

/// A required `u32` field fell back to `0` when absent.
pub open spec fn fb_u32(src: Option<u32>, dst: u32) -> bool {
    match src {
        Some(x) => dst == x,
        None => dst == 0,
    }
}

/// A required `u64` field fell back to `0` when absent.
pub open spec fn fb_u64(src: Option<u64>, dst: u64) -> bool {
    match src {
        Some(x) => dst == x,
        None => dst == 0,
    }
}

/// A required string field fell back to the empty string when absent.
pub open spec fn fb_str(src: Option<String>, dst: String) -> bool {
    match src {
        Some(x) => dst == x,
        None => dst@ == Seq::<char>::empty(),
    }
}

/// A required numeric-text field fell back to `"0"` when absent.
pub open spec fn fb_num_text(src: Option<String>, dst: String) -> bool {
    match src {
        Some(x) => dst == x,
        None => dst@ == "0"@,
    }
}

/// The video projection of a raw record: common fields carried verbatim,
/// required fields filled by the fallback policy, `bit_depth` kept
/// optional, and the diagnostics naming exactly the fields that fell back.
pub open spec fn video_projected(s: MediaStreamStruct, v: VideoStream, d: Seq<String>) -> bool {
    &&& v.id == s.id
    &&& v.stream_type == s.stream_type
    &&& v.codec == s.codec
    &&& v.index == s.index
    &&& v.display_title == s.display_title
    &&& fb_bool(s.default, v.default)
    &&& fb_u32(s.bitrate, v.bitrate)
    &&& fb_str(s.chroma_subsampling, v.chroma_subsampling)
    &&& fb_str(s.chroma_location, v.chroma_location)
    &&& fb_str(s.closed_captions, v.closed_captions)
    &&& fb_str(s.coded_height, v.coded_height)
    &&& fb_str(s.coded_width, v.coded_width)
    &&& fb_str(s.color_primaries, v.color_primaries)
    &&& fb_str(s.color_space, v.color_space)
    &&& fb_str(s.color_range, v.color_range)
    &&& fb_str(s.color_trc, v.color_trc)
    &&& fb_num_text(s.frame_rate, v.frame_rate)
    &&& fb_u16(s.height, v.height)
    &&& fb_u16(s.width, v.width)
    &&& fb_u16(s.level, v.level)
    &&& fb_str(s.profile, v.profile)
    &&& fb_u64(s.ref_frames, v.ref_frames)
    &&& fb_bool(s.has_scaling_matrix, v.has_scaling_matrix)
    &&& fb_str(s.scan_type, v.scan_type)
    &&& v.bit_depth == s.bit_depth
    &&& views_of(d) == video_missing(s)
}

/// The audio projection of a raw record.
pub open spec fn audio_projected(s: MediaStreamStruct, v: AudioStream, d: Seq<String>) -> bool {
    &&& v.id == s.id
    &&& v.stream_type == s.stream_type
    &&& v.codec == s.codec
    &&& v.index == s.index
    &&& v.display_title == s.display_title
    &&& v.default == s.default
    &&& fb_bool(s.selected, v.selected)
    &&& fb_u32(s.bitrate, v.bitrate)
    &&& fb_str(s.profile, v.profile)
    &&& fb_u32(s.sampling_rate, v.sampling_rate)
    &&& fb_u8(s.channels, v.channels)
    &&& fb_str(s.audio_channel_layout, v.audio_channel_layout)
    &&& v.album_gain == s.album_gain
    &&& v.album_peak == s.album_peak
    &&& v.album_range == s.album_range
    &&& v.bit_depth == s.bit_depth
    &&& v.extended_display_title == s.extended_display_title
    &&& v.gain == s.gain
    &&& v.loudness == s.loudness
    &&& v.lra == s.lra
    &&& v.peak == s.peak
    &&& views_of(d) == audio_missing(s)
}

/// The subtitles projection of a raw record.
pub open spec fn subtitles_projected(
    s: MediaStreamStruct,
    v: SubtitlesStream,
    d: Seq<String>,
) -> bool {
    &&& v.id == s.id
    &&& v.stream_type == s.stream_type
    &&& v.codec == s.codec
    &&& v.index == s.index
    &&& v.display_title == s.display_title
    &&& fb_bool(s.selected, v.selected)
    &&& v.bitrate == s.bitrate
    &&& fb_bool(s.embedded_in_video, v.embedded_in_video)
    &&& views_of(d) == subtitles_missing(s)
}

/// The lyrics projection of a raw record; every owned field stays
/// optional, so it records no diagnostics.
pub open spec fn lyrics_projected(s: MediaStreamStruct, v: LyricsStream, d: Seq<String>) -> bool {
    &&& v.id == s.id
    &&& v.stream_type == s.stream_type
    &&& v.codec == s.codec
    &&& v.index == s.index
    &&& v.display_title == s.display_title
    &&& v.extended_display_title == s.extended_display_title
    &&& v.format == s.format
    &&& v.provider == s.provider
    &&& views_of(d) == Seq::<Seq<char>>::empty()
}

impl VideoStream {
    /// Projects a raw record onto the video shape.
    #[verifier::rlimit(100)]
    pub fn project(s: MediaStreamStruct) -> (r: (VideoStream, Vec<String>))
        ensures
            video_projected(s, r.0, r.1@),
    {
        let mut diagnostics: Vec<String> = Vec::new();
        proof {
            assert(views_of(diagnostics@) =~= Seq::<Seq<char>>::empty());
        }
        let default = coerce_required("default", s.default, false, &mut diagnostics);
        let bitrate = coerce_required("bitrate", s.bitrate, 0, &mut diagnostics);
        let chroma_subsampling = coerce_required(
            "chroma_subsampling",
            s.chroma_subsampling,
            String::new(),
            &mut diagnostics,
        );
        let chroma_location = coerce_required(
            "chroma_location",
            s.chroma_location,
            String::new(),
            &mut diagnostics,
        );
        let closed_captions = coerce_required(
            "closed_captions",
            s.closed_captions,
            String::new(),
            &mut diagnostics,
        );
        let coded_height = coerce_required(
            "coded_height",
            s.coded_height,
            String::new(),
            &mut diagnostics,
        );
        let coded_width = coerce_required(
            "coded_width",
            s.coded_width,
            String::new(),
            &mut diagnostics,
        );
        let color_primaries = coerce_required(
            "color_primaries",
            s.color_primaries,
            String::new(),
            &mut diagnostics,
        );
        let color_space = coerce_required(
            "color_space",
            s.color_space,
            String::new(),
            &mut diagnostics,
        );
        let color_range = coerce_required(
            "color_range",
            s.color_range,
            String::new(),
            &mut diagnostics,
        );
        let color_trc = coerce_required("color_trc", s.color_trc, String::new(), &mut diagnostics);
        let frame_rate = coerce_required(
            "frame_rate",
            s.frame_rate,
            String::from_str("0"),
            &mut diagnostics,
        );
        let height = coerce_required("height", s.height, 0, &mut diagnostics);
        let width = coerce_required("width", s.width, 0, &mut diagnostics);
        let level = coerce_required("level", s.level, 0, &mut diagnostics);
        let profile = coerce_required("profile", s.profile, String::new(), &mut diagnostics);
        let ref_frames = coerce_required("ref_frames", s.ref_frames, 0, &mut diagnostics);
        let has_scaling_matrix = coerce_required(
            "has_scaling_matrix",
            s.has_scaling_matrix,
            false,
            &mut diagnostics,
        );
        let scan_type = coerce_required("scan_type", s.scan_type, String::new(), &mut diagnostics);
        let v = VideoStream {
            id: s.id,
            stream_type: s.stream_type,
            codec: s.codec,
            index: s.index,
            display_title: s.display_title,
            default,
            bitrate,
            chroma_subsampling,
            chroma_location,
            closed_captions,
            coded_height,
            coded_width,
            color_primaries,
            color_space,
            color_range,
            color_trc,
            frame_rate,
            height,
            width,
            level,
            profile,
            ref_frames,
            has_scaling_matrix,
            scan_type,
            bit_depth: pass_through(s.bit_depth),
        };
        (v, diagnostics)
    }
}

impl AudioStream {
    /// Projects a raw record onto the audio shape.
    pub fn project(s: MediaStreamStruct) -> (r: (AudioStream, Vec<String>))
        ensures
            audio_projected(s, r.0, r.1@),
    {
        let mut diagnostics: Vec<String> = Vec::new();
        proof {
            assert(views_of(diagnostics@) =~= Seq::<Seq<char>>::empty());
        }
        let selected = coerce_required("selected", s.selected, false, &mut diagnostics);
        let bitrate = coerce_required("bitrate", s.bitrate, 0, &mut diagnostics);
        let profile = coerce_required("profile", s.profile, String::new(), &mut diagnostics);
        let sampling_rate = coerce_required("sampling_rate", s.sampling_rate, 0, &mut diagnostics);
        let channels = coerce_required("channels", s.channels, 0, &mut diagnostics);
        let audio_channel_layout = coerce_required(
            "audio_channel_layout",
            s.audio_channel_layout,
            String::new(),
            &mut diagnostics,
        );
        let v = AudioStream {
            id: s.id,
            stream_type: s.stream_type,
            codec: s.codec,
            index: s.index,
            display_title: s.display_title,
            default: pass_through(s.default),
            selected,
            bitrate,
            profile,
            sampling_rate,
            channels,
            audio_channel_layout,
            album_gain: pass_through(s.album_gain),
            album_peak: pass_through(s.album_peak),
            album_range: pass_through(s.album_range),
            bit_depth: pass_through(s.bit_depth),
            extended_display_title: pass_through(s.extended_display_title),
            gain: pass_through(s.gain),
            loudness: pass_through(s.loudness),
            lra: pass_through(s.lra),
            peak: pass_through(s.peak),
        };
        (v, diagnostics)
    }
}

impl SubtitlesStream {
    /// Projects a raw record onto the subtitles shape.
    pub fn project(s: MediaStreamStruct) -> (r: (SubtitlesStream, Vec<String>))
        ensures
            subtitles_projected(s, r.0, r.1@),
    {
        let mut diagnostics: Vec<String> = Vec::new();
        proof {
            assert(views_of(diagnostics@) =~= Seq::<Seq<char>>::empty());
        }
        let selected = coerce_required("selected", s.selected, false, &mut diagnostics);
        let embedded_in_video = coerce_required(
            "embedded_in_video",
            s.embedded_in_video,
            false,
            &mut diagnostics,
        );
        let v = SubtitlesStream {
            id: s.id,
            stream_type: s.stream_type,
            codec: s.codec,
            index: s.index,
            display_title: s.display_title,
            selected,
            bitrate: pass_through(s.bitrate),
            embedded_in_video,
        };
        (v, diagnostics)
    }
}

impl LyricsStream {
    /// Projects a raw record onto the lyrics shape.
    pub fn project(s: MediaStreamStruct) -> (r: (LyricsStream, Vec<String>))
        ensures
            lyrics_projected(s, r.0, r.1@),
    {
        let diagnostics: Vec<String> = Vec::new();
        proof {
            assert(views_of(diagnostics@) =~= Seq::<Seq<char>>::empty());
        }
        let v = LyricsStream {
            id: s.id,
            stream_type: s.stream_type,
            codec: s.codec,
            index: s.index,
            display_title: s.display_title,
            extended_display_title: pass_through(s.extended_display_title),
            format: pass_through(s.format),
            provider: pass_through(s.provider),
        };
        (v, diagnostics)
    }
}

/// What dispatching a raw record yields: the projection matching its
/// discriminant, or `UnrecognizedStreamKind` when the discriminant names
/// no kind. The produced tag always equals the discriminant that selected
/// it, and the common fields are carried verbatim.
pub open spec fn projected(s: MediaStreamStruct, r: Result<DecodedStream, DecodeError>) -> bool {
    match s.stream_type {
        MediaStreamType::Unknown => r matches Err(e) && e == DecodeError::UnrecognizedStreamKind,
        MediaStreamType::Video => r matches Ok(d) && d.stream matches MediaStream::Video(v)
            && video_projected(s, v, d.diagnostics@),
        MediaStreamType::Audio => r matches Ok(d) && d.stream matches MediaStream::Audio(v)
            && audio_projected(s, v, d.diagnostics@),
        MediaStreamType::Subtitles => r matches Ok(d) && d.stream matches MediaStream::Subtitles(v)
            && subtitles_projected(s, v, d.diagnostics@),
        MediaStreamType::Lyrics => r matches Ok(d) && d.stream matches MediaStream::Lyrics(v)
            && lyrics_projected(s, v, d.diagnostics@),
    }
}

impl MediaStream {
    /// Dispatches a raw record to the projector its discriminant selects.
    ///
    /// A record whose discriminant is `Unknown` — out of range, malformed
    /// or absent — is reported as `UnrecognizedStreamKind`, never dropped
    /// silently and never a panic.
    pub fn new(s: MediaStreamStruct) -> (r: Result<DecodedStream, DecodeError>)
        ensures
            projected(s, r),
            r is Ok <==> s.stream_type != MediaStreamType::Unknown,
    {
        match s.stream_type {
            MediaStreamType::Unknown => Err(DecodeError::UnrecognizedStreamKind),
            MediaStreamType::Video => {
                let (v, diagnostics) = VideoStream::project(s);
                Ok(DecodedStream { stream: MediaStream::Video(v), diagnostics })
            },
            MediaStreamType::Audio => {
                let (v, diagnostics) = AudioStream::project(s);
                Ok(DecodedStream { stream: MediaStream::Audio(v), diagnostics })
            },
            MediaStreamType::Subtitles => {
                let (v, diagnostics) = SubtitlesStream::project(s);
                Ok(DecodedStream { stream: MediaStream::Subtitles(v), diagnostics })
            },
            MediaStreamType::Lyrics => {
                let (v, diagnostics) = LyricsStream::project(s);
                Ok(DecodedStream { stream: MediaStream::Lyrics(v), diagnostics })
            },
        }
    }
}

/// What decoding one raw field map yields: the assembly error for a
/// malformed strict field, otherwise the projection of the assembled
/// record by its discriminant.
pub open spec fn decodes_to(m: Seq<Field>, r: Result<DecodedStream, DecodeError>) -> bool {
    match assemble_err(m) {
        Some(e) => r matches Err(e2) && e2 == e,
        None => exists|rec: MediaStreamStruct| #[trigger]
            assembled(m, rec) && projected(rec, r),
    }
}

/// Decodes one raw field map into a tagged stream value.
///
/// The decode fails only for a structurally broken record: a malformed
/// strict common field (`NumericFormat` from the identifier or index,
/// `StringFormat` from a codec or display title that is present but not
/// text) or a discriminant that names no kind (`UnrecognizedStreamKind`).
/// Failures in any other field degrade to defaults or absence instead.
pub fn decode_stream(map: &FieldMap) -> (r: Result<DecodedStream, DecodeError>)
    ensures
        decodes_to(map@, r),
        r is Ok <==> assemble_err(map@) is None && spec_stream_type(map@)
            != MediaStreamType::Unknown,
        r matches Err(e) ==> e == match assemble_err(map@) {
            Some(e0) => e0,
            None => DecodeError::UnrecognizedStreamKind,
        },
{
    let rec = match assemble(map) {
        Ok(rec) => rec,
        Err(e) => {
            return Err(e);
        },
    };
    let ghost grec = rec;
    let r = MediaStream::new(rec);
    proof {
        assert(assembled(map@, grec) && projected(grec, r));
    }
    r
}

/// The tag of a decoded stream.
pub open spec fn stream_tag(ms: MediaStream) -> MediaStreamType {
    match ms {
        MediaStream::Video(_) => MediaStreamType::Video,
        MediaStream::Audio(_) => MediaStreamType::Audio,
        MediaStream::Subtitles(_) => MediaStreamType::Subtitles,
        MediaStream::Lyrics(_) => MediaStreamType::Lyrics,
    }
}

/// The identifier a decoded stream carries.
pub open spec fn stream_id(ms: MediaStream) -> u32 {
    match ms {
        MediaStream::Video(v) => v.id,
        MediaStream::Audio(v) => v.id,
        MediaStream::Subtitles(v) => v.id,
        MediaStream::Lyrics(v) => v.id,
    }
}

/// The codec a decoded stream carries.
pub open spec fn stream_codec(ms: MediaStream) -> Option<String> {
    match ms {
        MediaStream::Video(v) => v.codec,
        MediaStream::Audio(v) => v.codec,
        MediaStream::Subtitles(v) => v.codec,
        MediaStream::Lyrics(v) => v.codec,
    }
}

/// The index a decoded stream carries.
pub open spec fn stream_index(ms: MediaStream) -> Option<u8> {
    match ms {
        MediaStream::Video(v) => v.index,
        MediaStream::Audio(v) => v.index,
        MediaStream::Subtitles(v) => v.index,
        MediaStream::Lyrics(v) => v.index,
    }
}

/// The display title a decoded stream carries.
pub open spec fn stream_display_title(ms: MediaStream) -> String {
    match ms {
        MediaStream::Video(v) => v.display_title,
        MediaStream::Audio(v) => v.display_title,
        MediaStream::Subtitles(v) => v.display_title,
        MediaStream::Lyrics(v) => v.display_title,
    }
}

/// For every recognized discriminant, dispatch succeeds, the produced tag
/// equals the discriminant that selected it, and the common fields —
/// identifier, codec, index, display title — are carried value-identical
/// from the raw record into the variant.
pub proof fn lemma_dispatch_preserves_common(
    s: MediaStreamStruct,
    r: Result<DecodedStream, DecodeError>,
)
    requires
        projected(s, r),
        s.stream_type != MediaStreamType::Unknown,
    ensures
        r matches Ok(d) && stream_tag(d.stream) == s.stream_type && stream_id(d.stream) == s.id
            && stream_codec(d.stream) == s.codec && stream_index(d.stream) == s.index
            && stream_display_title(d.stream) == s.display_title,
{
}

/// A record whose discriminant names no kind is reported as a recoverable
/// `UnrecognizedStreamKind` error, never dispatched to a wrong variant.
pub proof fn lemma_unknown_is_reported(
    s: MediaStreamStruct,
    r: Result<DecodedStream, DecodeError>,
)
    requires
        projected(s, r),
        s.stream_type == MediaStreamType::Unknown,
    ensures
        r matches Err(e) && e == DecodeError::UnrecognizedStreamKind,
{
}

/// Decodes a sequence of raw field maps, one result per input, in order.
pub fn decode_streams(maps: &Vec<FieldMap>) -> (r: Vec<Result<DecodedStream, DecodeError>>)
    ensures
        r@.len() == maps@.len(),
        forall|i: int| 0 <= i < maps@.len() ==> decodes_to(maps@[i]@, #[trigger] r@[i]),
{
    let n = maps.len();
    let mut r: Vec<Result<DecodedStream, DecodeError>> = Vec::new();
    let mut i: usize = 0;
    while i < n
        invariant
            0 <= i <= n == maps@.len(),
            r@.len() == i,
            forall|j: int| 0 <= j < i ==> decodes_to(maps@[j]@, #[trigger] r@[j]),
        decreases n - i,
    {
        let one = decode_stream(&maps[i]);
        r.push(one);
        i = i + 1;
    }
    r
}

} // verus!
