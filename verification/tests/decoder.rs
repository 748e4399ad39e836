use plex_api::error::DecodeError;
use plex_api::metadata::MediaTag;
use plex_api::session::{Player, SessionUser};
use plex_api::stream::{decode_stream, decode_streams, MediaStream, MediaStreamType};
use plex_api::wire::{FieldMap, WireValue};

fn text(t: &str) -> WireValue {
    WireValue::Str(String::from(t))
}

fn map(entries: &[(&str, WireValue)]) -> FieldMap {
    let mut m = FieldMap::new();
    for (k, v) in entries {
        m.push(k, v.clone());
    }
    m
}

#[test]
fn discriminants_dispatch_to_matching_variants() {
    let common = |ordinal: &str| {
        map(&[
            ("id", text("77")),
            ("streamType", text(ordinal)),
            ("codec", text("aac")),
            ("index", text("2")),
            ("displayTitle", text("Shared")),
        ])
    };
    let video = decode_stream(&common("1")).unwrap();
    match video.stream {
        MediaStream::Video(v) => {
            assert_eq!(v.stream_type, MediaStreamType::Video);
            assert_eq!(v.id, 77);
            assert_eq!(v.codec.as_deref(), Some("aac"));
            assert_eq!(v.index, Some(2));
            assert_eq!(v.display_title, "Shared");
        }
        other => panic!("wrong variant: {:?}", other),
    }
    let audio = decode_stream(&common("2")).unwrap();
    match audio.stream {
        MediaStream::Audio(v) => {
            assert_eq!(v.stream_type, MediaStreamType::Audio);
            assert_eq!(v.id, 77);
            assert_eq!(v.codec.as_deref(), Some("aac"));
            assert_eq!(v.index, Some(2));
            assert_eq!(v.display_title, "Shared");
        }
        other => panic!("wrong variant: {:?}", other),
    }
    let subs = decode_stream(&common("3")).unwrap();
    match subs.stream {
        MediaStream::Subtitles(v) => {
            assert_eq!(v.stream_type, MediaStreamType::Subtitles);
            assert_eq!(v.id, 77);
            assert_eq!(v.codec.as_deref(), Some("aac"));
            assert_eq!(v.index, Some(2));
            assert_eq!(v.display_title, "Shared");
        }
        other => panic!("wrong variant: {:?}", other),
    }
    let lyrics = decode_stream(&common("4")).unwrap();
    match lyrics.stream {
        MediaStream::Lyrics(v) => {
            assert_eq!(v.stream_type, MediaStreamType::Lyrics);
            assert_eq!(v.id, 77);
            assert_eq!(v.codec.as_deref(), Some("aac"));
            assert_eq!(v.index, Some(2));
            assert_eq!(v.display_title, "Shared");
        }
        other => panic!("wrong variant: {:?}", other),
    }
}

#[test]
fn audio_scenario_with_defaults() {
    let m = map(&[
        ("id", text("1")),
        ("streamType", text("2")),
        ("selected", text("1")),
        ("channels", text("6")),
        ("samplingRate", text("48000")),
        ("displayTitle", text("English")),
    ]);
    let decoded = decode_stream(&m).unwrap();
    match decoded.stream {
        MediaStream::Audio(a) => {
            assert_eq!(a.id, 1);
            assert_eq!(a.channels, 6);
            assert_eq!(a.sampling_rate, 48000);
            assert!(a.selected);
            assert_eq!(a.display_title, "English");
            assert_eq!(a.codec, None);
            assert_eq!(a.index, None);
            assert_eq!(a.default, None);
            assert_eq!(a.album_gain, None);
            assert_eq!(a.album_peak, None);
            assert_eq!(a.album_range, None);
            assert_eq!(a.bit_depth, None);
            assert_eq!(a.extended_display_title, None);
            assert_eq!(a.gain, None);
            assert_eq!(a.loudness, None);
            assert_eq!(a.lra, None);
            assert_eq!(a.peak, None);
            assert_eq!(a.bitrate, 0);
            assert_eq!(a.profile, "");
            assert_eq!(a.audio_channel_layout, "");
        }
        other => panic!("wrong variant: {:?}", other),
    }
    assert_eq!(decoded.diagnostics, vec!["bitrate", "profile", "audio_channel_layout"]);
}

#[test]
fn missing_required_field_defaults_with_one_diagnostic() {
    let m = map(&[
        ("id", text("5")),
        ("streamType", text("3")),
        ("selected", text("1")),
        ("displayTitle", text("English (SRT)")),
    ]);
    let decoded = decode_stream(&m).unwrap();
    match decoded.stream {
        MediaStream::Subtitles(s) => {
            assert!(s.selected);
            assert!(!s.embedded_in_video);
            assert_eq!(s.bitrate, None);
        }
        other => panic!("wrong variant: {:?}", other),
    }
    assert_eq!(decoded.diagnostics, vec!["embedded_in_video"]);
}

#[test]
fn invalid_fallback_value_counts_as_absent() {
    let m = map(&[
        ("id", text("5")),
        ("streamType", text("3")),
        ("selected", text("certainly")),
        ("embeddedInVideo", text("1")),
    ]);
    let decoded = decode_stream(&m).unwrap();
    match decoded.stream {
        MediaStream::Subtitles(s) => {
            assert!(!s.selected);
            assert!(s.embedded_in_video);
        }
        other => panic!("wrong variant: {:?}", other),
    }
    assert_eq!(decoded.diagnostics, vec!["selected"]);
}

#[test]
fn out_of_range_discriminant_is_reported() {
    let m = map(&[("id", text("1")), ("streamType", text("9"))]);
    assert_eq!(decode_stream(&m).err(), Some(DecodeError::UnrecognizedStreamKind));
    let non_numeric = map(&[("id", text("1")), ("streamType", text("video"))]);
    assert_eq!(
        decode_stream(&non_numeric).err(),
        Some(DecodeError::UnrecognizedStreamKind)
    );
    let absent = map(&[("id", text("1"))]);
    assert_eq!(decode_stream(&absent).err(), Some(DecodeError::UnrecognizedStreamKind));
}

#[test]
fn malformed_common_fields_abort_the_record() {
    let bad_id = map(&[("id", text("first")), ("streamType", text("2"))]);
    assert_eq!(decode_stream(&bad_id).err(), Some(DecodeError::NumericFormat));
    let bad_index = map(&[
        ("id", text("3")),
        ("streamType", text("2")),
        ("index", text("first")),
    ]);
    assert_eq!(decode_stream(&bad_index).err(), Some(DecodeError::NumericFormat));
    let bad_codec = map(&[
        ("id", text("3")),
        ("streamType", text("2")),
        ("codec", WireValue::Int(5)),
    ]);
    assert_eq!(decode_stream(&bad_codec).err(), Some(DecodeError::StringFormat));
    let composite_codec = map(&[
        ("id", text("3")),
        ("streamType", text("2")),
        ("codec", WireValue::Other),
    ]);
    assert_eq!(decode_stream(&composite_codec).err(), Some(DecodeError::StringFormat));
    let bad_title = map(&[
        ("id", text("3")),
        ("streamType", text("2")),
        ("displayTitle", WireValue::Bool(true)),
    ]);
    assert_eq!(decode_stream(&bad_title).err(), Some(DecodeError::StringFormat));
    let bad_id_and_codec = map(&[
        ("id", text("first")),
        ("streamType", text("2")),
        ("codec", WireValue::Int(5)),
    ]);
    assert_eq!(decode_stream(&bad_id_and_codec).err(), Some(DecodeError::NumericFormat));
}

#[test]
fn non_scalar_variant_field_degrades() {
    let m = map(&[
        ("id", text("3")),
        ("streamType", text("2")),
        ("profile", WireValue::Other),
        ("samplingRate", text("44100")),
    ]);
    let decoded = decode_stream(&m).unwrap();
    match decoded.stream {
        MediaStream::Audio(a) => {
            assert_eq!(a.profile, "");
            assert_eq!(a.sampling_rate, 44100);
        }
        other => panic!("wrong variant: {:?}", other),
    }
    assert!(decoded.diagnostics.contains(&String::from("profile")));
}

#[test]
fn absent_id_defaults_to_zero() {
    let m = map(&[("streamType", text("4"))]);
    let decoded = decode_stream(&m).unwrap();
    match decoded.stream {
        MediaStream::Lyrics(l) => {
            assert_eq!(l.id, 0);
            assert_eq!(l.display_title, "");
            assert_eq!(l.format, None);
            assert_eq!(l.provider, None);
            assert_eq!(l.extended_display_title, None);
        }
        other => panic!("wrong variant: {:?}", other),
    }
    assert!(decoded.diagnostics.is_empty());
}

#[test]
fn video_fallbacks_and_float_text() {
    let m = map(&[
        ("id", text("12")),
        ("streamType", text("1")),
        ("codec", text("h264")),
        ("width", text("1920")),
        ("height", text("1080")),
        ("frameRate", text("23.976")),
        ("bitDepth", text("10")),
        ("displayTitle", text("1080p (H.264)")),
    ]);
    let decoded = decode_stream(&m).unwrap();
    match decoded.stream {
        MediaStream::Video(v) => {
            assert_eq!(v.width, 1920);
            assert_eq!(v.height, 1080);
            assert_eq!(v.frame_rate, "23.976");
            assert_eq!(v.bit_depth, Some(10));
            assert_eq!(v.bitrate, 0);
            assert!(!v.default);
            assert!(!v.has_scaling_matrix);
            assert_eq!(v.scan_type, "");
            assert_eq!(v.ref_frames, 0);
            assert_eq!(v.level, 0);
            assert_eq!(v.chroma_subsampling, "");
        }
        other => panic!("wrong variant: {:?}", other),
    }
    assert_eq!(
        decoded.diagnostics,
        vec![
            "default",
            "bitrate",
            "chroma_subsampling",
            "chroma_location",
            "closed_captions",
            "coded_height",
            "coded_width",
            "color_primaries",
            "color_space",
            "color_range",
            "color_trc",
            "level",
            "profile",
            "ref_frames",
            "has_scaling_matrix",
            "scan_type"
        ]
    );
}

#[test]
fn video_with_every_required_field_has_no_diagnostics() {
    let m = map(&[
        ("id", text("12")),
        ("streamType", text("1")),
        ("default", WireValue::Bool(true)),
        ("bitrate", text("4500")),
        ("chromaSubsampling", text("4:2:0")),
        ("chromaLocation", text("left")),
        ("closedCaptions", text("none")),
        ("codedHeight", text("1088")),
        ("codedWidth", text("1920")),
        ("colorPrimaries", text("bt709")),
        ("colorSpace", text("bt709")),
        ("colorRange", text("tv")),
        ("colorTrc", text("bt709")),
        ("frameRate", WireValue::Int(24)),
        ("height", text("1080")),
        ("width", text("1920")),
        ("level", text("40")),
        ("profile", text("high")),
        ("refFrames", text("4")),
        ("hasScalingMatrix", text("0")),
        ("scanType", text("progressive")),
        ("displayTitle", text("1080p")),
    ]);
    let decoded = decode_stream(&m).unwrap();
    match decoded.stream {
        MediaStream::Video(v) => {
            assert!(v.default);
            assert_eq!(v.bitrate, 4500);
            assert_eq!(v.frame_rate, "24");
            assert_eq!(v.level, 40);
            assert_eq!(v.ref_frames, 4);
            assert!(!v.has_scaling_matrix);
            assert_eq!(v.scan_type, "progressive");
            assert_eq!(v.bit_depth, None);
        }
        other => panic!("wrong variant: {:?}", other),
    }
    assert!(decoded.diagnostics.is_empty());
}

#[test]
fn lenient_variant_field_failure_degrades() {
    let m = map(&[
        ("id", text("1")),
        ("streamType", text("2")),
        ("channels", text("lots")),
        ("samplingRate", text("44100")),
    ]);
    let decoded = decode_stream(&m).unwrap();
    match decoded.stream {
        MediaStream::Audio(a) => {
            assert_eq!(a.channels, 0);
            assert_eq!(a.sampling_rate, 44100);
        }
        other => panic!("wrong variant: {:?}", other),
    }
    assert!(decoded.diagnostics.contains(&String::from("channels")));
}

#[test]
fn first_field_with_a_key_wins() {
    let m = map(&[
        ("id", text("8")),
        ("streamType", text("4")),
        ("provider", text("first")),
        ("provider", text("second")),
    ]);
    let decoded = decode_stream(&m).unwrap();
    match decoded.stream {
        MediaStream::Lyrics(l) => assert_eq!(l.provider.as_deref(), Some("first")),
        other => panic!("wrong variant: {:?}", other),
    }
}

#[test]
fn sequences_decode_one_to_one_in_order() {
    let maps = vec![
        map(&[("id", text("1")), ("streamType", text("2"))]),
        map(&[("id", text("2")), ("streamType", text("9"))]),
        map(&[("id", text("3")), ("streamType", text("3"))]),
    ];
    let results = decode_streams(&maps);
    assert_eq!(results.len(), 3);
    match &results[0] {
        Ok(d) => match &d.stream {
            MediaStream::Audio(a) => assert_eq!(a.id, 1),
            other => panic!("wrong variant: {:?}", other),
        },
        Err(e) => panic!("unexpected failure: {:?}", e),
    }
    assert_eq!(results[1].as_ref().err(), Some(&DecodeError::UnrecognizedStreamKind));
    match &results[2] {
        Ok(d) => match &d.stream {
            MediaStream::Subtitles(s) => assert_eq!(s.id, 3),
            other => panic!("wrong variant: {:?}", other),
        },
        Err(e) => panic!("unexpected failure: {:?}", e),
    }
}

#[test]
fn discriminant_parsing_is_total() {
    assert_eq!(MediaStreamType::from_str("1"), MediaStreamType::Video);
    assert_eq!(MediaStreamType::from_str("2"), MediaStreamType::Audio);
    assert_eq!(MediaStreamType::from_str("3"), MediaStreamType::Subtitles);
    assert_eq!(MediaStreamType::from_str("4"), MediaStreamType::Lyrics);
    assert_eq!(MediaStreamType::from_str("0"), MediaStreamType::Unknown);
    assert_eq!(MediaStreamType::from_str("9"), MediaStreamType::Unknown);
    assert_eq!(MediaStreamType::from_str("600"), MediaStreamType::Unknown);
    assert_eq!(MediaStreamType::from_str("x"), MediaStreamType::Unknown);
    assert_eq!(MediaStreamType::from_str(""), MediaStreamType::Unknown);
    assert_eq!(MediaStreamType::default(), MediaStreamType::Unknown);
    assert_eq!(MediaStreamType::from_ordinal(2), MediaStreamType::Audio);
    assert_eq!(
        MediaStreamType::from_wire(&WireValue::Int(3)),
        MediaStreamType::Subtitles
    );
    assert_eq!(
        MediaStreamType::from_wire(&WireValue::Bool(true)),
        MediaStreamType::Unknown
    );
}

#[test]
fn session_records_carry_plain_values() {
    let user = SessionUser {
        id: 8676063,
        thumb: String::from("https://example.test/avatar"),
        title: String::from("viewer"),
    };
    let player = Player {
        address: String::from("10.0.0.2"),
        device: String::from("Linux"),
        machine_identifier: String::from("abc123"),
        model: None,
        platform: String::from("Chrome"),
        platform_version: String::from("71.0"),
        product: String::from("Plex Web"),
        remote_public_address: String::from("198.51.100.7"),
        state: String::from("playing"),
        title: String::from("Chrome"),
        vendor: None,
        version: String::from("3.76.1"),
        local: true,
        relayed: false,
        secure: true,
        user_id: 8676063,
    };
    let tag = MediaTag {
        id: Some(19),
        tag: String::from("Comedy"),
        filter: Some(String::from("genre=19")),
    };
    assert_eq!(user.id, player.user_id);
    assert_eq!(tag.tag, "Comedy");
    assert!(player.local && !player.relayed);
}
