use ffprobe::Chapter;
use ffprobe::Disposition;
use ffprobe::Duration;
use ffprobe::FfProbe;
use ffprobe::FfProbeError;
use ffprobe::ProbeOutput;
use ffprobe::Ratio;
use ffprobe::ShapeError;
use ffprobe::Stream;
use ffprobe::StreamKinds;
use ffprobe::Tags;
use ffprobe::json::Json;
use ffprobe::option_string_to_duration;

fn obj(pairs: Vec<(&str, Json)>) -> Json {
    Json::Obj(pairs.into_iter().map(|(k, v)| (k.to_string(), v)).collect())
}

fn s(text: &str) -> Json {
    Json::Str(text.to_string())
}

fn ok_output(doc: &str) -> ProbeOutput {
    ProbeOutput { success: true, code: Some(0), stdout: doc.as_bytes().to_vec(), stderr: Vec::new() }
}

fn video_stream_obj(index: i64, width: i64, height: i64) -> Json {
    obj(vec![
        ("index", Json::Int(index)),
        ("codec_type", s("video")),
        ("width", Json::Int(width)),
        ("height", Json::Int(height)),
    ])
}

#[test]
fn ratio_simple() {
    let r = Ratio::parse("30/1").unwrap();
    assert_eq!(r.numerator, 30);
    assert_eq!(r.denominator, 1);
    let r = Ratio::parse("-7/20").unwrap();
    assert_eq!(r.numerator, -7);
    assert_eq!(r.denominator, 20);
}

#[test]
fn ratio_zero_denominator_is_kept() {
    let r = Ratio::parse("5/0").unwrap();
    assert_eq!(r.numerator, 5);
    assert_eq!(r.denominator, 0);
}

#[test]
fn ratio_malformed_texts_fail() {
    for text in ["abc", "5", "5/", "/5", "5/3/2", "", "1.5/2", "5//2"] {
        match Ratio::parse(text) {
            Err(ShapeError::InvalidRatio(t)) => assert_eq!(t, text),
            other => panic!("expected InvalidRatio for {:?}, got {:?}", text, other.is_ok()),
        }
    }
}

#[test]
fn duration_absent_is_no_duration() {
    let r = option_string_to_duration(&None).unwrap();
    assert!(r.is_none());
}

#[test]
fn duration_simple() {
    let d = option_string_to_duration(&Some("12.5".to_string()))
        .unwrap()
        .unwrap();
    assert_eq!(d.secs, 12);
    assert_eq!(d.nanos, 500_000_000);
}

#[test]
fn duration_negative_clamps_to_zero() {
    let d = option_string_to_duration(&Some("-0.001".to_string()))
        .unwrap()
        .unwrap();
    assert_eq!(d.secs, 0);
    assert_eq!(d.nanos, 0);
}

#[test]
fn duration_non_numeric_fails() {
    match option_string_to_duration(&Some("notanumber".to_string())) {
        Err(ShapeError::InvalidDuration(t)) => assert_eq!(t, "notanumber"),
        other => panic!("expected InvalidDuration, got ok={:?}", other.is_ok()),
    }
}

#[test]
fn duration_precision_and_shapes() {
    let d = Duration::parse("10.0").unwrap();
    assert_eq!((d.secs, d.nanos), (10, 0));
    let d = Duration::parse("0.000000001").unwrap();
    assert_eq!((d.secs, d.nanos), (0, 1));
    let d = Duration::parse("3").unwrap();
    assert_eq!((d.secs, d.nanos), (3, 0));
    let d = Duration::parse(".25").unwrap();
    assert_eq!((d.secs, d.nanos), (0, 250_000_000));
    let d = Duration::parse("7.").unwrap();
    assert_eq!((d.secs, d.nanos), (7, 0));
    assert!(Duration::parse(".").is_err());
    assert!(Duration::parse("1.2.3").is_err());
    assert!(Duration::parse("-").is_err());
}

#[test]
fn stream_video_discriminant() {
    let st = Stream::decode(&video_stream_obj(0, 1920, 1080)).unwrap();
    assert_eq!(st.index, 0);
    match st.kind {
        StreamKinds::Video(v) => {
            assert_eq!(v.width, 1920);
            assert_eq!(v.height, 1080);
        }
        _ => panic!("expected the video variant"),
    }
}

#[test]
fn stream_bogus_discriminant_fails() {
    let j = obj(vec![
        ("index", Json::Int(0)),
        ("codec_type", s("bogus")),
        ("width", Json::Int(1920)),
        ("height", Json::Int(1080)),
    ]);
    match Stream::decode(&j) {
        Err(ShapeError::UnknownCodecType(t)) => assert_eq!(t, "bogus"),
        other => panic!("expected UnknownCodecType, got ok={:?}", other.is_ok()),
    }
}

#[test]
fn stream_missing_discriminant_fails() {
    let j = obj(vec![
        ("index", Json::Int(0)),
        ("width", Json::Int(1920)),
        ("height", Json::Int(1080)),
    ]);
    match Stream::decode(&j) {
        Err(ShapeError::MissingField(t)) => assert_eq!(t, "codec_type"),
        other => panic!("expected MissingField, got ok={:?}", other.is_ok()),
    }
}

#[test]
fn stream_video_missing_width_fails() {
    let j = obj(vec![("index", Json::Int(0)), ("codec_type", s("video")), ("height", Json::Int(2))]);
    match Stream::decode(&j) {
        Err(ShapeError::MissingField(t)) => assert_eq!(t, "width"),
        other => panic!("expected MissingField, got ok={:?}", other.is_ok()),
    }
}

#[test]
fn stream_width_wrong_shape_fails() {
    let j = obj(vec![
        ("index", Json::Int(0)),
        ("codec_type", s("video")),
        ("width", Json::Bool(true)),
        ("height", Json::Int(2)),
    ]);
    match Stream::decode(&j) {
        Err(ShapeError::WrongType(t)) => assert_eq!(t, "width"),
        other => panic!("expected WrongType, got ok={:?}", other.is_ok()),
    }
}

#[test]
fn numeric_dual_encoding_matches() {
    let bare = Stream::decode(&video_stream_obj(0, 1920, 1080)).unwrap();
    let quoted = Stream::decode(&obj(vec![
        ("index", s("0")),
        ("codec_type", s("video")),
        ("width", s("1920")),
        ("height", s("1080")),
    ]))
    .unwrap();
    assert_eq!(bare.index, quoted.index);
    match (bare.kind, quoted.kind) {
        (StreamKinds::Video(a), StreamKinds::Video(b)) => {
            assert_eq!(a.width, b.width);
            assert_eq!(a.height, b.height);
        }
        _ => panic!("expected two video variants"),
    }
}

#[test]
fn audio_and_other_kinds() {
    let j = obj(vec![
        ("index", Json::Int(1)),
        ("codec_type", s("audio")),
        ("sample_rate", s("44100")),
        ("channels", Json::Int(2)),
        ("channel_layout", s("stereo")),
    ]);
    let st = Stream::decode(&j).unwrap();
    match st.kind {
        StreamKinds::Audio(a) => {
            assert_eq!(a.sample_rate, Some(44100));
            assert_eq!(a.channels, Some(2));
            assert_eq!(a.channel_layout.as_deref(), Some("stereo"));
            assert_eq!(a.sample_fmt, None);
        }
        _ => panic!("expected the audio variant"),
    }
    for kind in ["subtitle", "data", "attachment"] {
        let j = obj(vec![("index", Json::Int(2)), ("codec_type", s(kind))]);
        let st = Stream::decode(&j).unwrap();
        let matches_kind = matches!(
            (kind, &st.kind),
            ("subtitle", StreamKinds::Subtitle)
                | ("data", StreamKinds::Data)
                | ("attachment", StreamKinds::Attachment)
        );
        assert!(matches_kind, "wrong variant for {}", kind);
    }
}

#[test]
fn cross_kind_null_fields_do_not_fail() {
    let j = obj(vec![
        ("index", Json::Int(0)),
        ("codec_type", s("video")),
        ("width", Json::Int(640)),
        ("height", Json::Int(480)),
        ("sample_rate", Json::Null),
        ("channels", Json::Null),
        ("profile", Json::Null),
    ]);
    let st = Stream::decode(&j).unwrap();
    assert!(st.profile.is_none());
    assert!(matches!(st.kind, StreamKinds::Video(_)));
}

#[test]
fn disposition_flags_default_false() {
    let j = obj(vec![
        ("index", Json::Int(0)),
        ("codec_type", s("data")),
        (
            "disposition",
            obj(vec![("default", Json::Int(1)), ("forced", s("0")), ("hearing_impaired", s("1"))]),
        ),
    ]);
    let st = Stream::decode(&j).unwrap();
    let d: Disposition = st.disposition.unwrap();
    assert!(d.default);
    assert!(!d.forced);
    assert!(d.hearing_impaired);
    assert!(!d.visual_impaired);
    assert!(!d.dub);
    assert!(!d.original);
    assert!(!d.comment);
    assert!(!d.attached_pic);
}

#[test]
fn tags_keep_unknown_keys() {
    let j = obj(vec![
        ("index", Json::Int(0)),
        ("codec_type", s("subtitle")),
        ("tags", obj(vec![("language", s("eng")), ("x_custom_key", s("kept"))])),
    ]);
    let st = Stream::decode(&j).unwrap();
    let tags: Tags = st.tags.unwrap();
    assert_eq!(tags.entries.len(), 2);
    assert_eq!(tags.entries[0], ("language".to_string(), "eng".to_string()));
    assert_eq!(tags.entries[1], ("x_custom_key".to_string(), "kept".to_string()));
}

#[test]
fn tags_non_string_value_fails() {
    let j = obj(vec![
        ("index", Json::Int(0)),
        ("codec_type", s("subtitle")),
        ("tags", obj(vec![("language", Json::Int(5))])),
    ]);
    match Stream::decode(&j) {
        Err(ShapeError::WrongType(t)) => assert_eq!(t, "language"),
        other => panic!("expected WrongType, got ok={:?}", other.is_ok()),
    }
}

#[test]
fn stream_ratio_fields() {
    let j = obj(vec![
        ("index", Json::Int(0)),
        ("codec_type", s("video")),
        ("width", Json::Int(640)),
        ("height", Json::Int(480)),
        ("avg_frame_rate", s("30000/1001")),
        ("time_base", s("1/90000")),
    ]);
    let st = Stream::decode(&j).unwrap();
    assert_eq!(st.time_base, Some(Ratio { numerator: 1, denominator: 90000 }));
    match st.kind {
        StreamKinds::Video(v) => {
            assert_eq!(v.avg_frame_rate, Some(Ratio { numerator: 30000, denominator: 1001 }));
        }
        _ => panic!("expected the video variant"),
    }
}

#[test]
fn stream_bad_ratio_text_fails() {
    let j = obj(vec![
        ("index", Json::Int(0)),
        ("codec_type", s("video")),
        ("width", Json::Int(640)),
        ("height", Json::Int(480)),
        ("time_base", s("1:90000")),
    ]);
    match Stream::decode(&j) {
        Err(ShapeError::InvalidRatio(t)) => assert_eq!(t, "1:90000"),
        other => panic!("expected InvalidRatio, got ok={:?}", other.is_ok()),
    }
}

#[test]
fn chapter_record() {
    let j = obj(vec![
        ("id", Json::Int(3)),
        ("time_base", s("1/1000")),
        ("start", Json::Int(0)),
        ("end", Json::Int(5000)),
        ("start_time", s("0.000000")),
        ("end_time", s("5.000000")),
        ("tags", obj(vec![("title", s("Intro"))])),
    ]);
    let c: Chapter = Chapter::decode(&j).unwrap();
    assert_eq!(c.id, Some(3));
    assert_eq!(c.time_base, Some(Ratio { numerator: 1, denominator: 1000 }));
    assert_eq!(c.start, 0);
    assert_eq!(c.end, 5000);
    assert_eq!(c.end_time, Some(Duration { secs: 5, nanos: 0 }));
    assert_eq!(c.tags.unwrap().entries[0].1, "Intro");
}

#[test]
fn all_or_nothing_one_malformed_stream_fails_all() {
    let doc = obj(vec![(
        "streams",
        Json::Arr(vec![
            video_stream_obj(0, 640, 480),
            video_stream_obj(1, 640, 480),
            video_stream_obj(2, 640, 480),
            obj(vec![("index", Json::Int(3)), ("codec_type", s("bogus"))]),
        ]),
    )]);
    match FfProbe::decode(&doc) {
        Err(ShapeError::UnknownCodecType(t)) => assert_eq!(t, "bogus"),
        Ok(_) => panic!("a malformed stream must fail the whole report"),
        Err(_) => panic!("unexpected error kind"),
    }
}

#[test]
fn empty_document_decodes_empty_report() {
    let report = ffprobe::ffprobe(ok_output("{}")).unwrap();
    assert_eq!(report.streams.len(), 0);
    assert!(report.format.is_none());
    assert!(report.chapters.is_none());
}

#[test]
fn end_to_end_minimal_document() {
    let doc = "{\"format\":{\"duration\":\"10.0\",\"format_name\":\"mov,mp4\"},\"streams\":[{\"index\":0,\"codec_type\":\"video\",\"codec_name\":\"h264\",\"width\":1280,\"height\":720}]}";
    let report = ffprobe::ffprobe(ok_output(doc)).unwrap();
    assert_eq!(report.streams.len(), 1);
    let st = &report.streams[0];
    assert_eq!(st.index, 0);
    assert_eq!(st.codec_name.as_deref(), Some("h264"));
    match &st.kind {
        StreamKinds::Video(v) => {
            assert_eq!(v.width, 1280);
            assert_eq!(v.height, 720);
        }
        _ => panic!("expected the video variant"),
    }
    let format = report.format.unwrap();
    assert_eq!(format.duration, Some(Duration { secs: 10, nanos: 0 }));
    assert_eq!(format.format_name.as_deref(), Some("mov,mp4"));
}

#[test]
fn end_to_end_dual_encoding_same_report() {
    let bare = "{\"streams\":[{\"index\":0,\"codec_type\":\"video\",\"width\":1920,\"height\":1080}]}";
    let quoted =
        "{\"streams\":[{\"index\":0,\"codec_type\":\"video\",\"width\":\"1920\",\"height\":\"1080\"}]}";
    let a = ffprobe::ffprobe(ok_output(bare)).unwrap();
    let b = ffprobe::ffprobe(ok_output(quoted)).unwrap();
    match (&a.streams[0].kind, &b.streams[0].kind) {
        (StreamKinds::Video(x), StreamKinds::Video(y)) => {
            assert_eq!(x.width, y.width);
            assert_eq!(x.height, y.height);
            assert_eq!(x.width, 1920);
        }
        _ => panic!("expected two video variants"),
    }
}

#[test]
fn invalid_json_bytes_fail_as_shape_error() {
    match ffprobe::ffprobe(ok_output("this is not json")) {
        Err(FfProbeError::Deserialize(ShapeError::InvalidJson)) => {}
        other => panic!("expected InvalidJson, got ok={:?}", other.is_ok()),
    }
}

#[test]
fn process_failure_short_circuits() {
    let output = ProbeOutput {
        success: false,
        code: Some(1),
        stdout: b"this would not even parse".to_vec(),
        stderr: b"No such file or directory".to_vec(),
    };
    match ffprobe::ffprobe(output) {
        Err(FfProbeError::Status(o)) => {
            assert_eq!(o.stderr, b"No such file or directory".to_vec());
            assert_eq!(o.code, Some(1));
        }
        Err(_) => panic!("a failed exit must yield the exit-failure kind"),
        Ok(_) => panic!("a failed exit must not decode"),
    }
}

#[test]
fn format_names_split_on_commas() {
    let doc = "{\"format\":{\"format_name\":\"mov,mp4,m4a\"}}";
    let report = ffprobe::ffprobe(ok_output(doc)).unwrap();
    let format = report.format.unwrap();
    let names = format.format_names().unwrap();
    assert_eq!(names, vec!["mov".to_string(), "mp4".to_string(), "m4a".to_string()]);
    let doc = "{\"format\":{\"format_name\":\"matroska\"}}";
    let report = ffprobe::ffprobe(ok_output(doc)).unwrap();
    let names = report.format.unwrap().format_names().unwrap();
    assert_eq!(names, vec!["matroska".to_string()]);
    let doc = "{\"format\":{}}";
    let report = ffprobe::ffprobe(ok_output(doc)).unwrap();
    assert!(report.format.unwrap().format_names().is_none());
}
