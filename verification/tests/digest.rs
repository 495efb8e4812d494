use larkstack::digest::config::{
    default_ffmpeg, default_language, default_whisper_api_base, default_whisper_api_model, provider_model, AppConfig, DigestConfig,
    LarkConfig, SttConfig, SttProvider,
};
use larkstack::digest::docs::{body_batches, build_meta_line, format_ts, heading_kind, segment_ts, DocBlock, TranscriptDocInput};
use larkstack::digest::stt::{
    plan_upload, UPLOAD_LIMIT_BYTES,
    api_error, build, form_fields, mime_for_extension, mime_from_ext, transcript_from_cpp, transcription_url, Backend, CppSegment,
    Segment, SttError, TranscribeOptions, Transcript,
};

#[test]
fn durations_format_with_hours_only_when_needed() {
    assert_eq!(format_ts(0), "00:00");
    assert_eq!(format_ts(61_500), "01:01");
    assert_eq!(format_ts(3_599_999), "59:59");
    assert_eq!(format_ts(3_600_000), "01:00:00");
    assert_eq!(format_ts(360_000_000), "100:00:00");
}

#[test]
fn segment_stamps_always_carry_hours() {
    assert_eq!(segment_ts(0), "00:00:00");
    assert_eq!(segment_ts(65_000), "00:01:05");
    assert_eq!(segment_ts(3_599_999), "00:59:59");
    assert_eq!(segment_ts(3_600_000), "01:00:00");
    assert_eq!(segment_ts(360_000_000), "100:00:00");
}

#[test]
fn each_segment_paragraph_starts_with_its_hms_stamp() {
    let t = Transcript {
        language: None,
        full_text: "hi".into(),
        segments: vec![Segment { start_ms: 65_000, end_ms: 70_000, text: "hi".into() }],
    };
    let b = body_batches(&t);
    assert!(matches!(&b[0].blocks[0], DocBlock::Paragraph(s) if s == "[00:01:05] hi"));
}

fn seg(ms: u64, text: &str) -> Segment {
    Segment { start_ms: ms, end_ms: ms + 1000, text: text.into() }
}

#[test]
fn meta_line_joins_known_parts() {
    let t = Transcript { language: Some("en".into()), full_text: "hi".into(), segments: vec![seg(0, "hi")] };
    assert_eq!(
        build_meta_line(65_000, &t, Some("https://rec")),
        "Duration: 01:05  ·  Language: en  ·  Segments: 1  ·  Recording: https://rec"
    );
    assert_eq!(build_meta_line(0, &Transcript::default(), None), "(meta unavailable)");
}

#[test]
fn transcript_body_batches_segments() {
    let empty = Transcript { language: None, full_text: "   ".into(), segments: vec![] };
    let b = body_batches(&empty);
    assert_eq!(b.len(), 1);
    assert_eq!(b[0].index, 3);
    assert!(matches!(&b[0].blocks[0], DocBlock::Paragraph(s) if s == "(empty transcript)"));
    let plain = Transcript { language: None, full_text: " all text ".into(), segments: vec![] };
    assert!(matches!(&body_batches(&plain)[0].blocks[0], DocBlock::Paragraph(s) if s == "all text"));
    let t = Transcript { language: None, full_text: String::new(), segments: (0..85).map(|i| seg(i * 1000, "x")).collect() };
    let b = body_batches(&t);
    assert_eq!(b.len(), 3);
    assert_eq!((b[0].index, b[1].index, b[2].index), (3, 43, 83));
    assert_eq!((b[0].blocks.len(), b[1].blocks.len(), b[2].blocks.len()), (40, 40, 5));
    assert!(matches!(&b[1].blocks[0], DocBlock::Paragraph(s) if s == "[00:00:40] x"));
    assert_eq!(heading_kind(1), (3, "heading1"));
    assert_eq!(heading_kind(2), (4, "heading2"));
    assert_eq!(heading_kind(9), (5, "heading3"));
    let input = TranscriptDocInput {
        folder_token: "fld",
        title: "T".into(),
        topic: "Weekly",
        duration_ms: 0,
        recording_url: None,
        transcript: &t,
    };
    let opening = input.opening_blocks();
    assert!(matches!(&opening[0], DocBlock::Heading { level: 1, content } if content == "Weekly"));
    assert!(matches!(&opening[1], DocBlock::Paragraph(s) if s == "Segments: 85"));
    assert!(matches!(&opening[2], DocBlock::Heading { level: 2, content } if content == "Transcript"));
}

#[test]
fn options_and_backend_follow_the_config() {
    let mut cfg = SttConfig::default();
    assert_eq!(cfg.provider, SttProvider::WhisperApi);
    assert!(TranscribeOptions::from_config(&cfg).language.is_none());
    cfg.language = "zh".into();
    assert_eq!(TranscribeOptions::from_config(&cfg).language.as_deref(), Some("zh"));
    cfg.language = String::new();
    assert!(TranscribeOptions::from_config(&cfg).language.is_none());
    assert!(matches!(build(&cfg), Err(SttError::Config(m)) if m == "STT_WHISPER_API_KEY required"));
    cfg.whisper_api_key = "sk".into();
    assert!(matches!(build(&cfg), Ok(Backend::WhisperApi { base, api_key, model })
        if base == "https://api.openai.com/v1" && api_key == "sk" && model == "whisper-1"));
    cfg.provider = SttProvider::WhisperCpp;
    assert!(matches!(build(&cfg), Err(SttError::Config(_))));
    let app = AppConfig { lark: LarkConfig::default(), stt: cfg.clone(), digest: DigestConfig::default() };
    assert_eq!(provider_model(&app), "");
    assert_eq!(default_language(), "auto");
    assert_eq!(default_whisper_api_base(), "https://api.openai.com/v1");
    assert_eq!(default_whisper_api_model(), "whisper-1");
    assert_eq!(default_ffmpeg(), "ffmpeg");
    assert_eq!(DigestConfig::default().ffmpeg, "ffmpeg");
    assert!(AppConfig::from_env(Ok(LarkConfig::default()), Err("stt".into()), Ok(DigestConfig::default())).is_err());
}

#[test]
fn whisper_api_request_pieces() {
    assert_eq!(transcription_url("https://api.openai.com/v1/"), "https://api.openai.com/v1/audio/transcriptions");
    let opts = TranscribeOptions { language: Some("en".into()), prompt: None };
    let f = form_fields("whisper-1", &opts);
    let names: Vec<&str> = f.iter().map(|(k, _)| *k).collect();
    assert_eq!(names, vec!["model", "response_format", "timestamp_granularities[]", "language"]);
    assert_eq!(f[3].1, "en");
    assert_eq!(mime_for_extension("MP3"), Some("audio/mpeg"));
    assert_eq!(mime_for_extension("oga"), Some("audio/ogg"));
    assert_eq!(mime_for_extension("txt"), None);
    assert_eq!(mime_from_ext("/tmp/rec.M4A"), Some("audio/mp4"));
    assert_eq!(mime_from_ext("/tmp/noext"), None);
    assert!(matches!(api_error(401, Some("bad key".into()), b"{}"), SttError::Api { code: 401, message } if message == "bad key"));
    assert!(matches!(api_error(500, None, b"oops"), SttError::Api { code: 500, message } if message == "oops"));
    assert_eq!(SttError::Api { code: 429, message: "slow down".into() }.describe(), "stt api 429: slow down");
}

#[test]
fn whisper_cpp_segments_become_a_transcript() {
    let segs = vec![
        CppSegment { t0: 0, t1: 150, text: " Hello".into() },
        CppSegment { t0: 150, t1: 300, text: " world ".into() },
    ];
    let t = transcript_from_cpp(&segs, None, Some("en".into()));
    assert_eq!(t.full_text, " Hello world ");
    assert_eq!(t.segments[1].start_ms, 1500);
    assert_eq!(t.segments[1].end_ms, 3000);
    assert_eq!(t.segments[1].text, "world");
    assert_eq!(t.language.as_deref(), Some("en"));
    assert_eq!(transcript_from_cpp(&segs, Some("de".into()), Some("en".into())).language.as_deref(), Some("de"));
}

#[test]
fn uploads_over_the_limit_are_refused() {
    let err = plan_upload("/rec/m.mp3", 26_214_401).unwrap_err();
    assert!(matches!(&err, SttError::Config(m)
        if m == "input /rec/m.mp3 is 26214401 bytes (>25MB Whisper API limit); re-encode at a lower bitrate or chunk"));
    assert!(plan_upload("/rec/m.mp3", UPLOAD_LIMIT_BYTES).is_ok());
}

#[test]
fn upload_part_names_and_types_the_file() {
    let p = plan_upload("/rec/Weekly.MP3", 10).unwrap();
    assert_eq!((p.file_name.as_str(), p.mime), ("Weekly.MP3", "audio/mpeg"));
    let p = plan_upload("/rec/blob.bin", 10).unwrap();
    assert_eq!((p.file_name.as_str(), p.mime), ("blob.bin", "application/octet-stream"));
    let p = plan_upload("/", 10).unwrap();
    assert_eq!((p.file_name.as_str(), p.mime), ("audio.mp3", "application/octet-stream"));
}
