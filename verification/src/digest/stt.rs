//! Speech-to-text: the options a transcription runs with, the transcript it
//! yields, and the pieces of the two backends that decide rather than do I/O.

use vstd::prelude::*;
use crate::kit::config::opt_view;
use crate::text::{chars_of, trim_end_slashes, trim_trailing_slashes, push_decimal, decimal_spec, str_eq, to_ascii_lowercase, ascii_lower_spec, trim, trim_spec};
use super::config::{SttConfig, SttProvider};

verus! {

/// How a transcription is asked for.
#[derive(Debug, Clone, Default)]
pub struct TranscribeOptions {
    /// Language hint (`zh`, `en`, …); `None` detects the language.
    pub language: Option<String>,
    /// Domain or terminology hint for better proper nouns.
    pub prompt: Option<String>,
}

impl TranscribeOptions {
    /// The options for a configuration: its language unless that is empty or
    /// `auto`; no prompt.
    pub fn from_config(cfg: &SttConfig) -> (o: Self)
        ensures
            opt_view(o.language) == if cfg.language@.len() == 0 || cfg.language@ == "auto"@ {
                None
            } else {
                Some(cfg.language@)
            },
            o.prompt is None,
    {
        let lang = if cfg.language.as_str().unicode_len() == 0 || str_eq(cfg.language.as_str(), "auto") {
            None
        } else {
            Some(cfg.language.clone())
        };
        TranscribeOptions { language: lang, prompt: None }
    }
}

/// One timed piece of a transcript.
#[derive(Debug, Clone)]
pub struct Segment {
    pub start_ms: u64,
    pub end_ms: u64,
    pub text: String,
}

/// A whole transcript.
#[derive(Debug, Clone, Default)]
pub struct Transcript {
    /// The detected (or requested) language.
    pub language: Option<String>,
    pub full_text: String,
    pub segments: Vec<Segment>,
}

impl Segment {
    /// A segment with its text trimmed.
    pub fn trimmed(start_ms: u64, end_ms: u64, text: &str) -> (s: Self)
        ensures
            s.start_ms == start_ms,
            s.end_ms == end_ms,
            s.text@ == trim_spec(text@),
    {
        Segment { start_ms, end_ms, text: trim(text) }
    }
}

/// Why a transcription failed.
#[derive(Debug, Clone)]
pub enum SttError {
    Http(String),
    Io(String),
    Json(String),
    /// The API answered with a non-success status.
    Api { code: u16, message: String },
    Config(String),
}

/// The text an error is shown as.
pub open spec fn error_text(e: SttError) -> Seq<char> {
    match e {
        SttError::Http(m) => "stt http: "@ + m@,
        SttError::Io(m) => "stt io: "@ + m@,
        SttError::Json(m) => "stt json: "@ + m@,
        SttError::Api { code, message } => "stt api "@ + decimal_spec(code as nat) + ": "@ + message@,
        SttError::Config(m) => "stt config: "@ + m@,
    }
}

impl SttError {
    /// The error as shown to the operator.
    pub fn describe(&self) -> (s: String)
        ensures
            s@ == error_text(*self),
    {
        match self {
            SttError::Http(m) => {
                let mut s = String::from_str("stt http: ");
                s.append(m.as_str());
                s
            },
            SttError::Io(m) => {
                let mut s = String::from_str("stt io: ");
                s.append(m.as_str());
                s
            },
            SttError::Json(m) => {
                let mut s = String::from_str("stt json: ");
                s.append(m.as_str());
                s
            },
            SttError::Api { code, message } => {
                let mut s = String::from_str("stt api ");
                push_decimal(&mut s, *code as u64);
                s.append(": ");
                s.append(message.as_str());
                s
            },
            SttError::Config(m) => {
                let mut s = String::from_str("stt config: ");
                s.append(m.as_str());
                s
            },
        }
    }
}

/// The backend a configuration selects, with what it is built from.
#[derive(Debug, Clone)]
pub enum Backend {
    WhisperApi { base: String, api_key: String, model: String },
}

/// Selects the backend for `cfg`. The Whisper API needs a key; whisper.cpp
/// is not part of this build.
pub fn build(cfg: &SttConfig) -> (r: Result<Backend, SttError>)
    ensures
        match cfg.provider {
            SttProvider::WhisperApi => if cfg.whisper_api_key@.len() == 0 {
                r is Err && (r->Err_0 matches SttError::Config(m) && m@ == "STT_WHISPER_API_KEY required"@)
            } else {
                r is Ok && (r->Ok_0 matches Backend::WhisperApi { base, api_key, model }
                    && base@ == cfg.whisper_api_base@ && api_key@ == cfg.whisper_api_key@ && model@ == cfg.whisper_api_model@)
            },
            SttProvider::WhisperCpp => r is Err && (r->Err_0 matches SttError::Config(m)
                && m@ == "provider=whisper_cpp requires building with --features whisper-cpp"@),
        },
{
    match cfg.provider {
        SttProvider::WhisperApi => {
            if cfg.whisper_api_key.as_str().unicode_len() == 0 {
                return Err(SttError::Config(String::from_str("STT_WHISPER_API_KEY required")));
            }
            Ok(Backend::WhisperApi {
                base: cfg.whisper_api_base.clone(),
                api_key: cfg.whisper_api_key.clone(),
                model: cfg.whisper_api_model.clone(),
            })
        },
        SttProvider::WhisperCpp => Err(SttError::Config(String::from_str(
            "provider=whisper_cpp requires building with --features whisper-cpp",
        ))),
    }
}

/// The transcription endpoint under an API base URL.
pub fn transcription_url(base: &str) -> (url: String)
    ensures
        url@ == trim_trailing_slashes(base@) + "/audio/transcriptions"@,
{
    let mut url = trim_end_slashes(base);
    url.append("/audio/transcriptions");
    url
}

/// The multipart text fields of a transcription request, in order.
pub open spec fn form_fields_spec(model: Seq<char>, language: Option<Seq<char>>, prompt: Option<Seq<char>>) -> Seq<(Seq<char>, Seq<char>)> {
    seq![("model"@, model), ("response_format"@, "verbose_json"@), ("timestamp_granularities[]"@, "segment"@)]
        + match language { Some(l) => seq![("language"@, l)], None => Seq::empty() }
        + match prompt { Some(p) => seq![("prompt"@, p)], None => Seq::empty() }
}

/// The multipart text fields for a request with `model` and `opts`.
pub fn form_fields(model: &str, opts: &TranscribeOptions) -> (fields: Vec<(&'static str, String)>)
    ensures
        fields@.map_values(|f: (&'static str, String)| (f.0@, f.1@))
            == form_fields_spec(model@, opt_view(opts.language), opt_view(opts.prompt)),
{
    let mut fields: Vec<(&'static str, String)> = Vec::new();
    fields.push(("model", String::from_str(model)));
    fields.push(("response_format", String::from_str("verbose_json")));
    fields.push(("timestamp_granularities[]", String::from_str("segment")));
    let ghost base = fields@;
    if let Some(lang) = &opts.language {
        fields.push(("language", lang.clone()));
    }
    let ghost mid = fields@;
    if let Some(p) = &opts.prompt {
        fields.push(("prompt", p.clone()));
    }
    assert(fields@.map_values(|f: (&'static str, String)| (f.0@, f.1@))
        =~= form_fields_spec(model@, opt_view(opts.language), opt_view(opts.prompt)));
    fields
}

/// The characters `String::from_utf8_lossy` gives `bytes`.
pub uninterp spec fn utf8_lossy(bytes: Seq<u8>) -> Seq<char>;

/// `String::from_utf8_lossy(bytes).to_string()`; the result is named
/// [`utf8_lossy`] of the bytes and nothing more is stated of it.
#[verifier::external_body]
fn lossy_text(bytes: &[u8]) -> (s: String)
    ensures
        s@ == utf8_lossy(bytes@),
{
    String::from_utf8_lossy(bytes).to_string()
}

/// The error for a failed API call with status `code`: the API's own error
/// message when the body carries one (`parsed_message`), else the body as
/// text.
pub fn api_error(code: u16, parsed_message: Option<String>, body: &[u8]) -> (e: SttError)
    ensures
        e matches SttError::Api { code: c, message } && c == code && message@ == match parsed_message {
            Some(m) => m@,
            None => utf8_lossy(body@),
        },
{
    let message = match parsed_message {
        Some(m) => m,
        None => lossy_text(body),
    };
    SttError::Api { code, message }
}

/// The extension `std::path::Path::extension` finds in `path`.
pub uninterp spec fn path_extension(path: Seq<char>) -> Option<Seq<char>>;

/// `Path::new(path).extension()` as a string; the result is named
/// [`path_extension`] of the path and nothing more is stated of it.
#[verifier::external_body]
fn extension_of(path: &str) -> (ext: Option<String>)
    ensures
        opt_view(ext) == path_extension(path@),
{
    std::path::Path::new(path).extension().and_then(|e| e.to_str()).map(|e| e.to_string())
}

/// The MIME type of an audio file extension (already lowercased).
pub open spec fn mime_for(ext: Seq<char>) -> Option<Seq<char>> {
    if ext == "mp3"@ {
        Some("audio/mpeg"@)
    } else if ext == "wav"@ {
        Some("audio/wav"@)
    } else if ext == "m4a"@ {
        Some("audio/mp4"@)
    } else if ext == "mp4"@ {
        Some("video/mp4"@)
    } else if ext == "ogg"@ || ext == "oga"@ {
        Some("audio/ogg"@)
    } else if ext == "webm"@ {
        Some("audio/webm"@)
    } else if ext == "flac"@ {
        Some("audio/flac"@)
    } else {
        None
    }
}

/// Whether the characters `v` spell `lit`.
fn chars_are(v: &Vec<char>, lit: &str) -> (r: bool)
    ensures
        r == (v@ == lit@),
{
    let l = chars_of(lit);
    if l.len() != v.len() {
        return false;
    }
    let mut i: usize = 0;
    while i < l.len()
        invariant
            l@ == lit@,
            l.len() == v.len(),
            i <= l.len(),
            forall|k: int| 0 <= k < i ==> v@[k] == l@[k],
        decreases l.len() - i,
    {
        if v[i] != l[i] {
            return false;
        }
        i = i + 1;
    }
    assert(v@ =~= lit@);
    true
}

/// The MIME type of an extension, compared without regard to ASCII case.
pub fn mime_for_extension(ext: &str) -> (m: Option<&'static str>)
    ensures
        match m {
            Some(t) => mime_for(ascii_lower_spec(ext@)) == Some(t@),
            None => mime_for(ascii_lower_spec(ext@)) is None,
        },
{
    let e = to_ascii_lowercase(ext);
    proof {
        reveal_strlit("mp3");
        reveal_strlit("wav");
        reveal_strlit("m4a");
        reveal_strlit("mp4");
        reveal_strlit("ogg");
        reveal_strlit("oga");
        reveal_strlit("webm");
        reveal_strlit("flac");
    }
    if chars_are(&e, "mp3") {
        Some("audio/mpeg")
    } else if chars_are(&e, "wav") {
        Some("audio/wav")
    } else if chars_are(&e, "m4a") {
        Some("audio/mp4")
    } else if chars_are(&e, "mp4") {
        Some("video/mp4")
    } else if chars_are(&e, "ogg") || chars_are(&e, "oga") {
        Some("audio/ogg")
    } else if chars_are(&e, "webm") {
        Some("audio/webm")
    } else if chars_are(&e, "flac") {
        Some("audio/flac")
    } else {
        None
    }
}

/// The MIME type of an audio file, by its extension; `None` for unknown
/// extensions (the upload then goes as `application/octet-stream`).
pub fn mime_from_ext(path: &str) -> (m: Option<&'static str>)
    ensures
        match path_extension(path@) {
            Some(ext) => match m {
                Some(t) => mime_for(ascii_lower_spec(ext)) == Some(t@),
                None => mime_for(ascii_lower_spec(ext)) is None,
            },
            None => m is None,
        },
{
    match extension_of(path) {
        Some(ext) => mime_for_extension(ext.as_str()),
        None => None,
    }
}

/// The largest input the Whisper API accepts, in bytes (25 MiB).
pub const UPLOAD_LIMIT_BYTES: u64 = 26_214_400;

/// The file name `std::path::Path::file_name` finds in `path`.
pub uninterp spec fn path_file_name(path: Seq<char>) -> Option<Seq<char>>;

/// `Path::new(path).file_name()` as a string (a `&str` path has no invalid
/// UTF-8, so `to_string_lossy` changes nothing); the result is named
/// [`path_file_name`] of the path and nothing more is stated of it.
#[verifier::external_body]
fn file_name_of(path: &str) -> (name: Option<String>)
    ensures
        opt_view(name) == path_file_name(path@),
{
    std::path::Path::new(path).file_name().map(|n| n.to_string_lossy().into_owned())
}

/// The refusal of an input of `size` bytes at `path`.
pub open spec fn too_large_message(path: Seq<char>, size: nat) -> Seq<char> {
    "input "@ + path + " is "@ + decimal_spec(size) + " bytes (>25MB Whisper API limit); re-encode at a lower bitrate or chunk"@
}

/// The file part of a Whisper API upload.
#[derive(Debug, Clone)]
pub struct UploadPart {
    pub file_name: String,
    pub mime: &'static str,
}

/// Plans the upload of the audio file at `path`, `size` bytes long: refused
/// over [`UPLOAD_LIMIT_BYTES`]; else sent under the path's file name
/// (`audio.mp3` when it has none) with the MIME type of its extension
/// (`application/octet-stream` when unknown).
pub fn plan_upload(path: &str, size: u64) -> (r: Result<UploadPart, SttError>)
    ensures
        size > UPLOAD_LIMIT_BYTES ==> (r matches Err(SttError::Config(m)) && m@ == too_large_message(path@, size as nat)),
        size <= UPLOAD_LIMIT_BYTES ==> (r matches Ok(part) && part.file_name@ == match path_file_name(path@) {
            Some(n) => n,
            None => "audio.mp3"@,
        } && part.mime@ == match path_extension(path@) {
            Some(ext) => match mime_for(ascii_lower_spec(ext)) {
                Some(t) => t,
                None => "application/octet-stream"@,
            },
            None => "application/octet-stream"@,
        }),
{
    if size > UPLOAD_LIMIT_BYTES {
        let mut m = String::from_str("input ");
        m.append(path);
        m.append(" is ");
        push_decimal(&mut m, size);
        m.append(" bytes (>25MB Whisper API limit); re-encode at a lower bitrate or chunk");
        return Err(SttError::Config(m));
    }
    let file_name = match file_name_of(path) {
        Some(n) => n,
        None => String::from_str("audio.mp3"),
    };
    let mime = match mime_from_ext(path) {
        Some(t) => t,
        None => "application/octet-stream",
    };
    Ok(UploadPart { file_name, mime })
}

/// A segment as whisper.cpp reports it: timestamps in 10 ms ticks.
#[derive(Debug, Clone)]
pub struct CppSegment {
    pub t0: i64,
    pub t1: i64,
    pub text: String,
}

/// The largest tick count whose milliseconds fit a `u64`.
pub const MAX_TICKS: i64 = 1_844_674_407_370_955_161;

/// The concatenated texts of `segs`.
pub open spec fn cpp_full_text(segs: Seq<CppSegment>) -> Seq<char>
    decreases segs.len(),
{
    if segs.len() == 0 {
        Seq::empty()
    } else {
        cpp_full_text(segs.drop_last()) + segs.last().text@
    }
}

/// The transcript whisper.cpp's segments make: millisecond timestamps, the
/// segments' texts trimmed, the full text their untrimmed concatenation, and
/// the detected language or else the requested one.
pub fn transcript_from_cpp(segs: &[CppSegment], detected: Option<String>, requested: Option<String>) -> (t: Transcript)
    requires
        forall|i: int| 0 <= i < segs@.len() ==> 0 <= (#[trigger] segs@[i]).t0 <= MAX_TICKS && 0 <= segs@[i].t1 <= MAX_TICKS,
    ensures
        t.segments@.len() == segs@.len(),
        forall|i: int| 0 <= i < segs@.len() ==> (#[trigger] t.segments@[i]).start_ms == segs@[i].t0 * 10
            && t.segments@[i].end_ms == segs@[i].t1 * 10
            && t.segments@[i].text@ == trim_spec(segs@[i].text@),
        t.full_text@ == cpp_full_text(segs@),
        opt_view(t.language) == match detected {
            Some(d) => Some(d@),
            None => opt_view(requested),
        },
{
    let mut segments: Vec<Segment> = Vec::new();
    let mut full = String::new();
    let mut i: usize = 0;
    while i < segs.len()
        invariant
            i <= segs@.len(),
            forall|k: int| 0 <= k < segs@.len() ==> 0 <= (#[trigger] segs@[k]).t0 <= MAX_TICKS && 0 <= segs@[k].t1 <= MAX_TICKS,
            segments@.len() == i,
            forall|k: int| 0 <= k < i ==> (#[trigger] segments@[k]).start_ms == segs@[k].t0 * 10
                && segments@[k].end_ms == segs@[k].t1 * 10
                && segments@[k].text@ == trim_spec(segs@[k].text@),
            full@ == cpp_full_text(segs@.take(i as int)),
        decreases segs@.len() - i,
    {
        let s = &segs[i];
        let start = (s.t0 as u64) * 10;
        let end = (s.t1 as u64) * 10;
        full.append(s.text.as_str());
        assert(segs@.take(i as int + 1).drop_last() =~= segs@.take(i as int));
        segments.push(Segment::trimmed(start, end, s.text.as_str()));
        i = i + 1;
    }
    assert(segs@.take(segs@.len() as int) =~= segs@);
    let language = match detected {
        Some(d) => Some(d),
        None => requested,
    };
    Transcript { language, full_text: full, segments }
}

} // verus!
