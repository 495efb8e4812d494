//! The digest bot's settings: Lark app credentials, the speech-to-text
//! backend, and where digests go.

use vstd::prelude::*;
use crate::lark::{default_base_url, default_base_url_spec};

verus! {

/// The default Lark base URL.
pub fn default_lark_base_url() -> (url: String)
    ensures
        url@ == default_base_url_spec(),
{
    default_base_url()
}

/// The default transcription language: detect it.
pub fn default_language() -> (s: String)
    ensures
        s@ == "auto"@,
{
    String::from_str("auto")
}

/// The default Whisper API base URL.
pub fn default_whisper_api_base() -> (s: String)
    ensures
        s@ == "https://api.openai.com/v1"@,
{
    String::from_str("https://api.openai.com/v1")
}

/// The default Whisper API model.
pub fn default_whisper_api_model() -> (s: String)
    ensures
        s@ == "whisper-1"@,
{
    String::from_str("whisper-1")
}

/// The default ffmpeg binary: `ffmpeg` from `PATH`.
pub fn default_ffmpeg() -> (s: String)
    ensures
        s@ == "ffmpeg"@,
{
    String::from_str("ffmpeg")
}

/// Lark app credentials.
#[derive(Debug, Clone)]
pub struct LarkConfig {
    pub app_id: String,
    pub app_secret: String,
    pub base_url: String,
}

impl Default for LarkConfig {
    fn default() -> (c: Self)
        ensures
            c.app_id@.len() == 0,
            c.app_secret@.len() == 0,
            c.base_url@ == default_base_url_spec(),
    {
        LarkConfig { app_id: String::new(), app_secret: String::new(), base_url: default_lark_base_url() }
    }
}

impl LarkConfig {
    /// Whether both the app id and the secret are set (the bot refuses to
    /// start otherwise).
    pub fn has_credentials(&self) -> (r: bool)
        ensures
            r == (self.app_id@.len() > 0 && self.app_secret@.len() > 0),
    {
        self.app_id.as_str().unicode_len() > 0 && self.app_secret.as_str().unicode_len() > 0
    }
}

/// Which speech-to-text backend transcribes.
#[derive(Debug, Clone, Copy, PartialEq, Eq, Structural)]
pub enum SttProvider {
    /// An OpenAI-compatible `/audio/transcriptions` endpoint.
    WhisperApi,
    /// Local whisper.cpp with a ggml model file.
    WhisperCpp,
}

impl Default for SttProvider {
    fn default() -> (p: Self)
        ensures
            p == SttProvider::WhisperApi,
    {
        SttProvider::WhisperApi
    }
}

/// Speech-to-text settings.
#[derive(Debug, Clone)]
pub struct SttConfig {
    pub provider: SttProvider,
    /// Language hint; `auto` (or empty) detects it.
    pub language: String,
    pub whisper_api_base: String,
    pub whisper_api_model: String,
    pub whisper_api_key: String,
    /// Path to a ggml `.bin` model file; required for whisper.cpp.
    pub whisper_cpp_model: String,
    /// Decoder threads for whisper.cpp; `0` picks one per CPU.
    pub whisper_cpp_threads: u32,
}

impl Default for SttConfig {
    fn default() -> (c: Self)
        ensures
            c.provider == SttProvider::WhisperApi,
            c.language@ == "auto"@,
            c.whisper_api_base@ == "https://api.openai.com/v1"@,
            c.whisper_api_model@ == "whisper-1"@,
            c.whisper_api_key@.len() == 0,
            c.whisper_cpp_model@.len() == 0,
            c.whisper_cpp_threads == 0,
    {
        SttConfig {
            provider: SttProvider::default(),
            language: default_language(),
            whisper_api_base: default_whisper_api_base(),
            whisper_api_model: default_whisper_api_model(),
            whisper_api_key: String::new(),
            whisper_cpp_model: String::new(),
            whisper_cpp_threads: 0,
        }
    }
}

/// Where transcripts and digests go.
#[derive(Debug, Clone)]
pub struct DigestConfig {
    /// Drive folder the transcript documents are created in.
    pub folder_token: String,
    /// When set, the digest card is also posted to this chat.
    pub fallback_chat_id: Option<String>,
    /// Working directory for temporary audio; the OS temp dir when unset.
    pub work_dir: Option<String>,
    /// The ffmpeg binary.
    pub ffmpeg: String,
}

impl Default for DigestConfig {
    fn default() -> (c: Self)
        ensures
            c.folder_token@.len() == 0,
            c.fallback_chat_id is None,
            c.work_dir is None,
            c.ffmpeg@ == "ffmpeg"@,
    {
        DigestConfig { folder_token: String::new(), fallback_chat_id: None, work_dir: None, ffmpeg: default_ffmpeg() }
    }
}

/// All of the bot's settings.
#[derive(Debug, Clone)]
pub struct AppConfig {
    pub lark: LarkConfig,
    pub stt: SttConfig,
    pub digest: DigestConfig,
}

impl AppConfig {
    /// Combines the three parts as loaded from the environment (`LARK_*`,
    /// `STT_*`, `DIGEST_*`); the first part that failed to load gives the
    /// error.
    pub fn from_env(
        lark: Result<LarkConfig, String>,
        stt: Result<SttConfig, String>,
        digest: Result<DigestConfig, String>,
    ) -> (r: Result<Self, String>)
        ensures
            match (lark, stt, digest) {
                (Err(e), _, _) => r is Err && r->Err_0@ == e@,
                (Ok(_), Err(e), _) => r is Err && r->Err_0@ == e@,
                (Ok(_), Ok(_), Err(e)) => r is Err && r->Err_0@ == e@,
                (Ok(l), Ok(s), Ok(d)) => r is Ok && r->Ok_0.lark == l && r->Ok_0.stt == s && r->Ok_0.digest == d,
            },
    {
        let lark = match lark {
            Ok(l) => l,
            Err(e) => return Err(e),
        };
        let stt = match stt {
            Ok(s) => s,
            Err(e) => return Err(e),
        };
        let digest = match digest {
            Ok(d) => d,
            Err(e) => return Err(e),
        };
        Ok(AppConfig { lark, stt, digest })
    }
}

/// The model the configured backend runs: the API model name, or the
/// whisper.cpp model path.
pub fn provider_model(cfg: &AppConfig) -> (m: String)
    ensures
        m@ == match cfg.stt.provider {
            SttProvider::WhisperApi => cfg.stt.whisper_api_model@,
            SttProvider::WhisperCpp => cfg.stt.whisper_cpp_model@,
        },
{
    match cfg.stt.provider {
        SttProvider::WhisperApi => cfg.stt.whisper_api_model.clone(),
        SttProvider::WhisperCpp => cfg.stt.whisper_cpp_model.clone(),
    }
}

} // verus!
