//! The standup bot's settings: Lark app credentials and the standup target
//! (which chat, which Drive folder, whether the scheduler runs).

use vstd::prelude::*;
use crate::lark::{default_base_url, default_base_url_spec};

verus! {

/// Lark app credentials.
#[derive(Debug, Clone)]
pub struct LarkConfig {
    pub app_id: String,
    pub app_secret: String,
    pub base_url: String,
}

impl Default for LarkConfig {
    fn default() -> (c: Self)
        ensures
            c.app_id@.len() == 0,
            c.app_secret@.len() == 0,
            c.base_url@ == default_base_url_spec(),
    {
        LarkConfig { app_id: String::new(), app_secret: String::new(), base_url: default_base_url() }
    }
}

impl LarkConfig {
    /// Whether both the app id and the secret are set (the bot refuses to
    /// start otherwise).
    pub fn has_credentials(&self) -> (r: bool)
        ensures
            r == (self.app_id@.len() > 0 && self.app_secret@.len() > 0),
    {
        self.app_id.as_str().unicode_len() > 0 && self.app_secret.as_str().unicode_len() > 0
    }
}

/// Where the standup happens.
#[derive(Debug, Clone, Default)]
pub struct StandupConfig {
    /// Whether the daily scheduler runs.
    pub enabled: bool,
    /// The group chat whose members fill the standup.
    pub chat_id: Option<String>,
    /// The Drive folder the daily documents live in.
    pub folder_token: Option<String>,
}

/// Both parts of the settings.
#[derive(Debug, Clone)]
pub struct AppConfig {
    pub lark: LarkConfig,
    pub standup: StandupConfig,
}

impl AppConfig {
    /// Combines the two parts as loaded from the environment (`LARK_*` and
    /// `STANDUP_*`); the first part that failed to load gives the error.
    pub fn from_env(lark: Result<LarkConfig, String>, standup: Result<StandupConfig, String>) -> (r: Result<Self, String>)
        ensures
            match lark {
                Err(e) => r is Err && r->Err_0@ == e@,
                Ok(l) => match standup {
                    Err(e) => r is Err && r->Err_0@ == e@,
                    Ok(s) => r is Ok && r->Ok_0.lark == l && r->Ok_0.standup == s,
                },
            },
    {
        let lark = match lark {
            Ok(l) => l,
            Err(e) => return Err(e),
        };
        let standup = match standup {
            Ok(s) => s,
            Err(e) => return Err(e),
        };
        Ok(AppConfig { lark, standup })
    }
}

/// Why a standup job cannot run.
pub open spec fn target_error(cfg: StandupConfig) -> Option<Seq<char>> {
    if cfg.folder_token is None {
        Some("STANDUP_FOLDER_TOKEN not set"@)
    } else if cfg.chat_id is None {
        Some("STANDUP_CHAT_ID not set"@)
    } else {
        None
    }
}

impl StandupConfig {
    /// The folder token and chat id a job works with; each missing one is an
    /// error, the folder checked first.
    pub fn target(&self) -> (r: Result<(String, String), String>)
        ensures
            match target_error(*self) {
                Some(e) => r is Err && r->Err_0@ == e,
                None => r is Ok && r->Ok_0.0@ == self.folder_token->0@ && r->Ok_0.1@ == self.chat_id->0@,
            },
    {
        let folder = match &self.folder_token {
            Some(f) => f.clone(),
            None => return Err(String::from_str("STANDUP_FOLDER_TOKEN not set")),
        };
        let chat = match &self.chat_id {
            Some(c) => c.clone(),
            None => return Err(String::from_str("STANDUP_CHAT_ID not set")),
        };
        Ok((folder, chat))
    }
}

} // verus!
