//! One integration's Lark side (where it posts, who it posts as, how it
//! authenticates callbacks) and its inbound server settings.

use vstd::prelude::*;
use crate::lark::{default_base_url, default_base_url_spec, LarkApp};

verus! {

/// The views of an optional string.
pub open spec fn opt_view(o: Option<String>) -> Option<Seq<char>> {
    match o {
        Some(s) => Some(s@),
        None => None,
    }
}

/// Clones an optional string.
pub fn clone_opt(o: &Option<String>) -> (r: Option<String>)
    ensures
        opt_view(r) == opt_view(*o),
{
    match o {
        Some(s) => Some(s.clone()),
        None => None,
    }
}

/// One integration's Lark configuration.
#[derive(Debug, Clone)]
pub struct LarkConfig {
    /// Incoming group-webhook URL for notification cards.
    pub webhook_url: String,
    /// Self-built app id/secret: enables bot DMs.
    pub app_id: Option<String>,
    pub app_secret: Option<String>,
    /// Verification token for this App's event callbacks.
    pub verification_token: Option<String>,
    /// Encrypt Key: when set, event callbacks are AES-256-CBC decrypted.
    pub encrypt_key: Option<String>,
    pub base_url: String,
}

impl Default for LarkConfig {
    fn default() -> (c: Self)
        ensures
            c.webhook_url@.len() == 0,
            c.app_id is None,
            c.app_secret is None,
            c.verification_token is None,
            c.encrypt_key is None,
            c.base_url@ == default_base_url_spec(),
    {
        LarkConfig {
            webhook_url: String::new(),
            app_id: None,
            app_secret: None,
            verification_token: None,
            encrypt_key: None,
            base_url: default_base_url(),
        }
    }
}

/// A `[<app>.lark]` TOML section: every field optional.
#[derive(Debug, Clone, Default)]
pub struct TomlLark {
    pub webhook_url: Option<String>,
    pub app_id: Option<String>,
    pub app_secret: Option<String>,
    pub verification_token: Option<String>,
    pub encrypt_key: Option<String>,
    pub base_url: Option<String>,
}

/// `new` where the section sets a value, else `old`.
pub open spec fn overlay_field(old: Seq<char>, new: Option<String>) -> Seq<char> {
    match new {
        Some(v) => v@,
        None => old,
    }
}

/// `new` where the section sets a value, else `old`.
pub open spec fn overlay_opt(old: Option<Seq<char>>, new: Option<String>) -> Option<Seq<char>> {
    match new {
        Some(v) => Some(v@),
        None => old,
    }
}

impl LarkConfig {
    /// Takes the credentials and base URL of a `[lark-apps.<name>]` entry.
    pub fn apply_lark_app(&mut self, app: &LarkApp)
        ensures
            opt_view(final(self).app_id) == Some(app.app_id@),
            opt_view(final(self).app_secret) == Some(app.app_secret@),
            final(self).base_url@ == app.base_url@,
            final(self).webhook_url@ == old(self).webhook_url@,
            opt_view(final(self).verification_token) == opt_view(old(self).verification_token),
            opt_view(final(self).encrypt_key) == opt_view(old(self).encrypt_key),
    {
        self.app_id = Some(app.app_id.clone());
        self.app_secret = Some(app.app_secret.clone());
        self.base_url = app.base_url.clone();
    }

    /// Overlays every field the `[<app>.lark]` section sets; the others keep
    /// their value.
    pub fn overlay(&mut self, t: TomlLark)
        ensures
            final(self).webhook_url@ == overlay_field(old(self).webhook_url@, t.webhook_url),
            opt_view(final(self).app_id) == overlay_opt(opt_view(old(self).app_id), t.app_id),
            opt_view(final(self).app_secret) == overlay_opt(opt_view(old(self).app_secret), t.app_secret),
            opt_view(final(self).verification_token) == overlay_opt(opt_view(old(self).verification_token), t.verification_token),
            opt_view(final(self).encrypt_key) == overlay_opt(opt_view(old(self).encrypt_key), t.encrypt_key),
            final(self).base_url@ == overlay_field(old(self).base_url@, t.base_url),
    {
        if let Some(v) = t.webhook_url {
            self.webhook_url = v;
        }
        if t.app_id.is_some() {
            self.app_id = t.app_id;
        }
        if t.app_secret.is_some() {
            self.app_secret = t.app_secret;
        }
        if t.verification_token.is_some() {
            self.verification_token = t.verification_token;
        }
        if t.encrypt_key.is_some() {
            self.encrypt_key = t.encrypt_key;
        }
        if let Some(v) = t.base_url {
            self.base_url = v;
        }
    }

    /// The credentials a DM bot client is built from, present only when both
    /// the app id and secret are configured.
    pub fn bot_credentials(&self) -> (r: Option<BotCredentials>)
        ensures
            r is Some <==> (self.app_id is Some && self.app_secret is Some),
            r is Some ==> r->0.app_id@ == self.app_id->0@ && r->0.app_secret@ == self.app_secret->0@
                && r->0.base_url@ == self.base_url@,
    {
        match (&self.app_id, &self.app_secret) {
            (Some(id), Some(secret)) => Some(BotCredentials {
                app_id: id.clone(),
                app_secret: secret.clone(),
                base_url: self.base_url.clone(),
            }),
            _ => None,
        }
    }
}

/// What a Lark bot client authenticates with.
#[derive(Debug, Clone)]
pub struct BotCredentials {
    pub app_id: String,
    pub app_secret: String,
    pub base_url: String,
}

/// The inbound HTTP server's default listen port.
pub fn default_port() -> (p: u16)
    ensures
        p == 3000,
{
    3000
}

/// The inbound HTTP server's listen port.
#[derive(Debug, Clone, Copy)]
pub struct ServerConfig {
    pub port: u16,
}

impl Default for ServerConfig {
    fn default() -> (c: Self)
        ensures
            c.port == 3000,
    {
        ServerConfig { port: default_port() }
    }
}

} // verus!
