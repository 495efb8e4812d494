//! The Linear bridge's settings: the Linear side (webhook secret, API key),
//! the Lark side (group webhook, bot credentials, callback token) and the
//! inbound server (port, debounce window).
//!
//! Each part is loaded from the environment; a `[linear-bridge]` TOML section
//! then overrides whatever fields it sets.

use vstd::prelude::*;
use crate::kit::config::{opt_view, overlay_field, overlay_opt, BotCredentials};
use crate::lark::{default_base_url, default_base_url_spec};

verus! {

/// Linear credentials.
#[derive(Debug, Clone)]
pub struct LinearConfig {
    /// Secret the `linear-signature` HMAC is keyed with.
    pub webhook_secret: String,
    /// GraphQL API key; enables link previews.
    pub api_key: Option<String>,
}

impl LinearConfig {
    /// The settings used when the environment provides none: no secret, no
    /// key.
    pub fn empty() -> (c: Self)
        ensures
            c.webhook_secret@.len() == 0,
            c.api_key is None,
    {
        LinearConfig { webhook_secret: String::new(), api_key: None }
    }

    /// The API key a GraphQL client is built with, when one is configured.
    pub fn graphql_key(&self) -> (k: Option<String>)
        ensures
            opt_view(k) == opt_view(self.api_key),
    {
        match &self.api_key {
            Some(key) => Some(key.clone()),
            None => None,
        }
    }
}

/// The default Lark base URL.
pub fn default_lark_base_url() -> (url: String)
    ensures
        url@ == default_base_url_spec(),
{
    default_base_url()
}

/// The bridge's Lark settings.
#[derive(Debug, Clone)]
pub struct LarkConfig {
    /// Incoming group-webhook URL.
    pub webhook_url: String,
    pub app_id: Option<String>,
    pub app_secret: Option<String>,
    /// Token Lark event callbacks must carry.
    pub verification_token: Option<String>,
    pub base_url: String,
}

impl Default for LarkConfig {
    fn default() -> (c: Self)
        ensures
            c.webhook_url@.len() == 0,
            c.app_id is None,
            c.app_secret is None,
            c.verification_token is None,
            c.base_url@ == default_base_url_spec(),
    {
        LarkConfig {
            webhook_url: String::new(),
            app_id: None,
            app_secret: None,
            verification_token: None,
            base_url: default_lark_base_url(),
        }
    }
}

impl LarkConfig {
    /// The credentials a DM bot client is built from, present only when both
    /// the app id and secret are configured.
    pub fn bot_credentials(&self) -> (r: Option<BotCredentials>)
        ensures
            r is Some <==> (self.app_id is Some && self.app_secret is Some),
            r is Some ==> r->0.app_id@ == self.app_id->0@ && r->0.app_secret@ == self.app_secret->0@
                && r->0.base_url@ == self.base_url@,
    {
        match (&self.app_id, &self.app_secret) {
            (Some(id), Some(secret)) => Some(BotCredentials {
                app_id: id.clone(),
                app_secret: secret.clone(),
                base_url: self.base_url.clone(),
            }),
            _ => None,
        }
    }
}

/// The default listen port.
pub fn default_port() -> (p: u16)
    ensures
        p == 3000,
{
    3000
}

/// The default debounce window, in milliseconds.
pub fn default_debounce() -> (ms: u64)
    ensures
        ms == 5000,
{
    5000
}

/// The inbound server's settings.
#[derive(Debug, Clone, Copy)]
pub struct ServerConfig {
    pub port: u16,
    /// How long issue updates are coalesced before one notification goes out.
    pub debounce_delay_ms: u64,
}

impl Default for ServerConfig {
    fn default() -> (c: Self)
        ensures
            c.port == 3000,
            c.debounce_delay_ms == 5000,
    {
        ServerConfig { port: default_port(), debounce_delay_ms: default_debounce() }
    }
}

/// `[linear-bridge.linear]`: every field optional.
#[derive(Debug, Clone, Default)]
pub struct TomlLinear {
    pub webhook_secret: Option<String>,
    pub api_key: Option<String>,
}

/// `[linear-bridge.lark]`: every field optional.
#[derive(Debug, Clone, Default)]
pub struct TomlLark {
    pub webhook_url: Option<String>,
    pub app_id: Option<String>,
    pub app_secret: Option<String>,
    pub verification_token: Option<String>,
    pub base_url: Option<String>,
}

/// `[linear-bridge.server]`: every field optional.
#[derive(Debug, Clone, Copy, Default)]
pub struct TomlServer {
    pub port: Option<u16>,
    pub debounce_delay_ms: Option<u64>,
}

/// The `[linear-bridge]` section of the full config.
#[derive(Debug, Clone, Default)]
pub struct TomlSection {
    pub linear: TomlLinear,
    pub lark: TomlLark,
    pub server: TomlServer,
}

/// The settings the bridge runs with.
#[derive(Debug, Clone)]
pub struct BridgeSettings {
    pub linear: LinearConfig,
    pub lark: LarkConfig,
    pub server: ServerConfig,
}

impl LinearConfig {
    /// Overlays every field the section sets.
    pub fn overlay(&mut self, t: TomlLinear)
        ensures
            final(self).webhook_secret@ == overlay_field(old(self).webhook_secret@, t.webhook_secret),
            opt_view(final(self).api_key) == overlay_opt(opt_view(old(self).api_key), t.api_key),
    {
        if let Some(s) = t.webhook_secret {
            self.webhook_secret = s;
        }
        if t.api_key.is_some() {
            self.api_key = t.api_key;
        }
    }
}

impl LarkConfig {
    /// Overlays every field the section sets.
    pub fn overlay(&mut self, t: TomlLark)
        ensures
            final(self).webhook_url@ == overlay_field(old(self).webhook_url@, t.webhook_url),
            opt_view(final(self).app_id) == overlay_opt(opt_view(old(self).app_id), t.app_id),
            opt_view(final(self).app_secret) == overlay_opt(opt_view(old(self).app_secret), t.app_secret),
            opt_view(final(self).verification_token) == overlay_opt(opt_view(old(self).verification_token), t.verification_token),
            final(self).base_url@ == overlay_field(old(self).base_url@, t.base_url),
    {
        if let Some(s) = t.webhook_url {
            self.webhook_url = s;
        }
        if t.app_id.is_some() {
            self.app_id = t.app_id;
        }
        if t.app_secret.is_some() {
            self.app_secret = t.app_secret;
        }
        if t.verification_token.is_some() {
            self.verification_token = t.verification_token;
        }
        if let Some(s) = t.base_url {
            self.base_url = s;
        }
    }
}

impl ServerConfig {
    /// Overlays every field the section sets.
    pub fn overlay(&mut self, t: TomlServer)
        ensures
            final(self).port == match t.port { Some(p) => p, None => old(self).port },
            final(self).debounce_delay_ms == match t.debounce_delay_ms { Some(d) => d, None => old(self).debounce_delay_ms },
    {
        if let Some(p) = t.port {
            self.port = p;
        }
        if let Some(d) = t.debounce_delay_ms {
            self.debounce_delay_ms = d;
        }
    }
}

impl BridgeSettings {
    /// The settings for a config file: each part starts from what the
    /// environment gave (`None` when it failed to load, which falls back to
    /// the empty Linear settings and the Lark and server defaults), then the
    /// `[linear-bridge]` section overrides the fields it sets.
    pub fn from_sections(
        env_linear: Option<LinearConfig>,
        env_lark: Option<LarkConfig>,
        env_server: Option<ServerConfig>,
        section: TomlSection,
    ) -> (s: Self)
        ensures
            s.linear.webhook_secret@ == overlay_field(
                match env_linear { Some(l) => l.webhook_secret@, None => Seq::empty() },
                section.linear.webhook_secret,
            ),
            opt_view(s.linear.api_key) == overlay_opt(
                match env_linear { Some(l) => opt_view(l.api_key), None => None },
                section.linear.api_key,
            ),
            s.lark.webhook_url@ == overlay_field(
                match env_lark { Some(l) => l.webhook_url@, None => Seq::empty() },
                section.lark.webhook_url,
            ),
            opt_view(s.lark.app_id) == overlay_opt(
                match env_lark { Some(l) => opt_view(l.app_id), None => None },
                section.lark.app_id,
            ),
            opt_view(s.lark.app_secret) == overlay_opt(
                match env_lark { Some(l) => opt_view(l.app_secret), None => None },
                section.lark.app_secret,
            ),
            opt_view(s.lark.verification_token) == overlay_opt(
                match env_lark { Some(l) => opt_view(l.verification_token), None => None },
                section.lark.verification_token,
            ),
            s.lark.base_url@ == overlay_field(
                match env_lark { Some(l) => l.base_url@, None => default_base_url_spec() },
                section.lark.base_url,
            ),
            s.server.port == match section.server.port {
                Some(p) => p,
                None => match env_server { Some(v) => v.port, None => 3000 },
            },
            s.server.debounce_delay_ms == match section.server.debounce_delay_ms {
                Some(d) => d,
                None => match env_server { Some(v) => v.debounce_delay_ms, None => 5000 },
            },
    {
        let mut linear = match env_linear {
            Some(l) => l,
            None => LinearConfig::empty(),
        };
        linear.overlay(section.linear);
        let mut lark = match env_lark {
            Some(l) => l,
            None => LarkConfig::default(),
        };
        lark.overlay(section.lark);
        let mut server = match env_server {
            Some(v) => v,
            None => ServerConfig::default(),
        };
        server.overlay(section.server);
        BridgeSettings { linear, lark, server }
    }
}

} // verus!
