//! The Linear bridge: Linear webhooks become normalized events, coalesced per
//! issue, and delivered to Lark as interactive cards.

pub mod bot;
pub mod cards;
pub mod config;
pub mod debounce;
pub mod event;
pub mod laws;
pub mod models;
pub mod webhook;
