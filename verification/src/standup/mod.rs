//! The daily standup bot: creates the day's standup document in a Lark
//! folder, fills its table with the chat's members, announces it, and
//! reminds whoever has not filled their row.

pub mod cli;
pub mod config;
pub mod date;
pub mod flow;
pub mod laws;
pub mod scheduler;
pub mod templates;
