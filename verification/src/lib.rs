//! Verified core of the larkstack Lark integration host.

pub mod config_doc;
pub mod config_text;
pub mod console;
pub mod control;
pub mod digest;
pub mod host;
pub mod keyed;
pub mod kit;
pub mod lark;
pub mod linear;
pub mod plane;
pub mod routing;
pub mod supervisor;
pub mod standup;
pub mod text;
