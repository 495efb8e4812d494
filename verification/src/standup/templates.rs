//! The values the bot's plain-text replies are rendered from (the help text
//! and the `check` report), by the command-line front end's text templates.

use vstd::prelude::*;

verus! {

/// The help reply.
#[derive(Debug, Clone, Copy)]
pub struct HelpTemplate;

/// The `check` report: the day, its document, and who has not filled it.
#[derive(Debug, Clone)]
pub struct CheckTemplate<'a> {
    pub date: &'a str,
    pub url: &'a str,
    pub missing: Vec<String>,
}

} // verus!
