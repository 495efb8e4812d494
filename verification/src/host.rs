//! The host's boot settings: where its data lives and which port the console
//! listens on.

use vstd::prelude::*;
use crate::text::{chars_of, digit_run_value, unsigned_decimal_value};

verus! {

/// The data directory: `CONSOLE_DATA_DIR`, or `data`.
pub fn data_dir(raw: Option<String>) -> (dir: String)
    ensures
        dir@ == match raw { Some(d) => d@, None => "data"@ },
{
    match raw {
        Some(d) => d,
        None => String::from_str("data"),
    }
}

/// The value `str::parse::<u16>` gives `text`: an optional `+` and ASCII
/// digits whose value fits `u16`, else `None`.
pub open spec fn parse_u16(text: Seq<char>) -> Option<u16> {
    match unsigned_decimal_value(text) {
        Some(v) => if v <= u16::MAX { Some(v as u16) } else { None },
        None => None,
    }
}

/// `text.parse::<u16>().ok()`: an optional `+`, then decimal digits whose
/// value fits `u16`.
fn parse_u16_str(text: &str) -> (v: Option<u16>)
    ensures
        v == parse_u16(text@),
{
    let cs = chars_of(text);
    let start: usize = if cs.len() > 0 && cs[0] == '+' { 1 } else { 0 };
    proof {
        if start == 1 {
            assert(cs@.skip(1) =~= text@.skip(1));
        } else {
            assert(cs@.skip(0) =~= text@);
        }
    }
    match digit_run_value(&cs, start, 65535) {
        Some(v) => Some(v as u16),
        None => None,
    }
}

/// The console port: `CONSOLE_PORT` when it parses as a port number, else
/// 8080.
pub fn console_port(raw: Option<&str>) -> (port: u16)
    ensures
        port == match raw {
            Some(p) => match parse_u16(p@) { Some(n) => n, None => 8080 },
            None => 8080,
        },
{
    match raw {
        Some(p) => match parse_u16_str(p) {
            Some(n) => n,
            None => 8080,
        },
        None => 8080,
    }
}

/// The status message of an App whose migrations failed (it is then not
/// supervised).
pub fn migration_failed(error: &str) -> (m: String)
    ensures
        m@ == "migration: "@ + error@,
{
    let mut m = String::from_str("migration: ");
    m.append(error);
    m
}

} // verus!
