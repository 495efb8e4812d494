//! The Lark bot client's decisions: when the cached tenant token is still
//! good, what a token response means, and how a DM request is shaped and
//! judged.

use vstd::prelude::*;
use crate::text::{push_signed_decimal, signed_decimal_spec};

verus! {

/// Refresh the token this long before it expires, in milliseconds.
pub const REFRESH_MARGIN_MS: u64 = 300_000;

/// The token lifetime assumed when the response names none, in seconds.
pub const DEFAULT_EXPIRE_SECS: u64 = 7200;

/// Whether a cached token can still be used at `now_ms`: it is set and
/// expires more than five minutes from now (times on one monotonic clock).
pub fn token_is_fresh(cached: &str, expires_at_ms: u64, now_ms: u64) -> (r: bool)
    requires
        now_ms + REFRESH_MARGIN_MS <= u64::MAX,
    ensures
        r == (cached@.len() > 0 && expires_at_ms > now_ms + REFRESH_MARGIN_MS),
{
    cached.unicode_len() > 0 && expires_at_ms > now_ms + REFRESH_MARGIN_MS
}

/// The tenant-token endpoint under `base_url`.
pub fn token_url(base_url: &str) -> (url: String)
    ensures
        url@ == base_url@ + "/open-apis/auth/v3/tenant_access_token/internal"@,
{
    let mut url = String::from_str(base_url);
    url.append("/open-apis/auth/v3/tenant_access_token/internal");
    url
}

/// What a token response means: a `code` other than `0` (a missing code
/// counts as `-1`) is an API error quoting the body; otherwise the token,
/// which must be present, with its lifetime (7200 s when absent).
pub open spec fn token_response_spec(code: Option<i64>, token: Option<Seq<char>>, expire: Option<u64>, body: Seq<char>) -> Result<(Seq<char>, u64), Seq<char>> {
    let c: i64 = match code { Some(c) => c, None => -1i64 };
    if c != 0 {
        Err("token API error: "@ + body)
    } else {
        match token {
            None => Err("missing tenant_access_token"@),
            Some(t) => Ok((t, match expire { Some(e) => e, None => DEFAULT_EXPIRE_SECS })),
        }
    }
}

/// Reads a token response's `code`, `tenant_access_token` and `expire`;
/// `body` is the whole response as text.
pub fn token_from_response(code: Option<i64>, token: Option<String>, expire: Option<u64>, body: &str) -> (r: Result<(String, u64), String>)
    ensures
        match token_response_spec(code, match token { Some(t) => Some(t@), None => None }, expire, body@) {
            Ok((t, e)) => r is Ok && r->Ok_0.0@ == t && r->Ok_0.1 == e,
            Err(m) => r is Err && r->Err_0@ == m,
        },
{
    let c = match code {
        Some(c) => c,
        None => -1,
    };
    if c != 0 {
        let mut e = String::from_str("token API error: ");
        e.append(body);
        return Err(e);
    }
    match token {
        None => Err(String::from_str("missing tenant_access_token")),
        Some(t) => Ok((t, match expire {
            Some(e) => e,
            None => DEFAULT_EXPIRE_SECS,
        })),
    }
}

/// The DM endpoint (recipients addressed by email) under `base_url`.
pub fn dm_url(base_url: &str) -> (url: String)
    ensures
        url@ == base_url@ + "/open-apis/im/v1/messages?receive_id_type=email"@,
{
    let mut url = String::from_str(base_url);
    url.append("/open-apis/im/v1/messages?receive_id_type=email");
    url
}

/// What a DM response means: a non-success HTTP status fails with the status
/// and body; a success whose `code` is not `0` (missing counts as `-1`)
/// fails with the code and body.
pub open spec fn dm_outcome_spec(success: bool, status: Seq<char>, body: Seq<char>, code: Option<i64>) -> Result<(), Seq<char>> {
    if success {
        let c: i64 = match code { Some(c) => c, None => -1i64 };
        if c != 0 {
            Err("DM API returned code "@ + signed_decimal_spec(c as int) + ": "@ + body)
        } else {
            Ok(())
        }
    } else {
        Err("DM request returned "@ + status + ": "@ + body)
    }
}

/// Judges a DM response: `success` is whether the HTTP status is 2xx,
/// `status` its text, `body` the response text and `code` the `code` field
/// of the body read as JSON.
pub fn dm_outcome(success: bool, status: &str, body: &str, code: Option<i64>) -> (r: Result<(), String>)
    ensures
        match dm_outcome_spec(success, status@, body@, code) {
            Ok(()) => r is Ok,
            Err(m) => r is Err && r->Err_0@ == m,
        },
{
    if success {
        let c = match code {
            Some(c) => c,
            None => -1,
        };
        if c != 0 {
            let mut e = String::from_str("DM API returned code ");
            push_signed_decimal(&mut e, c);
            e.append(": ");
            e.append(body);
            return Err(e);
        }
        Ok(())
    } else {
        let mut e = String::from_str("DM request returned ");
        e.append(status);
        e.append(": ");
        e.append(body);
        Err(e)
    }
}

} // verus!
