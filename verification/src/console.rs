//! The console's Lark-app onboarding API: request checks, the live
//! credential test against Lark's token endpoint, and the response bodies.

use vstd::prelude::*;
use crate::control::DispatchError;
use crate::lark::{valid_name_spec, LarkAppView, LarkRegistry};
use crate::text::{is_blank, lemma_trim_empty_iff_blank, push_signed_decimal, signed_decimal_spec, trim, trim_end_slashes, trim_spec, trim_trailing_slashes};

verus! {

/// `{ "ok": true }`, the body of a plain success.
#[derive(Debug, Clone, Copy)]
pub struct OkResponse {
    pub ok: bool,
}

impl OkResponse {
    pub fn ok() -> (r: Self)
        ensures
            r.ok,
    {
        OkResponse { ok: true }
    }
}

/// The verdict of a credential test: `ok` plus either the token lifetime in
/// seconds or the failure reason.
#[derive(Debug, Clone)]
pub struct TestResult {
    pub ok: bool,
    pub expire: Option<u64>,
    pub error: Option<String>,
}

impl TestResult {
    /// The credentials work; the token lives `expire` seconds.
    pub fn ok(expire: u64) -> (r: Self)
        ensures
            r.ok,
            r.expire == Some(expire),
            r.error is None,
    {
        TestResult { ok: true, expire: Some(expire), error: None }
    }

    /// The credentials failed with `error`.
    pub fn err(error: String) -> (r: Self)
        ensures
            !r.ok,
            r.expire is None,
            r.error is Some && r.error->0@ == error@,
    {
        TestResult { ok: false, expire: None, error: Some(error) }
    }

    /// The verdict for a test outcome.
    pub fn from_outcome(outcome: Result<u64, String>) -> (r: Self)
        ensures
            match outcome {
                Ok(e) => r.ok && r.expire == Some(e) && r.error is None,
                Err(m) => !r.ok && r.expire is None && r.error is Some && r.error->0@ == m@,
            },
    {
        match outcome {
            Ok(e) => TestResult::ok(e),
            Err(m) => TestResult::err(m),
        }
    }
}

/// The error for a request without both credentials.
pub open spec fn missing_credentials_msg() -> Seq<char> {
    "app_id and app_secret are required"@
}

/// The error for an unusable registry name.
pub open spec fn bad_name_msg() -> Seq<char> {
    "name must be non-empty and use only [A-Za-z0-9_-]"@
}

/// Checks a credential-test request: both credentials are required.
pub fn check_test_request(app_id: &str, app_secret: &str) -> (r: Result<(), String>)
    ensures
        r is Ok <==> (app_id@.len() > 0 && app_secret@.len() > 0),
        r is Err ==> r->Err_0@ == missing_credentials_msg(),
{
    if app_id.unicode_len() == 0 || app_secret.unicode_len() == 0 {
        return Err(String::from_str("app_id and app_secret are required"));
    }
    Ok(())
}

/// Checks an upsert request: the name first, then the credentials.
pub fn check_upsert_request(name: &str, app_id: &str, app_secret: &str) -> (r: Result<(), String>)
    ensures
        match r {
            Ok(()) => valid_name_spec(name@) && app_id@.len() > 0 && app_secret@.len() > 0,
            Err(e) => if !valid_name_spec(name@) {
                e@ == bad_name_msg()
            } else {
                (app_id@.len() == 0 || app_secret@.len() == 0) && e@ == missing_credentials_msg()
            },
        },
{
    if !crate::lark::valid_name(name) {
        return Err(String::from_str("name must be non-empty and use only [A-Za-z0-9_-]"));
    }
    check_test_request(app_id, app_secret)
}

/// The tenant-access-token endpoint under a Lark base URL.
pub fn token_url(base_url: &str) -> (url: String)
    ensures
        url@ == trim_trailing_slashes(base_url@) + "/open-apis/auth/v3/tenant_access_token/internal"@,
{
    let mut url = trim_end_slashes(base_url);
    url.append("/open-apis/auth/v3/tenant_access_token/internal");
    url
}

/// What a token response means: code `0` is success with the token
/// lifetime; otherwise Lark's message and code, or the code alone when the
/// message is empty.
pub open spec fn token_outcome_spec(code: i64, msg: Seq<char>, expire: u64) -> Result<u64, Seq<char>> {
    if code == 0 {
        Ok(expire)
    } else if msg.len() == 0 {
        Err("Lark error code "@ + signed_decimal_spec(code as int))
    } else {
        Err(msg + " (code "@ + signed_decimal_spec(code as int) + ")"@)
    }
}

/// Reads a token response.
pub fn token_outcome(code: i64, msg: &str, expire: u64) -> (r: Result<u64, String>)
    ensures
        match token_outcome_spec(code, msg@, expire) {
            Ok(e) => r == Ok::<u64, String>(e),
            Err(m) => r is Err && r->Err_0@ == m,
        },
{
    if code == 0 {
        return Ok(expire);
    }
    if msg.unicode_len() == 0 {
        let mut e = String::from_str("Lark error code ");
        push_signed_decimal(&mut e, code);
        Err(e)
    } else {
        let mut e = String::from_str(msg);
        e.append(" (code ");
        push_signed_decimal(&mut e, code);
        e.append(")");
        Err(e)
    }
}

/// The error an upsert reports when the live credential test failed.
pub fn credential_test_failed(reason: &str) -> (e: String)
    ensures
        e@ == "credential test failed: "@ + reason@,
{
    let mut e = String::from_str("credential test failed: ");
    e.append(reason);
    e
}

/// `s` trimmed, unless that leaves nothing.
pub open spec fn trimmed_nonblank(s: Seq<char>) -> Option<Seq<char>> {
    if trim_spec(s).len() > 0 { Some(trim_spec(s)) } else { None }
}

/// An optional field as the console writes it: trimmed, and removed when
/// blank.
pub fn clean_optional(v: Option<&str>) -> (r: Option<String>)
    ensures
        match v {
            Some(s) => match trimmed_nonblank(s@) {
                Some(t) => r is Some && r->0@ == t,
                None => r is None,
            },
            None => r is None,
        },
{
    match v {
        None => None,
        Some(s) => {
            proof {
                lemma_trim_empty_iff_blank(s@);
            }
            if is_blank(s) {
                None
            } else {
                Some(trim(s))
            }
        },
    }
}

/// The trimmed, non-blank entries of `admins`, in order.
pub open spec fn clean_admins_spec(admins: Seq<Seq<char>>) -> Seq<Seq<char>>
    decreases admins.len(),
{
    if admins.len() == 0 {
        Seq::empty()
    } else {
        let prev = clean_admins_spec(admins.drop_last());
        match trimmed_nonblank(admins.last()) {
            Some(t) => prev.push(t),
            None => prev,
        }
    }
}

/// The admin allowlist as written: each entry trimmed, blank ones dropped.
pub fn clean_admins(admins: &[String]) -> (out: Vec<String>)
    ensures
        out@.map_values(|s: String| s@) == clean_admins_spec(admins@.map_values(|s: String| s@)),
{
    let ghost av = admins@.map_values(|s: String| s@);
    let mut out: Vec<String> = Vec::new();
    let mut i: usize = 0;
    while i < admins.len()
        invariant
            i <= admins@.len(),
            av == admins@.map_values(|s: String| s@),
            out@.map_values(|s: String| s@) == clean_admins_spec(av.take(i as int)),
        decreases admins@.len() - i,
    {
        assert(av.take(i as int + 1).drop_last() =~= av.take(i as int));
        assert(av.take(i as int + 1).last() == admins@[i as int]@);
        let ghost before = out@;
        if let Some(t) = clean_optional(Some(admins[i].as_str())) {
            out.push(t);
            assert(out@.map_values(|s: String| s@) =~= before.map_values(|s: String| s@).push(out@.last()@));
        }
        i = i + 1;
    }
    assert(av.take(admins@.len() as int) =~= av);
    out
}

/// Why a console sign-in binding is refused, if it is: the name (trimmed)
/// is required and must name a registry entry with both credentials.
pub open spec fn binding_error(raw: Seq<char>, registry: Map<Seq<char>, LarkAppView>) -> Option<Seq<char>> {
    let name = trim_spec(raw);
    if name.len() == 0 {
        Some("lark_app is required"@)
    } else if registry.contains_key(name) && registry[name].app_id.len() > 0 && registry[name].app_secret.len() > 0 {
        None
    } else {
        Some("lark_app '"@ + name + "' is not a registered Lark app with credentials \u{2014} register it first"@)
    }
}

/// Checks a console sign-in binding against the registry; the bound name
/// (trimmed) on success.
pub fn check_console_binding(raw: &str, registry: &LarkRegistry) -> (r: Result<String, String>)
    ensures
        match binding_error(raw@, registry@) {
            None => r is Ok && r->Ok_0@ == trim_spec(raw@),
            Some(e) => r is Err && r->Err_0@ == e,
        },
{
    let name = trim(raw);
    if name.as_str().unicode_len() == 0 {
        return Err(String::from_str("lark_app is required"));
    }
    let usable = match registry.get(name.as_str()) {
        Some(app) => app.app_id.as_str().unicode_len() > 0 && app.app_secret.as_str().unicode_len() > 0,
        None => false,
    };
    if usable {
        Ok(name)
    } else {
        let mut e = String::from_str("lark_app '");
        e.append(name.as_str());
        e.append("' is not a registered Lark app with credentials \u{2014} register it first");
        Err(e)
    }
}

/// The error for an unregistered App name.
pub fn unknown_app_error(app: &str) -> (e: String)
    ensures
        e@ == "no registered app '"@ + app@ + "'"@,
{
    let mut e = String::from_str("no registered app '");
    e.append(app);
    e.append("'");
    e
}

/// The error for binding an App to a name the registry lacks.
pub fn unregistered_binding_error(name: &str) -> (e: String)
    ensures
        e@ == "lark_app '"@ + name@ + "' is not a registered Lark app \u{2014} register it in the Lark Apps tab first"@,
{
    let mut e = String::from_str("lark_app '");
    e.append(name);
    e.append("' is not a registered Lark app \u{2014} register it in the Lark Apps tab first");
    e
}

/// Where an event stream resumes: the `since` query parameter, else the
/// `Last-Event-ID` header; `None` replays the most recent events instead.
pub fn resume_from(query_since: Option<u64>, last_event_id: Option<u64>) -> (r: Option<u64>)
    ensures
        r == match query_since { Some(s) => Some(s), None => last_event_id },
{
    match query_since {
        Some(s) => Some(s),
        None => last_event_id,
    }
}

/// The id of the last replayed event, or 0 when nothing was replayed.
pub fn last_replayed(backfill_ids: &[u64]) -> (last: u64)
    ensures
        last == if backfill_ids@.len() == 0 { 0 } else { backfill_ids@.last() },
{
    if backfill_ids.len() == 0 {
        0
    } else {
        backfill_ids[backfill_ids.len() - 1]
    }
}

/// Whether a live event goes out after the replay: only ids past the last
/// replayed one, so nothing is sent twice.
pub fn forward_live(id: u64, last_replayed: u64) -> (r: bool)
    ensures
        r == (id > last_replayed),
{
    id > last_replayed
}

/// With the replayed ids in ascending order, a live event that goes out is
/// newer than every replayed one: no event reaches the client twice.
pub proof fn law_no_event_replayed_twice(backfill_ids: Seq<u64>, id: u64)
    requires
        forall|i: int, j: int| 0 <= i <= j < backfill_ids.len() ==> backfill_ids[i] <= backfill_ids[j],
        id > (if backfill_ids.len() == 0 { 0 } else { backfill_ids.last() }),
    ensures
        forall|i: int| 0 <= i < backfill_ids.len() ==> backfill_ids[i] < id,
{
    assert forall|i: int| 0 <= i < backfill_ids.len() implies backfill_ids[i] < id by {
        assert(backfill_ids[i] <= backfill_ids[backfill_ids.len() - 1]);
    }
}

/// A failed API call: the HTTP status and the error message.
#[derive(Debug, Clone)]
pub struct ApiFailure {
    pub status: u16,
    pub message: String,
}

/// The answer to `POST /actions/{app}/{action}`: `202` once handed to the
/// running App, `404` for an unknown App, `503` for one that is not running.
pub fn dispatch_reply(outcome: Result<(), DispatchError>, app: &str) -> (r: Result<u16, ApiFailure>)
    ensures
        match outcome {
            Ok(()) => r == Ok::<u16, ApiFailure>(202),
            Err(DispatchError::UnknownSubsystem) => r is Err && r->Err_0.status == 404
                && r->Err_0.message@ == "unknown app '"@ + app@ + "'"@,
            Err(DispatchError::Closed) => r is Err && r->Err_0.status == 503
                && r->Err_0.message@ == "app '"@ + app@ + "' is not running"@,
        },
{
    match outcome {
        Ok(()) => Ok(202),
        Err(DispatchError::UnknownSubsystem) => {
            let mut m = String::from_str("unknown app '");
            m.append(app);
            m.append("'");
            Err(ApiFailure { status: 404, message: m })
        },
        Err(DispatchError::Closed) => {
            let mut m = String::from_str("app '");
            m.append(app);
            m.append("' is not running");
            Err(ApiFailure { status: 503, message: m })
        },
    }
}

} // verus!
