//! Control-plane value types, event-log level codes, per-App table naming, and
//! the supervisor's restart backoff.

use vstd::prelude::*;
use crate::kit::config::{clone_opt, opt_view};
use crate::text::{starts_with, str_eq};

verus! {

/// A supervised subsystem's lifecycle state.
#[derive(Debug, Clone, Copy, PartialEq, Eq, Structural)]
pub enum State {
    Starting,
    Running,
    Errored,
    Stopped,
}

/// A subsystem's latest reported status.
#[derive(Debug, Clone)]
pub struct Status {
    pub state: State,
    pub message: Option<String>,
    /// Unix-epoch milliseconds of the transition.
    pub updated_at: i64,
}

/// Milliseconds since the Unix epoch, or 0 if the clock reads before it.
/// Nothing is stated of the value: it is the wall clock.
#[verifier::external_body]
pub(crate) fn now_ms() -> i64 {
    std::time::SystemTime::now()
        .duration_since(std::time::UNIX_EPOCH)
        .map(|d| d.as_millis() as i64)
        .unwrap_or(0)
}

/// The mathematical value of a [`Status`].
pub struct StatusView {
    pub state: State,
    pub message: Option<Seq<char>>,
    pub updated_at: i64,
}

impl View for Status {
    type V = StatusView;

    open spec fn view(&self) -> StatusView {
        StatusView { state: self.state, message: opt_view(self.message), updated_at: self.updated_at }
    }
}

impl Status {
    /// A copy of this status.
    pub fn copied(&self) -> (s: Self)
        ensures
            s@ == self@,
    {
        Status { state: self.state, message: clone_opt(&self.message), updated_at: self.updated_at }
    }

    /// A status in `state` with an optional message, stamped with the current
    /// wall-clock time.
    pub fn new(state: State, message: Option<String>) -> (s: Self)
        ensures
            s.state == state,
            s.message == message,
    {
        Status { state, message, updated_at: now_ms() }
    }
}

/// A console event's severity.
#[derive(Debug, Clone, Copy, PartialEq, Eq, Structural)]
pub enum Level {
    Trace,
    Debug,
    Info,
    Warn,
    Error,
}

/// The code an event's level is stored under.
pub open spec fn level_code(l: Level) -> Seq<char> {
    match l {
        Level::Trace => "trace"@,
        Level::Debug => "debug"@,
        Level::Info => "info"@,
        Level::Warn => "warn"@,
        Level::Error => "error"@,
    }
}

/// The level a stored code reads back as; anything unrecognised is `Info`.
pub open spec fn level_of_code(s: Seq<char>) -> Level {
    if s == "trace"@ {
        Level::Trace
    } else if s == "debug"@ {
        Level::Debug
    } else if s == "warn"@ {
        Level::Warn
    } else if s == "error"@ {
        Level::Error
    } else {
        Level::Info
    }
}

/// The storage code of a level.
pub fn level_str(l: Level) -> (s: &'static str)
    ensures
        s@ == level_code(l),
{
    match l {
        Level::Trace => "trace",
        Level::Debug => "debug",
        Level::Info => "info",
        Level::Warn => "warn",
        Level::Error => "error",
    }
}

/// Reads a stored level code back; anything unrecognised is `Info`.
pub fn parse_level(s: &str) -> (l: Level)
    ensures
        l == level_of_code(s@),
{
    if str_eq(s, "trace") {
        Level::Trace
    } else if str_eq(s, "debug") {
        Level::Debug
    } else if str_eq(s, "warn") {
        Level::Warn
    } else if str_eq(s, "error") {
        Level::Error
    } else {
        Level::Info
    }
}

/// Reading back a stored level code gives the level that was stored.
pub proof fn law_level_code_round_trip(l: Level)
    ensures
        level_of_code(level_code(l)) == l,
{
    reveal_strlit("trace");
    reveal_strlit("debug");
    reveal_strlit("info");
    reveal_strlit("warn");
    reveal_strlit("error");
    assert("trace"@[0] == 't' && "debug"@[0] == 'd' && "info"@[0] == 'i');
    assert("warn"@[0] == 'w' && "error"@[0] == 'e');
}

/// Which family an App belongs to.
#[derive(Debug, Clone, Copy, PartialEq, Eq, Structural)]
pub enum Kind {
    Integration,
    Automation,
}

/// Why an action could not be handed to a subsystem.
#[derive(Debug, Clone, Copy, PartialEq, Eq, Structural)]
pub enum DispatchError {
    /// The subsystem never registered an action sink.
    UnknownSubsystem,
    /// The subsystem's action sink is gone (it is not running).
    Closed,
}

/// The table-name prefix an App's tables must carry.
pub open spec fn table_prefix_spec(app: Seq<char>) -> Seq<char> {
    app + "_"@
}

/// The required table-name prefix for an App's tables (`"linear_"` etc.).
pub fn table_prefix(app: &str) -> (p: String)
    ensures
        p@ == table_prefix_spec(app@),
{
    let mut p = String::from_str(app);
    p.append("_");
    p
}

/// Namespaces a table name under its App: `table_name("linear", "user_map")`
/// is `"linear_user_map"`.
pub fn table_name(app: &str, name: &str) -> (t: String)
    ensures
        t@ == table_prefix_spec(app@) + name@,
{
    let mut t = table_prefix(app);
    t.append(name);
    t
}

/// The framework-owned migration-tracking table.
pub open spec fn tracking_table_spec() -> Seq<char> {
    "_larkstack_migrations"@
}

/// Tables the namespace check ignores: the tracking table and SQLite internals.
pub open spec fn is_framework_table_spec(name: Seq<char>) -> bool {
    name == tracking_table_spec()
        || ("sqlite_"@.len() <= name.len() && name.take("sqlite_"@.len() as int) == "sqlite_"@)
}

/// Whether `name` is exempt from the per-App namespace check.
pub fn is_framework_table(name: &str) -> (r: bool)
    ensures
        r == is_framework_table_spec(name@),
{
    str_eq(name, "_larkstack_migrations") || starts_with(name, "sqlite_")
}

/// Whether a table created or dropped by `app` breaks its namespace.
pub open spec fn outside_namespace(app: Seq<char>, table: Seq<char>) -> bool {
    let p = table_prefix_spec(app);
    !is_framework_table_spec(table) && !(p.len() <= table.len() && table.take(p.len() as int) == p)
}

/// The first table of `now` that is absent from `then` and outside `app`'s
/// namespace.
pub open spec fn first_outside(app: Seq<char>, then: Seq<Seq<char>>, now: Seq<Seq<char>>) -> Option<Seq<char>>
    decreases now.len(),
{
    if now.len() == 0 {
        None
    } else {
        match first_outside(app, then, now.drop_last()) {
            Some(t) => Some(t),
            None => if !then.contains(now.last()) && outside_namespace(app, now.last()) {
                Some(now.last())
            } else {
                None
            },
        }
    }
}

/// The error a migration's table changes earn, or `None` when it stayed in
/// its namespace: created tables are checked before dropped ones.
pub open spec fn namespace_error(app: Seq<char>, before: Seq<Seq<char>>, after: Seq<Seq<char>>) -> Option<Seq<char>> {
    match first_outside(app, before, after) {
        Some(t) => Some("created table '"@ + t + "' outside required '"@ + table_prefix_spec(app) + "' namespace"@),
        None => match first_outside(app, after, before) {
            Some(t) => Some("dropped table '"@ + t + "' outside '"@ + table_prefix_spec(app) + "' namespace"@),
            None => None,
        },
    }
}

/// The views of a sequence of strings.
pub open spec fn names_view(v: Seq<String>) -> Seq<Seq<char>> {
    v.map_values(|s: String| s@)
}

/// The first table of `now` absent from `then` and outside `app`'s namespace.
fn find_outside(app: &str, then: &Vec<String>, now: &Vec<String>) -> (r: Option<usize>)
    ensures
        match r {
            Some(i) => i < now@.len() && first_outside(app@, names_view(then@), names_view(now@)) == Some(now@[i as int]@),
            None => first_outside(app@, names_view(then@), names_view(now@)) is None,
        },
{
    let prefix = table_prefix(app);
    let mut i: usize = 0;
    while i < now.len()
        invariant
            prefix@ == table_prefix_spec(app@),
            i <= now@.len(),
            first_outside(app@, names_view(then@), names_view(now@).take(i as int)) is None,
        decreases now@.len() - i,
    {
        let t = &now[i];
        proof {
            let n = names_view(now@).take(i + 1);
            assert(n.drop_last() =~= names_view(now@).take(i as int));
        }
        let mut present = false;
        let mut j: usize = 0;
        while j < then.len()
            invariant
                j <= then@.len(),
                present == exists|k: int| 0 <= k < j && names_view(then@)[k] == t@,
            decreases then@.len() - j,
        {
            if then[j] == *t {
                present = true;
            }
            proof {
                if then@[j as int]@ == t@ {
                    assert(names_view(then@)[j as int] == t@);
                }
                if exists|k: int| 0 <= k < j + 1 && names_view(then@)[k] == t@ {
                    let k = choose|k: int| 0 <= k < j + 1 && names_view(then@)[k] == t@;
                    if k < j {
                        assert(exists|k: int| 0 <= k < j && names_view(then@)[k] == t@);
                    }
                }
            }
            j = j + 1;
        }
        assert(present == names_view(then@).contains(t@));
        if !present && !is_framework_table(t.as_str()) && !starts_with(t.as_str(), prefix.as_str()) {
            proof {
                lemma_first_outside_prefix(app@, names_view(then@), names_view(now@), i + 1);
            }
            return Some(i);
        }
        i = i + 1;
    }
    assert(names_view(now@).take(i as int) =~= names_view(now@));
    None
}

proof fn lemma_first_outside_prefix(app: Seq<char>, then: Seq<Seq<char>>, now: Seq<Seq<char>>, n: int)
    requires
        0 <= n <= now.len(),
        first_outside(app, then, now.take(n)) is Some,
    ensures
        first_outside(app, then, now) == first_outside(app, then, now.take(n)),
    decreases now.len() - n,
{
    if n < now.len() {
        assert(now.take(n + 1).drop_last() =~= now.take(n));
        lemma_first_outside_prefix(app, then, now, n + 1);
    } else {
        assert(now.take(n) =~= now);
    }
}

/// Checks that a migration of `app`, which turned table list `before` into
/// `after`, created and dropped only tables in `app`'s namespace (or
/// framework tables). The first offending created table is reported, else the
/// first offending dropped one.
pub fn check_namespace(app: &str, before: &Vec<String>, after: &Vec<String>) -> (r: Result<(), String>)
    ensures
        match namespace_error(app@, names_view(before@), names_view(after@)) {
            None => r is Ok,
            Some(m) => r is Err && r->Err_0@ == m,
        },
{
    match find_outside(app, before, after) {
        Some(i) => {
            let mut m = String::from_str("created table '");
            m.append(after[i].as_str());
            m.append("' outside required '");
            let p = table_prefix(app);
            m.append(p.as_str());
            m.append("' namespace");
            return Err(m);
        }
        None => {}
    }
    match find_outside(app, after, before) {
        Some(i) => {
            let mut m = String::from_str("dropped table '");
            m.append(before[i].as_str());
            m.append("' outside '");
            let p = table_prefix(app);
            m.append(p.as_str());
            m.append("' namespace");
            Err(m)
        }
        None => Ok(()),
    }
}

/// A migration that passes the namespace check created and dropped only
/// framework tables or tables carrying the App's prefix.
pub proof fn law_namespace_enforced(app: Seq<char>, before: Seq<Seq<char>>, after: Seq<Seq<char>>)
    requires
        namespace_error(app, before, after) is None,
    ensures
        forall|i: int| 0 <= i < after.len() && !before.contains(#[trigger] after[i]) ==> !outside_namespace(app, after[i]),
        forall|i: int| 0 <= i < before.len() && !after.contains(#[trigger] before[i]) ==> !outside_namespace(app, before[i]),
{
    lemma_first_outside_none(app, before, after);
    lemma_first_outside_none(app, after, before);
}

proof fn lemma_first_outside_none(app: Seq<char>, then: Seq<Seq<char>>, now: Seq<Seq<char>>)
    requires
        first_outside(app, then, now) is None,
    ensures
        forall|i: int| 0 <= i < now.len() && !then.contains(#[trigger] now[i]) ==> !outside_namespace(app, now[i]),
    decreases now.len(),
{
    if now.len() > 0 {
        lemma_first_outside_none(app, then, now.drop_last());
        assert forall|i: int| 0 <= i < now.len() && !then.contains(#[trigger] now[i]) implies !outside_namespace(app, now[i]) by {
            if i < now.len() - 1 {
                assert(now.drop_last()[i] == now[i]);
            }
        }
    }
}

/// The longest restart delay, in seconds.
pub const MAX_BACKOFF_SECS: u64 = 60;

/// Exponential backoff for crash/build-error restarts: 1s, doubling, capped at
/// 60s.
#[derive(Debug)]
pub struct Backoff {
    current_secs: u64,
}

/// The delay the `n`-th consecutive failure waits, counting from zero.
pub open spec fn backoff_delay(n: nat) -> nat
    decreases n,
{
    if n == 0 {
        1
    } else {
        let prev = backoff_delay((n - 1) as nat);
        if 2 * prev < 60 { 2 * prev } else { 60 }
    }
}

impl View for Backoff {
    type V = nat;

    closed spec fn view(&self) -> nat {
        self.current_secs as nat
    }
}

impl Backoff {
    #[verifier::type_invariant]
    closed spec fn in_range(&self) -> bool {
        1 <= self.current_secs <= 60
    }

    /// A fresh backoff whose first delay is one second.
    pub fn new() -> (b: Self)
        ensures
            b@ == backoff_delay(0),
    {
        Backoff { current_secs: 1 }
    }

    /// Back to the one-second first delay (after a successful build).
    pub fn reset(&mut self)
        ensures
            final(self)@ == backoff_delay(0),
    {
        self.current_secs = 1;
    }

    /// The delay to wait now, in seconds; the next one doubles, up to 60s.
    pub fn next(&mut self) -> (delay_secs: u64)
        ensures
            delay_secs == old(self)@,
            final(self)@ == (if 2 * old(self)@ < 60 { 2 * old(self)@ } else { 60 }),
            1 <= delay_secs <= MAX_BACKOFF_SECS,
    {
        proof {
            use_type_invariant(&*self);
        }
        let delay = self.current_secs;
        self.current_secs = if delay * 2 < MAX_BACKOFF_SECS { delay * 2 } else { MAX_BACKOFF_SECS };
        delay
    }
}

/// The `n`-th delay is `2^n` seconds until it reaches the 60s cap, and never
/// exceeds it.
pub proof fn law_backoff_doubles_then_caps(n: nat)
    ensures
        1 <= backoff_delay(n) <= 60,
        backoff_delay(n) == (if vstd::arithmetic::power2::pow2(n) < 60 { vstd::arithmetic::power2::pow2(n) } else { 60 }),
    decreases n,
{
    vstd::arithmetic::power2::lemma_pow2_unfold(n + 1);
    if n > 0 {
        law_backoff_doubles_then_caps((n - 1) as nat);
        vstd::arithmetic::power2::lemma_pow2_unfold(n);
    } else {
        vstd::arithmetic::power2::lemma2_to64();
    }
}

impl DispatchError {
    /// The error as shown to the operator.
    pub fn message(&self) -> (m: &'static str)
        ensures
            m@ == match *self {
                DispatchError::UnknownSubsystem => "unknown subsystem"@,
                DispatchError::Closed => "subsystem not running"@,
            },
    {
        match self {
            DispatchError::UnknownSubsystem => "unknown subsystem",
            DispatchError::Closed => "subsystem not running",
        }
    }
}

/// Where an action goes: nowhere when the subsystem never registered a sink,
/// nowhere when its sink is gone, else to the sink.
pub fn dispatch_outcome(registered: bool, delivered: bool) -> (r: Result<(), DispatchError>)
    ensures
        !registered ==> r == Err::<(), DispatchError>(DispatchError::UnknownSubsystem),
        registered && !delivered ==> r == Err::<(), DispatchError>(DispatchError::Closed),
        registered && delivered ==> r is Ok,
{
    if !registered {
        Err(DispatchError::UnknownSubsystem)
    } else if !delivered {
        Err(DispatchError::Closed)
    } else {
        Ok(())
    }
}

/// The next id after advancing past `min`.
pub open spec fn advanced(next: nat, min: nat) -> nat {
    if next > min + 1 { next } else { min + 1 }
}

/// The ids handed to control-plane events: each event takes the next one, so
/// id order is emission order.
#[derive(Debug)]
pub struct EventIds {
    next: u64,
}

impl View for EventIds {
    type V = nat;

    /// The id the next event gets.
    closed spec fn view(&self) -> nat {
        self.next as nat
    }
}

impl EventIds {
    /// Ids starting at 1.
    pub fn new() -> (ids: Self)
        ensures
            ids@ == 1,
    {
        EventIds { next: 1 }
    }

    /// The next id; the counter wraps to 0 after `u64::MAX`.
    pub fn next_event_id(&mut self) -> (id: u64)
        ensures
            id == old(self)@,
            final(self)@ == (if old(self)@ == u64::MAX { 0 } else { old(self)@ + 1 }),
    {
        let id = self.next;
        self.next = self.next.wrapping_add(1);
        id
    }

    /// Makes every later id exceed `min` (the largest id already stored).
    pub fn advance_event_id(&mut self, min: u64)
        requires
            min < u64::MAX,
        ensures
            final(self)@ == advanced(old(self)@, min as nat),
    {
        if self.next < min + 1 {
            self.next = min + 1;
        }
    }
}

/// Advancing never moves the counter back, and afterwards every id it hands
/// out exceeds the watermark.
pub proof fn law_advance_passes_watermark(next: nat, min: nat)
    ensures
        advanced(next, min) >= next,
        advanced(next, min) > min,
{
}

/// The migrations a run applies, in order: each named migration not yet
/// recorded as applied (a name met again is applied by then, so skipped).
pub open spec fn pending_migrations(names: Seq<Seq<char>>, applied: Seq<Seq<char>>) -> Seq<Seq<char>>
    decreases names.len(),
{
    if names.len() == 0 {
        Seq::empty()
    } else {
        let prev = pending_migrations(names.drop_last(), applied);
        let n = names.last();
        if applied.contains(n) || prev.contains(n) { prev } else { prev.push(n) }
    }
}

/// Whether `v` holds a string equal to `s`.
fn holds_name(v: &Vec<String>, s: &str) -> (r: bool)
    ensures
        r == names_view(v@).contains(s@),
{
    let ghost vs = names_view(v@);
    let mut i: usize = 0;
    while i < v.len()
        invariant
            vs == names_view(v@),
            i <= v@.len(),
            forall|k: int| 0 <= k < i ==> vs[k] != s@,
        decreases v@.len() - i,
    {
        if str_eq(v[i].as_str(), s) {
            assert(vs[i as int] == s@);
            return true;
        }
        i = i + 1;
    }
    false
}

/// The migrations of an App to apply, given those already recorded: the run
/// is idempotent, skipping every migration that was applied before.
pub fn plan_migrations(names: &Vec<String>, applied: &Vec<String>) -> (r: Vec<String>)
    ensures
        names_view(r@) == pending_migrations(names_view(names@), names_view(applied@)),
{
    let ghost nv = names_view(names@);
    let ghost av = names_view(applied@);
    let mut out: Vec<String> = Vec::new();
    let mut i: usize = 0;
    assert(nv.take(0) =~= Seq::<Seq<char>>::empty());
    while i < names.len()
        invariant
            nv == names_view(names@),
            av == names_view(applied@),
            i <= names@.len(),
            names_view(out@) == pending_migrations(nv.take(i as int), av),
        decreases names@.len() - i,
    {
        assert(nv.take(i as int + 1).drop_last() =~= nv.take(i as int));
        assert(nv.take(i as int + 1).last() == names@[i as int]@);
        let n = &names[i];
        if !holds_name(applied, n.as_str()) && !holds_name(&out, n.as_str()) {
            out.push(n.clone());
            assert(names_view(out@) =~= pending_migrations(nv.take(i as int), av).push(n@));
        }
        i = i + 1;
    }
    assert(nv.take(names@.len() as int) =~= nv);
    out
}

/// A second run right after a successful one applies nothing: once the
/// pending migrations are recorded, none is pending.
pub proof fn law_migrations_are_idempotent(names: Seq<Seq<char>>, applied: Seq<Seq<char>>)
    ensures
        pending_migrations(names, applied + pending_migrations(names, applied)) == Seq::<Seq<char>>::empty(),
{
    let p = pending_migrations(names, applied);
    let all = applied + p;
    lemma_pending_in_names(names, applied);
    assert forall|k: int| 0 <= k < names.len() implies all.contains(#[trigger] names[k]) by {
        if applied.contains(names[k]) {
            let j = choose|j: int| 0 <= j < applied.len() && applied[j] == names[k];
            assert(all[j] == names[k]);
        } else {
            let j = choose|j: int| 0 <= j < p.len() && p[j] == names[k];
            assert(all[applied.len() + j] == names[k]);
        }
    }
    lemma_nothing_pending(names, all);
}

/// Every name of `names` is applied or pending.
proof fn lemma_pending_in_names(names: Seq<Seq<char>>, applied: Seq<Seq<char>>)
    ensures
        forall|k: int| 0 <= k < names.len() ==> applied.contains(#[trigger] names[k]) || pending_migrations(names, applied).contains(names[k]),
    decreases names.len(),
{
    if names.len() > 0 {
        let prev = names.drop_last();
        lemma_pending_in_names(prev, applied);
        let pp = pending_migrations(prev, applied);
        assert forall|k: int| 0 <= k < names.len() implies applied.contains(#[trigger] names[k]) || pending_migrations(names, applied).contains(names[k]) by {
            if k < prev.len() {
                assert(prev[k] == names[k]);
                if pp.contains(names[k]) && !applied.contains(names.last()) && !pp.contains(names.last()) {
                    let j = choose|j: int| 0 <= j < pp.len() && pp[j] == names[k];
                    assert(pp.push(names.last())[j] == names[k]);
                }
            } else {
                if !applied.contains(names.last()) && !pp.contains(names.last()) {
                    assert(pp.push(names.last())[pp.len() as int] == names.last());
                }
            }
        }
    }
}

/// When every name is already applied, nothing is pending.
proof fn lemma_nothing_pending(names: Seq<Seq<char>>, applied: Seq<Seq<char>>)
    requires
        forall|k: int| 0 <= k < names.len() ==> applied.contains(#[trigger] names[k]),
    ensures
        pending_migrations(names, applied) == Seq::<Seq<char>>::empty(),
    decreases names.len(),
{
    if names.len() > 0 {
        let prev = names.drop_last();
        assert forall|k: int| 0 <= k < prev.len() implies applied.contains(#[trigger] prev[k]) by {
            assert(prev[k] == names[k]);
        }
        lemma_nothing_pending(prev, applied);
        assert(applied.contains(names[names.len() - 1]));
    }
}

} // verus!
