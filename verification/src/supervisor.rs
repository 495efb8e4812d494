//! The per-App supervisor's decisions. The host runs one loop per App: it
//! reads the config, builds the App, runs it, and on failure waits before
//! the next attempt; each step below says what that loop does next.

use vstd::prelude::*;
use crate::control::{backoff_delay, Backoff};

verus! {

/// What the supervising loop does next.
#[derive(Debug)]
pub enum Command {
    /// Report `Stopped` and wait for the next config change.
    Stop,
    /// Report `Starting` and build the App from the current config.
    Build,
    /// Report `Running` and run the built App with its action loop.
    Run,
    /// Report `Errored(message)`, then wait `delay_secs` (or until the config
    /// changes) before starting over.
    Retry { message: String, delay_secs: u64 },
    /// Start over with the new config.
    Restart,
    /// The host is shutting down.
    Exit,
}

/// How a running generation ended.
#[derive(Debug)]
pub enum RunEnd {
    /// The run loop returned although the App is still enabled.
    Returned,
    /// The run loop failed with this error.
    Failed(String),
    /// The run loop panicked with this message.
    Panicked(String),
    /// The App's change key moved.
    KeyChanged,
    /// The config channel closed.
    ConfigClosed,
}

/// The mathematical value of a [`Command`].
pub enum CommandView {
    Stop,
    Build,
    Run,
    Retry { message: Seq<char>, delay_secs: nat },
    Restart,
    Exit,
}

impl View for Command {
    type V = CommandView;

    open spec fn view(&self) -> CommandView {
        match self {
            Command::Stop => CommandView::Stop,
            Command::Build => CommandView::Build,
            Command::Run => CommandView::Run,
            Command::Retry { message, delay_secs } => CommandView::Retry { message: message@, delay_secs: *delay_secs as nat },
            Command::Restart => CommandView::Restart,
            Command::Exit => CommandView::Exit,
        }
    }
}

/// The retry delay that follows `d`: twice as long, up to sixty seconds.
pub open spec fn next_delay(d: nat) -> nat {
    if 2 * d < 60 { 2 * d } else { 60 }
}

/// One App's supervision state: the delay its next failed attempt waits.
#[derive(Debug)]
pub struct Supervisor {
    backoff: Backoff,
}

impl View for Supervisor {
    type V = nat;

    /// The delay, in seconds, the next failure waits.
    closed spec fn view(&self) -> nat {
        self.backoff@
    }
}

impl Supervisor {
    /// A supervisor whose first failure waits one second.
    pub fn new() -> (s: Self)
        ensures
            s@ == backoff_delay(0),
    {
        Supervisor { backoff: Backoff::new() }
    }

    /// After reading the config: a disabled App is stopped, an enabled one
    /// is built.
    pub fn on_config(&self, enabled: bool) -> (c: Command)
        ensures
            c@ == if enabled { CommandView::Build } else { CommandView::Stop },
    {
        if enabled { Command::Build } else { Command::Stop }
    }

    /// After a build: success resets the delay and runs the App; failure
    /// reports `build: <error>` and waits the current delay, which then
    /// doubles.
    pub fn on_build(&mut self, result: Result<(), String>) -> (c: Command)
        ensures
            match result {
                Ok(()) => c@ == CommandView::Run && final(self)@ == backoff_delay(0),
                Err(e) => c@ == (CommandView::Retry { message: "build: "@ + e@, delay_secs: old(self)@ })
                    && final(self)@ == next_delay(old(self)@),
            },
    {
        match result {
            Ok(()) => {
                self.backoff.reset();
                Command::Run
            },
            Err(e) => {
                let delay = self.backoff.next();
                let mut message = String::from_str("build: ");
                message.append(e.as_str());
                Command::Retry { message, delay_secs: delay }
            },
        }
    }

    /// After a generation ends: shutdown exits, a moved key restarts, and a
    /// run loop that stopped on its own is a crash that waits the current
    /// delay, which then doubles.
    pub fn on_run_end(&mut self, end: RunEnd) -> (c: Command)
        ensures
            match end {
                RunEnd::ConfigClosed => c@ == CommandView::Exit && final(self)@ == old(self)@,
                RunEnd::KeyChanged => c@ == CommandView::Restart && final(self)@ == old(self)@,
                RunEnd::Returned => c@ == (CommandView::Retry { message: "run loop exited unexpectedly"@, delay_secs: old(self)@ })
                    && final(self)@ == next_delay(old(self)@),
                RunEnd::Failed(e) => c@ == (CommandView::Retry { message: e@, delay_secs: old(self)@ })
                    && final(self)@ == next_delay(old(self)@),
                RunEnd::Panicked(p) => c@ == (CommandView::Retry { message: "panicked: "@ + p@, delay_secs: old(self)@ })
                    && final(self)@ == next_delay(old(self)@),
            },
    {
        match end {
            RunEnd::ConfigClosed => Command::Exit,
            RunEnd::KeyChanged => Command::Restart,
            RunEnd::Returned => {
                let delay = self.backoff.next();
                Command::Retry { message: String::from_str("run loop exited unexpectedly"), delay_secs: delay }
            },
            RunEnd::Failed(e) => {
                let delay = self.backoff.next();
                Command::Retry { message: e, delay_secs: delay }
            },
            RunEnd::Panicked(p) => {
                let delay = self.backoff.next();
                let mut message = String::from_str("panicked: ");
                message.append(p.as_str());
                Command::Retry { message, delay_secs: delay }
            },
        }
    }
}

/// While the App runs, a config change restarts it only when its change key
/// moved; a closed channel ends the generation for shutdown.
pub fn on_config_change(closed: bool, key_changed: bool) -> (end: Option<RunEnd>)
    ensures
        closed ==> end matches Some(RunEnd::ConfigClosed),
        !closed && key_changed ==> end matches Some(RunEnd::KeyChanged),
        !closed && !key_changed ==> end is None,
{
    if closed {
        Some(RunEnd::ConfigClosed)
    } else if key_changed {
        Some(RunEnd::KeyChanged)
    } else {
        None
    }
}

/// The `n`-th consecutive failure after a successful build (counting from
/// zero) waits `backoff_delay(n)` seconds: starting from a fresh or reset
/// supervisor, `n` failures leave the next delay at `backoff_delay(n)`.
pub proof fn law_failures_follow_the_backoff(n: nat)
    ensures
        backoff_delay(n + 1) == next_delay(backoff_delay(n)),
        1 <= backoff_delay(n) <= 60,
    decreases n,
{
    if n > 0 {
        law_failures_follow_the_backoff((n - 1) as nat);
    }
}

} // verus!
