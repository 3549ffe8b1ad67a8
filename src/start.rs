use vstd::prelude::*;

use crate::error::{message_spec, GatewayError};
use crate::status::Platform;

verus! {

/// How long, in milliseconds, the daemon is given after a successful spawn
/// to bind its listening socket before the start is reported.
pub const START_DELAY_MS: u64 = 2000;

/// The daemon's executable, looked up on the search path.
pub const DAEMON_EXECUTABLE: &'static str = "ollama";

/// The argument that runs the daemon as a server.
pub const SERVE_ARGUMENT: &'static str = "serve";

/// What the host reports back to a start session after carrying out its
/// last action.
#[derive(Clone, Debug, PartialEq, Eq)]
pub enum StartEvent {
    /// The start was requested.
    Begin,
    /// The daemon's serve process was spawned.
    SpawnSucceeded,
    /// Spawning failed, with the operating system's description.
    SpawnFailed(String),
    /// The host slept; the milliseconds that actually elapsed.
    Slept(u64),
}

/// What a start session asks the host to do next.
#[derive(Clone, Debug, PartialEq, Eq)]
pub enum StartAction {
    /// Spawn the daemon's serve process, detached.
    Spawn,
    /// Suspend the calling task for this many milliseconds.
    Sleep(u64),
    /// The daemon was spawned and has had its delay: report `started`.
    Started,
    /// Report this error.
    Fail(GatewayError),
}

/// The state of one request to start the daemon: whether the process was
/// spawned, and how long the host has waited since.
#[derive(Clone, Copy, Debug, PartialEq, Eq, Structural)]
pub struct StartSession {
    pub platform: Platform,
    pub spawned: bool,
    pub waited_ms: u64,
}

/// What a session asks for in a given state: nothing is started on a
/// platform other than POSIX; otherwise spawn first, then sleep out the rest
/// of the delay, then report the start.
pub open spec fn next_action_spec(s: StartSession) -> StartAction {
    if s.platform == Platform::Other {
        StartAction::Fail(GatewayError::Unsupported)
    } else if !s.spawned {
        StartAction::Spawn
    } else if s.waited_ms < START_DELAY_MS {
        StartAction::Sleep((START_DELAY_MS - s.waited_ms) as u64)
    } else {
        StartAction::Started
    }
}

/// Adds elapsed milliseconds to the wait, holding at `u64::MAX`.
pub open spec fn add_wait(waited: u64, ms: u64) -> u64 {
    if waited + ms > u64::MAX {
        u64::MAX
    } else {
        (waited + ms) as u64
    }
}

/// One step of a session: the state after `e` and the action asked for.
/// Time slept counts only once the process has been spawned.
pub open spec fn step_spec(s: StartSession, e: StartEvent) -> (StartSession, StartAction) {
    if s.platform == Platform::Other {
        (s, StartAction::Fail(GatewayError::Unsupported))
    } else {
        match e {
            StartEvent::Begin => (s, next_action_spec(s)),
            StartEvent::SpawnSucceeded => {
                let n = StartSession { spawned: true, waited_ms: 0, ..s };
                (n, next_action_spec(n))
            },
            StartEvent::SpawnFailed(d) => (s, StartAction::Fail(GatewayError::SpawnFailed(d))),
            StartEvent::Slept(ms) => {
                let n = if s.spawned {
                    StartSession { waited_ms: add_wait(s.waited_ms, ms), ..s }
                } else {
                    s
                };
                (n, next_action_spec(n))
            },
        }
    }
}

impl StartSession {
    /// A session that has done nothing yet.
    pub fn new(platform: Platform) -> (r: StartSession)
        ensures
            r.platform == platform,
            !r.spawned,
            r.waited_ms == 0,
    {
        StartSession { platform, spawned: false, waited_ms: 0 }
    }

    /// Takes in what happened and says what to do next.
    pub fn step(&mut self, event: StartEvent) -> (r: StartAction)
        ensures
            (*final(self), r) == step_spec(*old(self), event),
            r is Started ==> final(self).spawned && final(self).waited_ms >= START_DELAY_MS,
    {
        if let Platform::Other = self.platform {
            return StartAction::Fail(GatewayError::Unsupported);
        }
        match event {
            StartEvent::Begin => {},
            StartEvent::SpawnSucceeded => {
                self.spawned = true;
                self.waited_ms = 0;
            },
            StartEvent::SpawnFailed(d) => {
                return StartAction::Fail(GatewayError::SpawnFailed(d));
            },
            StartEvent::Slept(ms) => {
                if self.spawned {
                    self.waited_ms = self.waited_ms.saturating_add(ms);
                }
            },
        }
        self.next_action()
    }

    /// The action asked for in the current state.
    pub fn next_action(&self) -> (r: StartAction)
        ensures
            r == next_action_spec(*self),
    {
        match self.platform {
            Platform::Other => StartAction::Fail(GatewayError::Unsupported),
            Platform::Posix => if !self.spawned {
                StartAction::Spawn
            } else if self.waited_ms < START_DELAY_MS {
                StartAction::Sleep(START_DELAY_MS - self.waited_ms)
            } else {
                StartAction::Started
            },
        }
    }
}

/// The text reported once the daemon has been started.
pub fn started_message() -> (r: String)
    ensures
        r@ == "started"@,
{
    String::from_str("started")
}

/// A session reports the start only once the process has been spawned and
/// at least the fixed delay has elapsed since.
pub proof fn started_only_after_delay(s: StartSession, e: StartEvent)
    ensures
        step_spec(s, e).1 is Started ==> step_spec(s, e).0.spawned && step_spec(s, e).0.waited_ms
            >= START_DELAY_MS,
{
}

/// On a platform other than POSIX every step fails with the
/// unsupported-platform error, whatever the state and the event.
pub proof fn non_posix_start_always_unsupported(s: StartSession, e: StartEvent)
    requires
        s.platform == Platform::Other,
    ensures
        step_spec(s, e).1 == StartAction::Fail(GatewayError::Unsupported),
        step_spec(s, e).0 == s,
        message_spec(GatewayError::Unsupported) == "Platform not supported for auto-start"@,
{
}

} // verus!
