//! The supervised process handle and its lifecycle.
//!
//! The supervisor owns at most one child process at a time.  The host drives
//! it with [`Event`]s — startup with a built configuration, the outcome of a
//! spawn attempt, the exit request, the outcome of a kill attempt — and the
//! supervisor answers with the [`Action`] the host must perform next and the
//! log lines to emit.  All process work (spawning, killing) happens in the
//! host; the supervisor only decides.

use vstd::prelude::*;

use crate::config::SpawnConfig;

verus! {

/// Severity of a log line.
#[derive(Clone, Copy, Debug, PartialEq, Eq, Structural)]
pub enum LogLevel {
    Info,
    Warn,
    Error,
}

/// The conditions the supervisor asks the host to log.
#[derive(Clone, Copy, Debug, PartialEq, Eq, Structural)]
pub enum LogEvent {
    /// Data-directory resolution failed and the fallback location is in use.
    DataDirFallback,
    /// Debug build without override: the sidecar is deliberately not spawned.
    SidecarSkipped,
    /// The sidecar process is running and supervised.
    SidecarStarted,
    /// The host could not provide the sidecar spawn capability.
    SidecarUnavailable,
    /// The spawn attempt itself failed.
    SidecarSpawnFailed,
    /// The kill at shutdown succeeded.
    SidecarStopped,
    /// The kill at shutdown failed; shutdown proceeds regardless.
    SidecarKillFailed,
}

/// The severity each condition is logged at: spawn and kill failures are
/// errors, the data-directory fallback is a warning, the rest is informational.
pub open spec fn level_of(e: LogEvent) -> LogLevel {
    match e {
        LogEvent::DataDirFallback => LogLevel::Warn,
        LogEvent::SidecarSkipped => LogLevel::Info,
        LogEvent::SidecarStarted => LogLevel::Info,
        LogEvent::SidecarUnavailable => LogLevel::Error,
        LogEvent::SidecarSpawnFailed => LogLevel::Error,
        LogEvent::SidecarStopped => LogLevel::Info,
        LogEvent::SidecarKillFailed => LogLevel::Error,
    }
}

/// Reads the severity of a log condition.
pub fn level(e: LogEvent) -> (l: LogLevel)
    ensures
        l == level_of(e),
{
    match e {
        LogEvent::DataDirFallback => LogLevel::Warn,
        LogEvent::SidecarSkipped => LogLevel::Info,
        LogEvent::SidecarStarted => LogLevel::Info,
        LogEvent::SidecarUnavailable => LogLevel::Error,
        LogEvent::SidecarSpawnFailed => LogLevel::Error,
        LogEvent::SidecarStopped => LogLevel::Info,
        LogEvent::SidecarKillFailed => LogLevel::Error,
    }
}

/// What the host reports to the supervisor.
#[derive(Debug)]
pub enum Event {
    /// Startup: the configuration has been computed.
    Started(SpawnConfig),
    /// The spawn attempt produced a live child, named by a host identifier.
    SpawnSucceeded(u64),
    /// The host could not provide the spawn capability.
    SpawnUnavailable,
    /// The spawn attempt failed.
    SpawnFailed,
    /// The host application is exiting.
    ExitRequested,
    /// The kill requested at exit succeeded.
    KillSucceeded,
    /// The kill requested at exit failed.
    KillFailed,
}

/// What the supervisor asks the host to do next.
#[derive(Debug, PartialEq)]
pub enum Action {
    /// Spawn the sidecar, passing this database path in its environment.
    SpawnSidecar(String),
    /// Kill the child named by this identifier.
    KillSidecar(u64),
    /// Nothing to do.
    NoAction,
}

/// One supervisor step: the action to perform and the lines to log.
#[derive(Debug)]
pub struct Transition {
    pub action: Action,
    pub logs: Vec<LogEvent>,
}

/// How the supervised handle evolves under an event: a successful spawn
/// populates it, an exit request clears it, and nothing else touches it.
pub open spec fn next_handle(handle: Option<u64>, event: Event) -> Option<u64> {
    match event {
        Event::SpawnSucceeded(id) => Some(id),
        Event::ExitRequested => None,
        _ => handle,
    }
}

/// The lines logged at startup: a warning when the data directory fell back,
/// and a notice when the sidecar is deliberately skipped.
pub open spec fn start_logs(used_fallback: bool, should_spawn: bool) -> Seq<LogEvent> {
    (if used_fallback {
        seq![LogEvent::DataDirFallback]
    } else {
        Seq::<LogEvent>::empty()
    }) + (if should_spawn {
        Seq::<LogEvent>::empty()
    } else {
        seq![LogEvent::SidecarSkipped]
    })
}

/// Supervises at most one child process: the handle is either absent or holds
/// the host's identifier for the live child.
pub struct Supervisor {
    handle: Option<u64>,
}

impl Supervisor {
    /// The host identifier of the supervised child, if one is held.
    pub closed spec fn handle_id(self) -> Option<u64> {
        self.handle
    }

    /// A fresh supervisor holds no child.
    pub fn new() -> (s: Supervisor)
        ensures
            s.handle_id() is None,
    {
        Supervisor { handle: None }
    }

    /// Reads the current handle.
    pub fn current_handle(&self) -> (h: Option<u64>)
        ensures
            h == self.handle_id(),
    {
        self.handle
    }

    /// Stores the handle of a freshly spawned child.
    pub fn record_spawn(&mut self, id: u64)
        ensures
            final(self).handle_id() == Some(id),
    {
        self.handle = Some(id);
    }

    /// Takes ownership of the handle.  The returned identifier, if any, names
    /// the child whose termination the host must now request; afterward the
    /// handle is always empty, whatever that kill attempt's outcome.  With no
    /// child supervised this is a no-op and nothing is to be killed.
    pub fn shutdown(&mut self) -> (kill: Option<u64>)
        ensures
            final(self).handle_id() is None,
            kill == old(self).handle_id(),
    {
        let h = self.handle;
        self.handle = None;
        h
    }

    /// Advances the supervisor by one event, yielding the host's next action
    /// and the lines to log.
    pub fn step(&mut self, event: Event) -> (t: Transition)
        ensures
            final(self).handle_id() == next_handle(old(self).handle_id(), event),
            match event {
                Event::Started(config) => {
                    &&& (config.should_spawn ==> (t.action matches Action::SpawnSidecar(p)
                        && p@ == config.db_path@))
                    &&& (!config.should_spawn ==> t.action is NoAction)
                    &&& t.logs@ == start_logs(config.used_fallback, config.should_spawn)
                },
                Event::SpawnSucceeded(_) => {
                    &&& t.action is NoAction
                    &&& t.logs@ == seq![LogEvent::SidecarStarted]
                },
                Event::SpawnUnavailable => {
                    &&& t.action is NoAction
                    &&& t.logs@ == seq![LogEvent::SidecarUnavailable]
                },
                Event::SpawnFailed => {
                    &&& t.action is NoAction
                    &&& t.logs@ == seq![LogEvent::SidecarSpawnFailed]
                },
                Event::ExitRequested => {
                    &&& (old(self).handle_id() matches Some(id) ==> t.action
                        == Action::KillSidecar(id))
                    &&& (old(self).handle_id() is None ==> t.action is NoAction)
                    &&& t.logs@ == Seq::<LogEvent>::empty()
                },
                Event::KillSucceeded => {
                    &&& t.action is NoAction
                    &&& t.logs@ == seq![LogEvent::SidecarStopped]
                },
                Event::KillFailed => {
                    &&& t.action is NoAction
                    &&& t.logs@ == seq![LogEvent::SidecarKillFailed]
                },
            },
    {
        match event {
            Event::Started(config) => {
                let should_spawn = config.should_spawn;
                let used_fallback = config.used_fallback;
                let mut logs: Vec<LogEvent> = Vec::new();
                if used_fallback {
                    logs.push(LogEvent::DataDirFallback);
                }
                let action = if should_spawn {
                    Action::SpawnSidecar(config.db_path)
                } else {
                    logs.push(LogEvent::SidecarSkipped);
                    Action::NoAction
                };
                proof {
                    assert(logs@ =~= start_logs(used_fallback, should_spawn));
                }
                Transition { action, logs }
            },
            Event::SpawnSucceeded(id) => {
                self.record_spawn(id);
                let mut logs: Vec<LogEvent> = Vec::new();
                logs.push(LogEvent::SidecarStarted);
                proof {
                    assert(logs@ =~= seq![LogEvent::SidecarStarted]);
                }
                Transition { action: Action::NoAction, logs }
            },
            Event::SpawnUnavailable => {
                let mut logs: Vec<LogEvent> = Vec::new();
                logs.push(LogEvent::SidecarUnavailable);
                proof {
                    assert(logs@ =~= seq![LogEvent::SidecarUnavailable]);
                }
                Transition { action: Action::NoAction, logs }
            },
            Event::SpawnFailed => {
                let mut logs: Vec<LogEvent> = Vec::new();
                logs.push(LogEvent::SidecarSpawnFailed);
                proof {
                    assert(logs@ =~= seq![LogEvent::SidecarSpawnFailed]);
                }
                Transition { action: Action::NoAction, logs }
            },
            Event::ExitRequested => {
                let kill = self.shutdown();
                let action = match kill {
                    Some(id) => Action::KillSidecar(id),
                    None => Action::NoAction,
                };
                Transition { action, logs: Vec::new() }
            },
            Event::KillSucceeded => {
                let mut logs: Vec<LogEvent> = Vec::new();
                logs.push(LogEvent::SidecarStopped);
                proof {
                    assert(logs@ =~= seq![LogEvent::SidecarStopped]);
                }
                Transition { action: Action::NoAction, logs }
            },
            Event::KillFailed => {
                let mut logs: Vec<LogEvent> = Vec::new();
                logs.push(LogEvent::SidecarKillFailed);
                proof {
                    assert(logs@ =~= seq![LogEvent::SidecarKillFailed]);
                }
                Transition { action: Action::NoAction, logs }
            },
        }
    }
}

/// After a successful spawn the supervised handle is populated with the
/// child's identifier, whatever it held before.
pub proof fn lemma_spawn_populates_handle(handle: Option<u64>, id: u64)
    ensures
        next_handle(handle, Event::SpawnSucceeded(id)) == Some(id),
{
}

/// After an exit request the handle is empty, and it stays empty whether the
/// subsequent kill attempt succeeded or failed.
pub proof fn lemma_shutdown_empties_handle(handle: Option<u64>, kill_ok: bool)
    ensures
        next_handle(handle, Event::ExitRequested) is None,
        next_handle(
            next_handle(handle, Event::ExitRequested),
            if kill_ok {
                Event::KillSucceeded
            } else {
                Event::KillFailed
            },
        ) is None,
{
}

/// While no spawn has succeeded, the handle stays empty: a supervisor that
/// never attempted a spawn holds no child for the whole process lifetime.
pub proof fn lemma_no_spawn_no_handle(handle: Option<u64>, event: Event)
    requires
        handle is None,
        !(event matches Event::SpawnSucceeded(_)),
    ensures
        next_handle(handle, event) is None,
{
}

} // verus!
