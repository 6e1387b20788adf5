use lumo_supervisor::config::build_config;
use lumo_supervisor::supervisor::{level, Action, Event, LogEvent, LogLevel, Supervisor};

#[test]
fn log_levels() {
    assert_eq!(level(LogEvent::DataDirFallback), LogLevel::Warn);
    assert_eq!(level(LogEvent::SidecarSkipped), LogLevel::Info);
    assert_eq!(level(LogEvent::SidecarStarted), LogLevel::Info);
    assert_eq!(level(LogEvent::SidecarUnavailable), LogLevel::Error);
    assert_eq!(level(LogEvent::SidecarSpawnFailed), LogLevel::Error);
    assert_eq!(level(LogEvent::SidecarStopped), LogLevel::Info);
    assert_eq!(level(LogEvent::SidecarKillFailed), LogLevel::Error);
}

#[test]
fn successful_lifecycle_spawn_then_shutdown() {
    let mut s = Supervisor::new();
    assert_eq!(s.current_handle(), None);

    let config = build_config(Some("/data/app".to_string()), None, false, false);
    let t = s.step(Event::Started(config));
    assert_eq!(t.action, Action::SpawnSidecar("/data/app/lumo.db".to_string()));
    assert_eq!(t.logs, vec![]);

    let t = s.step(Event::SpawnSucceeded(42));
    assert_eq!(s.current_handle(), Some(42));
    assert_eq!(t.action, Action::NoAction);
    assert_eq!(t.logs, vec![LogEvent::SidecarStarted]);

    let t = s.step(Event::ExitRequested);
    assert_eq!(t.action, Action::KillSidecar(42));
    assert_eq!(s.current_handle(), None);
    assert_eq!(t.logs, vec![]);

    let t = s.step(Event::KillSucceeded);
    assert_eq!(s.current_handle(), None);
    assert_eq!(t.logs, vec![LogEvent::SidecarStopped]);
}

#[test]
fn handle_is_empty_after_shutdown_even_when_kill_fails() {
    let mut s = Supervisor::new();
    s.step(Event::SpawnSucceeded(7));
    assert_eq!(s.current_handle(), Some(7));

    let t = s.step(Event::ExitRequested);
    assert_eq!(t.action, Action::KillSidecar(7));
    assert_eq!(s.current_handle(), None);

    let t = s.step(Event::KillFailed);
    assert_eq!(s.current_handle(), None);
    assert_eq!(t.logs, vec![LogEvent::SidecarKillFailed]);
    assert_eq!(level(t.logs[0]), LogLevel::Error);
}

#[test]
fn shutdown_without_spawn_is_a_silent_noop() {
    let mut s = Supervisor::new();
    let t = s.step(Event::ExitRequested);
    assert_eq!(t.action, Action::NoAction);
    assert_eq!(t.logs, vec![]);
    assert_eq!(s.current_handle(), None);

    let mut s = Supervisor::new();
    assert_eq!(s.shutdown(), None);
    assert_eq!(s.current_handle(), None);
}

#[test]
fn debug_build_without_override_never_spawns() {
    let mut s = Supervisor::new();
    let config = build_config(Some("/data/app".to_string()), None, true, false);
    assert!(!config.should_spawn);

    let t = s.step(Event::Started(config));
    assert_eq!(t.action, Action::NoAction);
    assert_eq!(t.logs, vec![LogEvent::SidecarSkipped]);
    assert_eq!(s.current_handle(), None);

    let t = s.step(Event::ExitRequested);
    assert_eq!(t.action, Action::NoAction);
    assert_eq!(t.logs, vec![]);
    assert_eq!(s.current_handle(), None);
}

#[test]
fn spawn_failure_logs_one_error_and_leaves_handle_empty() {
    let mut s = Supervisor::new();
    let config = build_config(Some("/data/app".to_string()), None, false, false);
    let t = s.step(Event::Started(config));
    assert!(matches!(t.action, Action::SpawnSidecar(_)));

    let t = s.step(Event::SpawnFailed);
    assert_eq!(s.current_handle(), None);
    assert_eq!(t.logs.len(), 1);
    assert_eq!(t.logs, vec![LogEvent::SidecarSpawnFailed]);
    assert_eq!(level(t.logs[0]), LogLevel::Error);
    assert_eq!(t.action, Action::NoAction);

    // The application keeps running and later exits without a kill.
    let t = s.step(Event::ExitRequested);
    assert_eq!(t.action, Action::NoAction);
    assert_eq!(t.logs, vec![]);
}

#[test]
fn missing_spawn_capability_logs_one_error() {
    let mut s = Supervisor::new();
    let t = s.step(Event::SpawnUnavailable);
    assert_eq!(s.current_handle(), None);
    assert_eq!(t.logs, vec![LogEvent::SidecarUnavailable]);
    assert_eq!(level(t.logs[0]), LogLevel::Error);
    assert_eq!(t.action, Action::NoAction);
}

#[test]
fn fallback_directory_is_logged_as_a_warning() {
    let mut s = Supervisor::new();
    let config = build_config(None, Some("/home/user".to_string()), false, false);
    let t = s.step(Event::Started(config));
    assert_eq!(t.logs, vec![LogEvent::DataDirFallback]);
    assert_eq!(level(t.logs[0]), LogLevel::Warn);
    assert_eq!(t.action, Action::SpawnSidecar("/home/user/.lumo/lumo.db".to_string()));
}

#[test]
fn fallback_warning_precedes_skip_notice() {
    let mut s = Supervisor::new();
    let config = build_config(None, None, true, false);
    let t = s.step(Event::Started(config));
    assert_eq!(t.logs, vec![LogEvent::DataDirFallback, LogEvent::SidecarSkipped]);
    assert_eq!(t.action, Action::NoAction);
}

#[test]
fn record_spawn_populates_the_handle() {
    let mut s = Supervisor::new();
    s.record_spawn(9);
    assert_eq!(s.current_handle(), Some(9));
    assert_eq!(s.shutdown(), Some(9));
    assert_eq!(s.current_handle(), None);
}
