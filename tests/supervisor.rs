use sidecar_host::registry::ProcessRegistry;
use sidecar_host::supervisor::{
    Activation, LaunchStep, Phase, SpawnReport, StartupDecision, Supervisor, SupervisorError,
};

fn primary() -> Supervisor<u32> {
    let mut s = Supervisor::new();
    assert_eq!(s.on_startup(false), StartupDecision::BecomePrimary);
    s
}

#[test]
fn registry_set_then_take() {
    let mut r: ProcessRegistry<u32> = ProcessRegistry::new();
    assert!(r.is_empty());
    assert_eq!(r.len(), 0);
    assert_eq!(r.set(5), None);
    assert_eq!(r.len(), 1);
    assert_eq!(r.take(), Some(5));
    assert!(r.is_empty());
    assert_eq!(r.take(), None);
}

#[test]
fn registry_set_replaces_and_hands_back() {
    let mut r: ProcessRegistry<u32> = ProcessRegistry::new();
    assert_eq!(r.set(1), None);
    assert_eq!(r.set(2), Some(1));
    assert_eq!(r.len(), 1);
    assert_eq!(r.take(), Some(2));
}

#[test]
fn full_lifecycle_kills_once() {
    let mut s = primary();
    assert_eq!(s.on_sidecar_resolved(true), LaunchStep::Spawn);
    assert!(matches!(s.on_spawned(Some(42)), SpawnReport::Stored));
    assert_eq!(s.handle_count(), 1);
    assert_eq!(s.phase(), Phase::Running);
    assert_eq!(s.on_window_destroyed(), Some(42));
    assert_eq!(s.handle_count(), 0);
    assert_eq!(s.phase(), Phase::Terminating);
    assert_eq!(s.on_window_destroyed(), None);
    assert_eq!(s.handle_count(), 0);
}

#[test]
fn successful_spawn_holds_one_handle() {
    let mut s = primary();
    assert_eq!(s.handle_count(), 0);
    assert_eq!(s.on_sidecar_resolved(true), LaunchStep::Spawn);
    assert!(matches!(s.on_spawned(Some(7)), SpawnReport::Stored));
    assert_eq!(s.handle_count(), 1);
}

#[test]
fn destroy_drains_from_every_phase() {
    let mut starting: Supervisor<u32> = Supervisor::new();
    assert_eq!(starting.on_window_destroyed(), None);
    assert_eq!(starting.handle_count(), 0);

    let mut launching = primary();
    assert_eq!(launching.on_window_destroyed(), None);
    assert_eq!(launching.handle_count(), 0);

    let mut degraded = primary();
    assert!(matches!(
        degraded.on_sidecar_resolved(false),
        LaunchStep::Abandon(SupervisorError::ResolutionFailed)
    ));
    assert_eq!(degraded.on_window_destroyed(), None);
    assert_eq!(degraded.handle_count(), 0);

    let mut relayed: Supervisor<u32> = Supervisor::new();
    assert_eq!(relayed.on_startup(true), StartupDecision::RelayAndExit);
    assert_eq!(relayed.on_window_destroyed(), None);
    assert_eq!(relayed.handle_count(), 0);
}

#[test]
fn second_invocation_relays_and_focuses_first() {
    let mut first = primary();
    assert_eq!(first.on_sidecar_resolved(true), LaunchStep::Spawn);
    assert!(matches!(first.on_spawned(Some(1)), SpawnReport::Stored));

    let mut second: Supervisor<u32> = Supervisor::new();
    assert_eq!(second.on_startup(true), StartupDecision::RelayAndExit);
    assert_eq!(second.phase(), Phase::Relayed);
    assert_eq!(second.on_sidecar_resolved(true), LaunchStep::Skip);
    assert!(matches!(second.on_spawned(Some(2)), SpawnReport::Unexpected(Some(2))));
    assert_eq!(second.handle_count(), 0);
    assert_eq!(second.on_activation(true), Ok(Activation::Ignore));

    assert_eq!(first.on_activation(true), Ok(Activation::Focus));
    assert_eq!(first.handle_count() + second.handle_count(), 1);
}

#[test]
fn activation_without_window_is_focus_unavailable() {
    let s = primary();
    assert_eq!(s.on_activation(false), Err(SupervisorError::FocusUnavailable));
    assert_eq!(s.on_activation(true), Ok(Activation::Focus));
}

#[test]
fn resolution_failure_runs_degraded() {
    let mut s = primary();
    assert_eq!(
        s.on_sidecar_resolved(false),
        LaunchStep::Abandon(SupervisorError::ResolutionFailed)
    );
    assert_eq!(s.phase(), Phase::Running);
    assert_eq!(s.handle_count(), 0);
    assert_eq!(s.on_activation(true), Ok(Activation::Focus));
    assert!(matches!(s.on_spawned(Some(3)), SpawnReport::Unexpected(Some(3))));
    assert_eq!(s.handle_count(), 0);
}

#[test]
fn spawn_failure_runs_degraded() {
    let mut s = primary();
    assert_eq!(s.on_sidecar_resolved(true), LaunchStep::Spawn);
    assert!(matches!(
        s.on_spawned(None),
        SpawnReport::Failed(SupervisorError::SpawnFailed)
    ));
    assert_eq!(s.phase(), Phase::Running);
    assert_eq!(s.handle_count(), 0);
    assert_eq!(s.on_window_destroyed(), None);
}

#[test]
fn double_destroy_kills_at_most_once() {
    let mut s = primary();
    assert_eq!(s.on_sidecar_resolved(true), LaunchStep::Spawn);
    assert!(matches!(s.on_spawned(Some(9)), SpawnReport::Stored));
    let first = s.on_window_destroyed();
    let second = s.on_window_destroyed();
    assert_eq!(first, Some(9));
    assert_eq!(second, None);
    let kills = [first, second].iter().filter(|k| k.is_some()).count();
    assert_eq!(kills, 1);
}

#[test]
fn no_spawn_or_kill_after_termination() {
    let mut s = primary();
    assert_eq!(s.on_window_destroyed(), None);
    assert_eq!(s.on_sidecar_resolved(true), LaunchStep::Skip);
    assert!(matches!(s.on_spawned(Some(4)), SpawnReport::Unexpected(Some(4))));
    assert_eq!(s.handle_count(), 0);
    assert_eq!(s.on_window_destroyed(), None);
    assert_eq!(s.on_activation(true), Ok(Activation::Ignore));
}

#[test]
fn startup_decided_once() {
    let mut s = primary();
    assert_eq!(s.on_startup(true), StartupDecision::AlreadyDecided);
    assert_eq!(s.phase(), Phase::Launching);
}

#[test]
fn only_focus_unavailable_is_fatal() {
    assert!(!SupervisorError::ResolutionFailed.is_fatal());
    assert!(!SupervisorError::SpawnFailed.is_fatal());
    assert!(!SupervisorError::LockUnavailable.is_fatal());
    assert!(!SupervisorError::KillFailed.is_fatal());
    assert!(SupervisorError::FocusUnavailable.is_fatal());
}
