use vstd::prelude::*;

use crate::registry::{handle_count, ProcessRegistry};

verus! {

/// Where the host stands in its lifetime.
#[derive(PartialEq, Eq, Structural, Clone, Copy, Debug)]
pub enum Phase {
    /// Not yet known whether another instance is running.
    Starting,
    /// The active instance, with its worker launch under way.
    Launching,
    /// The active instance with its window up, with or without a worker.
    Running,
    /// The main window is gone; the worker has been handed out for killing.
    Terminating,
    /// Another instance was active: this one relays its invocation and exits.
    Relayed,
}

/// The failures the supervisor knows of.
#[derive(PartialEq, Eq, Structural, Clone, Copy, Debug)]
pub enum SupervisorError {
    /// The worker executable or its configuration could not be found.
    ResolutionFailed,
    /// The operating system refused to start the worker.
    SpawnFailed,
    /// The lock round the supervisor was poisoned.
    LockUnavailable,
    /// Sending the kill signal to the worker failed.
    KillFailed,
    /// The active instance could not find its own main window.
    FocusUnavailable,
}

impl SupervisorError {
    /// Whether the error halts the code path that met it. Every other error
    /// is logged and absorbed where it arose.
    pub fn is_fatal(&self) -> (r: bool)
        ensures
            r == (*self == SupervisorError::FocusUnavailable),
    {
        match self {
            SupervisorError::FocusUnavailable => true,
            _ => false,
        }
    }
}

/// What the host does at startup.
#[derive(PartialEq, Eq, Structural, Clone, Copy, Debug)]
pub enum StartupDecision {
    /// Become the active instance and launch the worker.
    BecomePrimary,
    /// Relay the invocation to the active instance and exit, with no worker
    /// and no window.
    RelayAndExit,
    /// The decision was already taken; nothing to do.
    AlreadyDecided,
}

/// What the host does once the worker executable was looked up.
#[derive(PartialEq, Eq, Structural, Clone, Copy, Debug)]
pub enum LaunchStep {
    /// Spawn the resolved executable.
    Spawn,
    /// Give up on the worker and run without it.
    Abandon(SupervisorError),
    /// No launch is under way; nothing to do.
    Skip,
}

/// What became of a spawned worker.
pub enum SpawnReport<H> {
    /// The handle is now held by the registry.
    Stored,
    /// Spawning failed; the host runs without a worker.
    Failed(SupervisorError),
    /// No launch was under way: the handle, if any, is handed back untouched.
    Unexpected(Option<H>),
}

/// What the active instance does when a later invocation asks for it.
#[derive(PartialEq, Eq, Structural, Clone, Copy, Debug)]
pub enum Activation {
    /// Bring the main window to the foreground.
    Focus,
    /// This instance has no window to offer; nothing to do.
    Ignore,
}

/// The abstract state of a supervisor.
pub struct SupervisorView<H> {
    pub phase: Phase,
    pub slot: Option<H>,
}

/// A handle is held only while the instance runs.
pub open spec fn well_formed<H>(s: SupervisorView<H>) -> bool {
    s.slot is Some ==> s.phase == Phase::Running
}

/// Whether this instance is the active one and still has its window.
pub open spec fn owns_window(p: Phase) -> bool {
    p == Phase::Launching || p == Phase::Running
}

pub open spec fn startup_step<H>(s: SupervisorView<H>, other_running: bool) -> (
    SupervisorView<H>,
    StartupDecision,
) {
    if s.phase != Phase::Starting {
        (s, StartupDecision::AlreadyDecided)
    } else if other_running {
        (SupervisorView { phase: Phase::Relayed, slot: s.slot }, StartupDecision::RelayAndExit)
    } else {
        (SupervisorView { phase: Phase::Launching, slot: s.slot }, StartupDecision::BecomePrimary)
    }
}

pub open spec fn resolve_step<H>(s: SupervisorView<H>, found: bool) -> (
    SupervisorView<H>,
    LaunchStep,
) {
    if s.phase != Phase::Launching {
        (s, LaunchStep::Skip)
    } else if found {
        (s, LaunchStep::Spawn)
    } else {
        (
            SupervisorView { phase: Phase::Running, slot: s.slot },
            LaunchStep::Abandon(SupervisorError::ResolutionFailed),
        )
    }
}

pub open spec fn spawn_step<H>(s: SupervisorView<H>, spawned: Option<H>) -> (
    SupervisorView<H>,
    SpawnReport<H>,
) {
    if s.phase != Phase::Launching {
        (s, SpawnReport::Unexpected(spawned))
    } else {
        match spawned {
            Some(h) => (SupervisorView { phase: Phase::Running, slot: Some(h) }, SpawnReport::Stored),
            None => (
                SupervisorView { phase: Phase::Running, slot: s.slot },
                SpawnReport::Failed(SupervisorError::SpawnFailed),
            ),
        }
    }
}

/// The window-destroyed transition: the held handle, if any, leaves for
/// killing, once.
pub open spec fn destroy_step<H>(s: SupervisorView<H>) -> (SupervisorView<H>, Option<H>) {
    if s.phase == Phase::Terminating || s.phase == Phase::Relayed {
        (s, None)
    } else {
        (SupervisorView { phase: Phase::Terminating, slot: None }, s.slot)
    }
}

pub open spec fn activation_result(p: Phase, window_found: bool) -> Result<
    Activation,
    SupervisorError,
> {
    if !owns_window(p) {
        Ok(Activation::Ignore)
    } else if window_found {
        Ok(Activation::Focus)
    } else {
        Err(SupervisorError::FocusUnavailable)
    }
}

/// Supervises one worker process over the lifetime of the host.
pub struct Supervisor<H> {
    registry: ProcessRegistry<H>,
    phase: Phase,
}

impl<H> View for Supervisor<H> {
    type V = SupervisorView<H>;

    closed spec fn view(&self) -> SupervisorView<H> {
        SupervisorView { phase: self.phase, slot: self.registry@ }
    }
}

impl<H> Supervisor<H> {
    /// A supervisor before the single-instance check, holding no handle.
    pub fn new() -> (r: Self)
        ensures
            r@ == (SupervisorView::<H> { phase: Phase::Starting, slot: None }),
            well_formed(r@),
    {
        Supervisor { registry: ProcessRegistry::new(), phase: Phase::Starting }
    }

    /// Takes the startup decision from whether another instance is running.
    pub fn on_startup(&mut self, other_running: bool) -> (r: StartupDecision)
        requires
            well_formed(old(self)@),
        ensures
            (final(self)@, r) == startup_step(old(self)@, other_running),
            well_formed(final(self)@),
    {
        if self.phase != Phase::Starting {
            StartupDecision::AlreadyDecided
        } else if other_running {
            self.phase = Phase::Relayed;
            StartupDecision::RelayAndExit
        } else {
            self.phase = Phase::Launching;
            StartupDecision::BecomePrimary
        }
    }

    /// Takes the outcome of looking up the worker executable.
    pub fn on_sidecar_resolved(&mut self, found: bool) -> (r: LaunchStep)
        requires
            well_formed(old(self)@),
        ensures
            (final(self)@, r) == resolve_step(old(self)@, found),
            well_formed(final(self)@),
    {
        if self.phase != Phase::Launching {
            LaunchStep::Skip
        } else if found {
            LaunchStep::Spawn
        } else {
            self.phase = Phase::Running;
            LaunchStep::Abandon(SupervisorError::ResolutionFailed)
        }
    }

    /// Takes the outcome of spawning the worker: its handle, or `None` where
    /// spawning failed.
    pub fn on_spawned(&mut self, spawned: Option<H>) -> (r: SpawnReport<H>)
        requires
            well_formed(old(self)@),
        ensures
            (final(self)@, r) == spawn_step(old(self)@, spawned),
            r is Stored ==> handle_count(final(self)@.slot) == 1,
            well_formed(final(self)@),
    {
        if self.phase != Phase::Launching {
            return SpawnReport::Unexpected(spawned);
        }
        self.phase = Phase::Running;
        match spawned {
            Some(h) => {
                let _ = self.registry.set(h);
                SpawnReport::Stored
            },
            None => SpawnReport::Failed(SupervisorError::SpawnFailed),
        }
    }

    /// Takes the destruction of the main window, and hands out the worker's
    /// handle for killing, at most once over the supervisor's lifetime.
    pub fn on_window_destroyed(&mut self) -> (r: Option<H>)
        requires
            well_formed(old(self)@),
        ensures
            (final(self)@, r) == destroy_step(old(self)@),
            final(self)@.slot is None,
            well_formed(final(self)@),
    {
        if self.phase == Phase::Terminating || self.phase == Phase::Relayed {
            return None;
        }
        self.phase = Phase::Terminating;
        self.registry.take()
    }

    /// Answers a later invocation that asks the active instance to show its
    /// window; `window_found` tells whether the host found its main window.
    pub fn on_activation(&self, window_found: bool) -> (r: Result<Activation, SupervisorError>)
        ensures
            r == activation_result(self@.phase, window_found),
    {
        if !(self.phase == Phase::Launching || self.phase == Phase::Running) {
            Ok(Activation::Ignore)
        } else if window_found {
            Ok(Activation::Focus)
        } else {
            Err(SupervisorError::FocusUnavailable)
        }
    }

    /// The current phase.
    pub fn phase(&self) -> (r: Phase)
        ensures
            r == self@.phase,
    {
        self.phase
    }

    /// How many worker handles are held: zero or one.
    pub fn handle_count(&self) -> (r: usize)
        ensures
            r as nat == handle_count(self@.slot),
    {
        self.registry.len()
    }
}

} // verus!
