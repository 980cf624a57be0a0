use vstd::prelude::*;

use crate::registry::handle_count;
use crate::supervisor::{
    activation_result, destroy_step, resolve_step, spawn_step, startup_step, well_formed,
    Activation, Phase, SpawnReport, StartupDecision, SupervisorError, SupervisorView,
};

verus! {

/// An event the host reports to its supervisor.
pub enum Event<H> {
    Startup { other_running: bool },
    Resolved { found: bool },
    Spawned { handle: Option<H> },
    WindowDestroyed,
}

/// The state after one event.
pub open spec fn apply<H>(s: SupervisorView<H>, e: Event<H>) -> SupervisorView<H> {
    match e {
        Event::Startup { other_running } => startup_step(s, other_running).0,
        Event::Resolved { found } => resolve_step(s, found).0,
        Event::Spawned { handle } => spawn_step(s, handle).0,
        Event::WindowDestroyed => destroy_step(s).0,
    }
}

/// The state after a run of events, in order.
pub open spec fn run<H>(s: SupervisorView<H>, events: Seq<Event<H>>) -> SupervisorView<H>
    decreases events.len(),
{
    if events.len() == 0 {
        s
    } else {
        run(apply(s, events[0]), events.drop_first())
    }
}

/// Every event keeps the supervisor well formed.
pub proof fn lemma_apply_well_formed<H>(s: SupervisorView<H>, e: Event<H>)
    requires
        well_formed(s),
    ensures
        well_formed(apply(s, e)),
{
}

/// A successful spawn leaves exactly one handle in the registry.
pub proof fn lemma_spawn_stores_one<H>(s: SupervisorView<H>, h: H)
    requires
        s.phase == Phase::Launching,
    ensures
        spawn_step(s, Some(h)).1 is Stored,
        spawn_step(s, Some(h)).0.slot == Some(h),
        handle_count(spawn_step(s, Some(h)).0.slot) == 1,
{
}

/// Whatever the prior state, the registry is empty once the window is gone.
pub proof fn lemma_destroy_drains<H>(s: SupervisorView<H>)
    requires
        well_formed(s),
    ensures
        destroy_step(s).0.slot is None,
        handle_count(destroy_step(s).0.slot) == 0,
{
}

/// A second invocation while an instance is active relays and exits: it
/// starts no worker and no window whatever events follow, the active instance
/// keeps at most its one worker, and focuses its window.
pub proof fn lemma_second_instance_defers<H>(
    primary: SupervisorView<H>,
    secondary: SupervisorView<H>,
    events: Seq<Event<H>>,
)
    requires
        well_formed(primary),
        primary.phase == Phase::Launching || primary.phase == Phase::Running,
        well_formed(secondary),
        secondary.phase == Phase::Starting,
    ensures
        startup_step(secondary, true).1 == StartupDecision::RelayAndExit,
        run(startup_step(secondary, true).0, events).phase == Phase::Relayed,
        run(startup_step(secondary, true).0, events).slot is None,
        handle_count(primary.slot) + handle_count(
            run(startup_step(secondary, true).0, events).slot,
        ) <= 1,
        activation_result(primary.phase, true) == Ok::<Activation, SupervisorError>(
            Activation::Focus,
        ),
{
    lemma_spent_is_final(startup_step(secondary, true).0, events);
}

/// How many handles a run of events hands out for killing.
pub open spec fn kills<H>(s: SupervisorView<H>, events: Seq<Event<H>>) -> nat
    decreases events.len(),
{
    if events.len() == 0 {
        0
    } else {
        let here: nat = match events[0] {
            Event::WindowDestroyed => handle_count(destroy_step(s).1),
            _ => 0,
        };
        here + kills(apply(s, events[0]), events.drop_first())
    }
}

/// A terminating or relayed instance ignores every event and kills nothing.
pub proof fn lemma_spent_is_final<H>(s: SupervisorView<H>, events: Seq<Event<H>>)
    requires
        s.phase == Phase::Terminating || s.phase == Phase::Relayed,
    ensures
        run(s, events) == s,
        kills(s, events) == 0,
    decreases events.len(),
{
    if events.len() > 0 {
        lemma_spent_is_final(apply(s, events[0]), events.drop_first());
    }
}

/// However many window-destroyed events arrive, and whatever comes between
/// them, at most one handle is handed out for killing.
pub proof fn lemma_kills_at_most_once<H>(s: SupervisorView<H>, events: Seq<Event<H>>)
    requires
        well_formed(s),
    ensures
        kills(s, events) <= 1,
    decreases events.len(),
{
    if events.len() > 0 {
        let next = apply(s, events[0]);
        lemma_apply_well_formed(s, events[0]);
        if next.phase == Phase::Terminating || next.phase == Phase::Relayed {
            lemma_spent_is_final(next, events.drop_first());
        } else {
            lemma_kills_at_most_once(next, events.drop_first());
        }
    }
}

/// A failed lookup or spawn leaves the registry empty and the instance
/// running with its window.
pub proof fn lemma_launch_failure_degrades<H>(s: SupervisorView<H>)
    requires
        well_formed(s),
        s.phase == Phase::Launching,
    ensures
        resolve_step(s, false).0 == (SupervisorView::<H> { phase: Phase::Running, slot: None }),
        resolve_step(s, false).1 == crate::supervisor::LaunchStep::Abandon(
            SupervisorError::ResolutionFailed,
        ),
        spawn_step(s, None).0 == (SupervisorView::<H> { phase: Phase::Running, slot: None }),
        spawn_step(s, None).1 == SpawnReport::<H>::Failed(SupervisorError::SpawnFailed),
{
}

/// Two window-destroyed events in a row hand out a handle for killing at
/// most once, and the second changes nothing.
pub proof fn lemma_double_destroy_kills_once<H>(s: SupervisorView<H>)
    ensures
        destroy_step(destroy_step(s).0).1 is None,
        destroy_step(destroy_step(s).0).0 == destroy_step(s).0,
        handle_count(destroy_step(s).1) + handle_count(destroy_step(destroy_step(s).0).1) <= 1,
{
}

} // verus!
