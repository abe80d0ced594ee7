//! The uniform instance lifecycle both execution backends present.
//!
//! The in-process backend walks these phases inline: `create_instance`
//! performs `Compiled -> Building -> Ready`, and every `tick` is one
//! `Ready -> Ticking -> Ready` cycle. The browser backend is asynchronous:
//! instantiation resolves later through a callback, and until it does the
//! instance sits in `Pending`, where any number of ticks may arrive and each
//! must be a safe no-op that returns no events rather than block the caller.
//! The driver that owns the callback machinery performs exactly these
//! transitions; the decisions themselves are here, as plain state.

use vstd::prelude::*;

verus! {

/// Where a module instance stands in its life.
#[derive(Clone, Copy, Debug, PartialEq, Eq, Structural)]
pub enum Phase {
    /// Asynchronous backend only: instantiation was requested and has not
    /// resolved yet. Ticks are safe no-ops here.
    Pending,
    /// The bytecode compiled; `build_app` has not run.
    Compiled,
    /// The one-time `build_app` call is in flight.
    Building,
    /// Registered for ticking.
    Ready,
    /// The guest's `update` export is in flight.
    Ticking,
    /// `build_app` trapped or a required export was missing: the instance was
    /// never registered and will not run.
    Failed,
    /// The owning entity was removed; terminal.
    Disposed,
}

/// What happened to an instance.
#[derive(Clone, Copy, Debug, PartialEq, Eq, Structural)]
pub enum Event {
    /// Asynchronous instantiation resolved with a live instance.
    Resolved,
    /// Asynchronous instantiation failed.
    ResolveFailed,
    /// The host started the one-time `build_app` call.
    BuildStarted,
    /// `build_app` returned without trapping.
    BuildReturned,
    /// `build_app` trapped.
    BuildTrapped,
    /// The host started an `update` call.
    TickStarted,
    /// `update` returned without trapping.
    TickReturned,
    /// `update` trapped: recovered locally, the instance stays tickable.
    TickTrapped,
    /// The owning entity was removed.
    Disposed,
}

/// The lifecycle transition relation. Everything not listed leaves the phase
/// alone; `Disposed` absorbs every event.
pub open spec fn spec_step(phase: Phase, event: Event) -> Phase {
    if event == Event::Disposed {
        Phase::Disposed
    } else {
        match phase {
            Phase::Pending => match event {
                Event::Resolved => Phase::Compiled,
                Event::ResolveFailed => Phase::Failed,
                _ => Phase::Pending,
            },
            Phase::Compiled => match event {
                Event::BuildStarted => Phase::Building,
                _ => Phase::Compiled,
            },
            Phase::Building => match event {
                Event::BuildReturned => Phase::Ready,
                Event::BuildTrapped => Phase::Failed,
                _ => Phase::Building,
            },
            Phase::Ready => match event {
                Event::TickStarted => Phase::Ticking,
                _ => Phase::Ready,
            },
            Phase::Ticking => match event {
                Event::TickReturned => Phase::Ready,
                Event::TickTrapped => Phase::Ready,
                _ => Phase::Ticking,
            },
            Phase::Failed => Phase::Failed,
            Phase::Disposed => Phase::Disposed,
        }
    }
}

/// Advance the lifecycle by one observed event.
pub fn step(phase: Phase, event: Event) -> (r: Phase)
    ensures
        r == spec_step(phase, event),
{
    if matches!(event, Event::Disposed) {
        return Phase::Disposed;
    }
    match phase {
        Phase::Pending => match event {
            Event::Resolved => Phase::Compiled,
            Event::ResolveFailed => Phase::Failed,
            _ => Phase::Pending,
        },
        Phase::Compiled => match event {
            Event::BuildStarted => Phase::Building,
            _ => Phase::Compiled,
        },
        Phase::Building => match event {
            Event::BuildReturned => Phase::Ready,
            Event::BuildTrapped => Phase::Failed,
            _ => Phase::Building,
        },
        Phase::Ready => match event {
            Event::TickStarted => Phase::Ticking,
            _ => Phase::Ready,
        },
        Phase::Ticking => match event {
            Event::TickReturned => Phase::Ready,
            Event::TickTrapped => Phase::Ready,
            _ => Phase::Ticking,
        },
        Phase::Failed => Phase::Failed,
        Phase::Disposed => Phase::Disposed,
    }
}

/// May the driver run the guest's `update` for this instance now?
/// Exactly in `Ready` — never before asynchronous resolution, never after a
/// failed build, never after disposal. A tick arriving in any other phase is
/// a no-op that returns no events.
pub fn update_permitted(phase: Phase) -> (r: bool)
    ensures
        r <==> phase == Phase::Ready,
{
    matches!(phase, Phase::Ready)
}

/// A tick that traps is recovered locally: however an `update` call ends, the
/// instance is back in `Ready` and stays tickable.
pub proof fn lemma_trap_is_recoverable()
    ensures
        spec_step(Phase::Ticking, Event::TickTrapped) == Phase::Ready,
        spec_step(Phase::Ticking, Event::TickReturned) == Phase::Ready,
{
}

/// Before asynchronous instantiation resolves, any number of ticks may
/// arrive: none of them moves the instance, so each is a safe no-op.
pub proof fn lemma_tick_before_ready_is_noop()
    ensures
        spec_step(Phase::Pending, Event::TickStarted) == Phase::Pending,
        spec_step(Phase::Pending, Event::TickReturned) == Phase::Pending,
        spec_step(Phase::Pending, Event::TickTrapped) == Phase::Pending,
{
}

/// Disposal is terminal and atomic: no event revives a disposed instance.
pub proof fn lemma_disposed_is_terminal(e: Event)
    ensures
        spec_step(Phase::Disposed, e) == Phase::Disposed,
{
}

} // verus!
