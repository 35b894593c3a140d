//! Escalating termination of a managed process.
//!
//! Teardown of an out-of-process service proceeds in phases: if the process
//! has already exited nothing is sent; otherwise a graceful signal is
//! delivered and the process is given a fixed grace period to exit on its
//! own; only when that period expires is the forceful signal delivered,
//! after which no further waiting happens. This module holds that state
//! machine; the runtime delivers the signals and performs the bounded wait,
//! feeding the observed outcome back in as events.

use vstd::prelude::*;

verus! {

/// The phase a managed process is in during teardown.
#[derive(Clone, Copy, Debug, PartialEq, Eq, Structural)]
pub enum ProcessPhase {
    /// The process is (as far as teardown knows) still running.
    Running,
    /// The graceful signal has been sent; the process is being given the
    /// grace period to exit on its own.
    TerminatingGracefully,
    /// The grace period expired; the forceful signal is being sent.
    TerminatingForcefully,
    /// The process no longer exists, or no further waiting is owed.
    Exited,
}

/// What teardown observed since the previous step.
#[derive(Clone, Copy, Debug, PartialEq, Eq, Structural)]
pub enum TerminationEvent {
    /// At the start of teardown, the process had already exited.
    AlreadyExited,
    /// At the start of teardown, the process was still running.
    StillRunning,
    /// The process exited within the grace period after the graceful signal.
    ExitedWithinGrace,
    /// The grace period elapsed and the process was still running.
    GraceExpired,
    /// The forceful signal has been delivered.
    ForcefulSent,
}

/// What the runtime must do next.
#[derive(Clone, Copy, Debug, PartialEq, Eq, Structural)]
pub enum TerminationAction {
    /// Deliver the graceful signal, then wait for the process to exit,
    /// bounded by the grace period, and report which of the two happened.
    SendGracefulSignal,
    /// Deliver the forceful signal and report once it has been sent; do not
    /// wait for the process afterwards.
    SendForcefulSignal,
    /// Teardown is complete; nothing remains to be done.
    Finished,
}

/// Which events a phase can observe.
pub open spec fn phase_accepts(phase: ProcessPhase, event: TerminationEvent) -> bool {
    match phase {
        ProcessPhase::Running => event == TerminationEvent::AlreadyExited || event
            == TerminationEvent::StillRunning,
        ProcessPhase::TerminatingGracefully => event == TerminationEvent::ExitedWithinGrace
            || event == TerminationEvent::GraceExpired,
        ProcessPhase::TerminatingForcefully => event == TerminationEvent::ForcefulSent,
        ProcessPhase::Exited => false,
    }
}

/// The teardown transition: the next phase and the action the runtime must
/// perform before reporting the next event.
pub open spec fn spec_termination_step(phase: ProcessPhase, event: TerminationEvent) -> (
    ProcessPhase,
    TerminationAction,
) {
    match (phase, event) {
        (ProcessPhase::Running, TerminationEvent::AlreadyExited) => (
            ProcessPhase::Exited,
            TerminationAction::Finished,
        ),
        (ProcessPhase::Running, TerminationEvent::StillRunning) => (
            ProcessPhase::TerminatingGracefully,
            TerminationAction::SendGracefulSignal,
        ),
        (ProcessPhase::TerminatingGracefully, TerminationEvent::ExitedWithinGrace) => (
            ProcessPhase::Exited,
            TerminationAction::Finished,
        ),
        (ProcessPhase::TerminatingGracefully, TerminationEvent::GraceExpired) => (
            ProcessPhase::TerminatingForcefully,
            TerminationAction::SendForcefulSignal,
        ),
        (ProcessPhase::TerminatingForcefully, TerminationEvent::ForcefulSent) => (
            ProcessPhase::Exited,
            TerminationAction::Finished,
        ),
        _ => (phase, TerminationAction::Finished),
    }
}

/// Performs one teardown step.
pub fn termination_step(phase: ProcessPhase, event: TerminationEvent) -> (r: (
    ProcessPhase,
    TerminationAction,
))
    requires
        phase_accepts(phase, event),
    ensures
        r == spec_termination_step(phase, event),
{
    match (phase, event) {
        (ProcessPhase::Running, TerminationEvent::AlreadyExited) => (
            ProcessPhase::Exited,
            TerminationAction::Finished,
        ),
        (ProcessPhase::Running, TerminationEvent::StillRunning) => (
            ProcessPhase::TerminatingGracefully,
            TerminationAction::SendGracefulSignal,
        ),
        (ProcessPhase::TerminatingGracefully, TerminationEvent::ExitedWithinGrace) => (
            ProcessPhase::Exited,
            TerminationAction::Finished,
        ),
        (ProcessPhase::TerminatingGracefully, TerminationEvent::GraceExpired) => (
            ProcessPhase::TerminatingForcefully,
            TerminationAction::SendForcefulSignal,
        ),
        (ProcessPhase::TerminatingForcefully, TerminationEvent::ForcefulSent) => (
            ProcessPhase::Exited,
            TerminationAction::Finished,
        ),
        (p, _) => (p, TerminationAction::Finished),
    }
}

/// How many teardown steps a phase can still take.
pub open spec fn phase_rank(phase: ProcessPhase) -> nat {
    match phase {
        ProcessPhase::Running => 3,
        ProcessPhase::TerminatingGracefully => 2,
        ProcessPhase::TerminatingForcefully => 1,
        ProcessPhase::Exited => 0,
    }
}

/// The phase reached after feeding `events` through the teardown machine.
pub open spec fn spec_termination_run(phase: ProcessPhase, events: Seq<TerminationEvent>)
    -> ProcessPhase
    decreases events.len(),
{
    if events.len() == 0 {
        phase
    } else {
        spec_termination_run(spec_termination_step(phase, events[0]).0, events.drop_first())
    }
}

/// The actions emitted while feeding `events` through the teardown machine.
pub open spec fn spec_termination_actions(phase: ProcessPhase, events: Seq<TerminationEvent>)
    -> Seq<TerminationAction>
    decreases events.len(),
{
    if events.len() == 0 {
        Seq::empty()
    } else {
        seq![spec_termination_step(phase, events[0]).1] + spec_termination_actions(
            spec_termination_step(phase, events[0]).0,
            events.drop_first(),
        )
    }
}

/// Whether every event in `events` is one its phase can observe.
pub open spec fn valid_termination_run(phase: ProcessPhase, events: Seq<TerminationEvent>) -> bool
    decreases events.len(),
{
    if events.len() == 0 {
        true
    } else {
        phase_accepts(phase, events[0]) && valid_termination_run(
            spec_termination_step(phase, events[0]).0,
            events.drop_first(),
        )
    }
}

/// Teardown always finishes quickly: every valid step strictly lowers the
/// phase's rank, so no teardown observes more than three events, and one
/// that observes as many events as its rank has reached `Exited`. From
/// `Running` this bounds the whole teardown by one grace period (the single
/// possible `SendGracefulSignal` wait) plus the two signal deliveries.
pub proof fn lemma_teardown_is_bounded(phase: ProcessPhase, events: Seq<TerminationEvent>)
    requires
        valid_termination_run(phase, events),
    ensures
        events.len() <= phase_rank(phase),
        phase_rank(spec_termination_run(phase, events)) <= phase_rank(phase) - events.len(),
        events.len() == phase_rank(phase) ==> spec_termination_run(phase, events)
            == ProcessPhase::Exited,
    decreases events.len(),
{
    if events.len() > 0 {
        let next = spec_termination_step(phase, events[0]).0;
        lemma_teardown_is_bounded(next, events.drop_first());
    }
}

/// A process that has already exited is never signalled: when teardown
/// begins with `AlreadyExited`, no graceful or forceful signal is ever sent
/// (signalling an exited process would be an error to swallow; here it
/// cannot arise at all).
pub proof fn lemma_exited_process_is_not_signalled(events: Seq<TerminationEvent>)
    requires
        valid_termination_run(ProcessPhase::Running, events),
        events.len() > 0,
        events[0] == TerminationEvent::AlreadyExited,
    ensures
        spec_termination_run(ProcessPhase::Running, events) == ProcessPhase::Exited,
        forall|i: int|
            0 <= i < events.len() ==> spec_termination_actions(ProcessPhase::Running, events)[i]
                == TerminationAction::Finished,
{
    let rest = events.drop_first();
    lemma_teardown_is_bounded(ProcessPhase::Exited, rest);
    assert(rest.len() == 0);
    assert(events.len() == 1);
}

/// One action is emitted per observed event.
pub proof fn lemma_one_action_per_event(phase: ProcessPhase, events: Seq<TerminationEvent>)
    ensures
        spec_termination_actions(phase, events).len() == events.len(),
    decreases events.len(),
{
    if events.len() > 0 {
        lemma_one_action_per_event(spec_termination_step(phase, events[0]).0, events.drop_first());
    }
}

/// The forceful signal is a last resort and is sent at most once: it is
/// only ever emitted in answer to the grace period expiring, and in a
/// teardown that begins with a running process it can only be the second
/// action, right after the graceful signal was sent.
pub proof fn lemma_forceful_signal_is_a_last_resort(
    phase: ProcessPhase,
    events: Seq<TerminationEvent>,
)
    requires
        valid_termination_run(phase, events),
    ensures
        forall|i: int|
            0 <= i < events.len() && spec_termination_actions(phase, events)[i]
                == TerminationAction::SendForcefulSignal ==> events[i]
                == TerminationEvent::GraceExpired,
        phase == ProcessPhase::Running ==> forall|i: int|
            0 <= i < events.len() && #[trigger] spec_termination_actions(phase, events)[i]
                == TerminationAction::SendForcefulSignal ==> i == 1 && events[0]
                == TerminationEvent::StillRunning && spec_termination_actions(phase, events)[0]
                == TerminationAction::SendGracefulSignal,
        phase == ProcessPhase::TerminatingGracefully ==> forall|i: int|
            0 <= i < events.len() && spec_termination_actions(phase, events)[i]
                == TerminationAction::SendForcefulSignal ==> i == 0,
        (phase == ProcessPhase::TerminatingForcefully || phase == ProcessPhase::Exited) ==> forall|
            i: int,
        |
            0 <= i < events.len() ==> spec_termination_actions(phase, events)[i]
                != TerminationAction::SendForcefulSignal,
        forall|i: int, j: int|
            0 <= i < events.len() && 0 <= j < events.len() && spec_termination_actions(
                phase,
                events,
            )[i] == TerminationAction::SendForcefulSignal && spec_termination_actions(
                phase,
                events,
            )[j] == TerminationAction::SendForcefulSignal ==> i == j,
    decreases events.len(),
{
    if events.len() > 0 {
        let next = spec_termination_step(phase, events[0]).0;
        let rest = events.drop_first();
        lemma_forceful_signal_is_a_last_resort(next, rest);
        lemma_one_action_per_event(phase, events);
        lemma_one_action_per_event(next, rest);
        assert forall|i: int| 1 <= i < events.len() implies spec_termination_actions(
            phase,
            events,
        )[i] == spec_termination_actions(next, rest)[i - 1] by {
            assert(spec_termination_actions(phase, events) == seq![
                spec_termination_step(phase, events[0]).1,
            ] + spec_termination_actions(next, rest));
        }
    }
}

} // verus!
