//! Supervision of an out-of-process example service.
//!
//! Starting such a service goes through fixed stages: build the binary,
//! bind an ephemeral port to discover a free one, spawn the process with
//! the port and environment injected, then pass two readiness gates in
//! order — a raw TCP connect to the port, and a successful `GET /health` —
//! each bounded by a timeout. The caller gets a handle only once both
//! gates have passed; a failure at any stage aborts the sequence with an
//! error naming it.
//!
//! This module holds the start sequence's state machine and the handle
//! type. The runtime builds, spawns, probes and sleeps, feeding what it
//! observed back in as events and performing the actions handed back.

use vstd::prelude::*;
use vstd::string::StringExecFns;

use crate::address::{decimal_seq, format_decimal, http_url_view, http_url, SocketAddress};
use crate::termination::{
    phase_accepts, spec_termination_step, termination_step, ProcessPhase, TerminationAction,
    TerminationEvent,
};

verus! {

/// The readiness gates a started service must pass, in this order.
#[derive(Clone, Copy, Debug, PartialEq, Eq, Structural)]
pub enum ReadinessGate {
    /// A raw TCP connect to the service's port succeeds.
    Port,
    /// `GET /health` against the service returns a success status.
    Health,
}

/// Why starting a service failed.
#[derive(Debug, PartialEq, Eq)]
pub enum StartError {
    /// The build of the service's binary failed; nothing was bound or
    /// spawned.
    BuildFailed,
    /// No ephemeral port could be bound to discover a free one.
    PortDiscoveryFailed,
    /// The service's process could not be spawned.
    SpawnFailed,
    /// A readiness gate did not pass within its timeout.
    GaveUpWaiting { gate: ReadinessGate, address: SocketAddress },
}

/// What a readiness gate was waiting for, as written in the gave-up error.
pub open spec fn gate_description(gate: ReadinessGate, address: SocketAddress) -> Seq<char> {
    match gate {
        ReadinessGate::Port => "opening "@ + address.text_view(),
        ReadinessGate::Health => "checking for health of "@ + address.text_view(),
    }
}

impl StartError {
    /// The error's message.
    pub open spec fn message_view(self) -> Seq<char> {
        match self {
            StartError::BuildFailed => "Failed to build the service"@,
            StartError::PortDiscoveryFailed => "Failed to find a free port"@,
            StartError::SpawnFailed => "Failed to spawn the service"@,
            StartError::GaveUpWaiting { gate, address } => "Gave up waiting: "@
                + gate_description(gate, address),
        }
    }

    /// Writes the error's message out.
    pub fn message(&self) -> (m: String)
        ensures
            m@ == self.message_view(),
    {
        match self {
            StartError::BuildFailed => "Failed to build the service".to_owned(),
            StartError::PortDiscoveryFailed => "Failed to find a free port".to_owned(),
            StartError::SpawnFailed => "Failed to spawn the service".to_owned(),
            StartError::GaveUpWaiting { gate, address } => {
                let mut m = "Gave up waiting: ".to_owned();
                match gate {
                    ReadinessGate::Port => m.append("opening "),
                    ReadinessGate::Health => m.append("checking for health of "),
                }
                let text = address.to_text();
                m.append(text.as_str());
                m
            },
        }
    }
}

/// Where the start sequence stands.
#[derive(Debug, PartialEq, Eq)]
pub enum StartState {
    /// The service's binary is being built.
    Building,
    /// An ephemeral listener is being bound to discover a free port.
    DiscoveringPort,
    /// The process is being spawned on the discovered address.
    Spawning { address: SocketAddress },
    /// Waiting for a TCP connect to the address to succeed.
    AwaitingPort { address: SocketAddress },
    /// Waiting for `GET /health` to return a success status.
    AwaitingHealth { address: SocketAddress },
    /// Both gates passed; the service may be handed to the caller.
    Ready { address: SocketAddress },
    /// The start sequence failed; no further action is taken.
    Failed { error: StartError },
}

/// What the runtime observed since the previous step.
#[derive(Debug, PartialEq, Eq)]
pub enum StartEvent {
    /// The build finished, successfully or not.
    BuildFinished { success: bool },
    /// Port discovery finished, with the assigned address on success.
    PortDiscovered { address: Option<SocketAddress> },
    /// The spawn attempt finished, successfully or not.
    SpawnFinished { success: bool },
    /// One TCP connect probe finished; `timed_out` reports whether the port
    /// gate's overall timeout has elapsed.
    PortProbe { connected: bool, timed_out: bool },
    /// One health probe finished; `timed_out` reports whether the health
    /// gate's overall timeout has elapsed.
    HealthProbe { healthy: bool, timed_out: bool },
}

/// What the runtime must do next. The address and environment each action
/// needs are those of the state the machine is in.
#[derive(Clone, Copy, Debug, PartialEq, Eq, Structural)]
pub enum StartAction {
    /// Build the service's binary.
    RunBuild,
    /// Bind a listener on port zero and read back the assigned address.
    BindEphemeralPort,
    /// Spawn the process with the discovered port and environment injected.
    SpawnProcess,
    /// Attempt a raw TCP connect to the service's address.
    ProbePort,
    /// Issue `GET /health` against the service.
    ProbeHealth,
    /// Nothing remains to be done.
    Idle,
}

/// The start sequence's transition: the next state, and the action the
/// runtime must perform before reporting the next event. A probe that
/// neither succeeded nor ran out of time is simply retried; success is
/// preferred when a probe succeeds just as its timeout elapses. An event
/// that its state cannot observe changes nothing.
pub open spec fn spec_start_step(state: StartState, event: StartEvent) -> (StartState, StartAction) {
    match (state, event) {
        (StartState::Building, StartEvent::BuildFinished { success }) => {
            if success {
                (StartState::DiscoveringPort, StartAction::BindEphemeralPort)
            } else {
                (StartState::Failed { error: StartError::BuildFailed }, StartAction::Idle)
            }
        },
        (StartState::DiscoveringPort, StartEvent::PortDiscovered { address }) => {
            match address {
                Some(address) => (StartState::Spawning { address }, StartAction::SpawnProcess),
                None => (
                    StartState::Failed { error: StartError::PortDiscoveryFailed },
                    StartAction::Idle,
                ),
            }
        },
        (StartState::Spawning { address }, StartEvent::SpawnFinished { success }) => {
            if success {
                (StartState::AwaitingPort { address }, StartAction::ProbePort)
            } else {
                (StartState::Failed { error: StartError::SpawnFailed }, StartAction::Idle)
            }
        },
        (StartState::AwaitingPort { address }, StartEvent::PortProbe { connected, timed_out }) => {
            if connected {
                (StartState::AwaitingHealth { address }, StartAction::ProbeHealth)
            } else if timed_out {
                (
                    StartState::Failed {
                        error: StartError::GaveUpWaiting { gate: ReadinessGate::Port, address },
                    },
                    StartAction::Idle,
                )
            } else {
                (StartState::AwaitingPort { address }, StartAction::ProbePort)
            }
        },
        (StartState::AwaitingHealth { address }, StartEvent::HealthProbe { healthy, timed_out }) => {
            if healthy {
                (StartState::Ready { address }, StartAction::Idle)
            } else if timed_out {
                (
                    StartState::Failed {
                        error: StartError::GaveUpWaiting { gate: ReadinessGate::Health, address },
                    },
                    StartAction::Idle,
                )
            } else {
                (StartState::AwaitingHealth { address }, StartAction::ProbeHealth)
            }
        },
        (state, _) => (state, StartAction::Idle),
    }
}

/// Performs one step of the start sequence.
pub fn start_step(state: StartState, event: StartEvent) -> (r: (StartState, StartAction))
    ensures
        r == spec_start_step(state, event),
{
    match (state, event) {
        (StartState::Building, StartEvent::BuildFinished { success }) => {
            if success {
                (StartState::DiscoveringPort, StartAction::BindEphemeralPort)
            } else {
                (StartState::Failed { error: StartError::BuildFailed }, StartAction::Idle)
            }
        },
        (StartState::DiscoveringPort, StartEvent::PortDiscovered { address }) => {
            match address {
                Some(address) => (StartState::Spawning { address }, StartAction::SpawnProcess),
                None => (
                    StartState::Failed { error: StartError::PortDiscoveryFailed },
                    StartAction::Idle,
                ),
            }
        },
        (StartState::Spawning { address }, StartEvent::SpawnFinished { success }) => {
            if success {
                (StartState::AwaitingPort { address }, StartAction::ProbePort)
            } else {
                (StartState::Failed { error: StartError::SpawnFailed }, StartAction::Idle)
            }
        },
        (StartState::AwaitingPort { address }, StartEvent::PortProbe { connected, timed_out }) => {
            if connected {
                (StartState::AwaitingHealth { address }, StartAction::ProbeHealth)
            } else if timed_out {
                (
                    StartState::Failed {
                        error: StartError::GaveUpWaiting { gate: ReadinessGate::Port, address },
                    },
                    StartAction::Idle,
                )
            } else {
                (StartState::AwaitingPort { address }, StartAction::ProbePort)
            }
        },
        (StartState::AwaitingHealth { address }, StartEvent::HealthProbe { healthy, timed_out }) => {
            if healthy {
                (StartState::Ready { address }, StartAction::Idle)
            } else if timed_out {
                (
                    StartState::Failed {
                        error: StartError::GaveUpWaiting { gate: ReadinessGate::Health, address },
                    },
                    StartAction::Idle,
                )
            } else {
                (StartState::AwaitingHealth { address }, StartAction::ProbeHealth)
            }
        },
        (state, _) => (state, StartAction::Idle),
    }
}

/// The state reached after feeding `events` through the start sequence.
pub open spec fn spec_start_run(state: StartState, events: Seq<StartEvent>) -> StartState
    decreases events.len(),
{
    if events.len() == 0 {
        state
    } else {
        spec_start_run(spec_start_step(state, events[0]).0, events.drop_first())
    }
}

/// The actions emitted while feeding `events` through the start sequence.
pub open spec fn spec_start_actions(state: StartState, events: Seq<StartEvent>) -> Seq<StartAction>
    decreases events.len(),
{
    if events.len() == 0 {
        Seq::empty()
    } else {
        seq![spec_start_step(state, events[0]).1] + spec_start_actions(
            spec_start_step(state, events[0]).0,
            events.drop_first(),
        )
    }
}

/// One action is emitted per observed event.
pub proof fn lemma_one_start_action_per_event(state: StartState, events: Seq<StartEvent>)
    ensures
        spec_start_actions(state, events).len() == events.len(),
    decreases events.len(),
{
    if events.len() > 0 {
        lemma_one_start_action_per_event(spec_start_step(state, events[0]).0, events.drop_first());
    }
}

/// A failed start sequence is over: no later event changes the error, and
/// no further action is asked of the runtime.
pub proof fn lemma_failed_start_is_terminal(error: StartError, events: Seq<StartEvent>)
    ensures
        spec_start_run(StartState::Failed { error }, events) == (StartState::Failed { error }),
        spec_start_actions(StartState::Failed { error }, events).len() == events.len(),
        forall|i: int|
            0 <= i < events.len() ==> spec_start_actions(StartState::Failed { error }, events)[i]
                == StartAction::Idle,
    decreases events.len(),
{
    if events.len() > 0 {
        lemma_failed_start_is_terminal(error, events.drop_first());
    }
}

/// When the build fails, the start sequence reports exactly that error, and
/// the runtime is never asked to bind a listener or spawn a process — no
/// resource is left live.
pub proof fn lemma_failed_build_leaves_nothing_behind(events: Seq<StartEvent>)
    requires
        events.len() > 0,
        events[0] == (StartEvent::BuildFinished { success: false }),
    ensures
        spec_start_run(StartState::Building, events) == (StartState::Failed {
            error: StartError::BuildFailed,
        }),
        forall|i: int|
            0 <= i < events.len() ==> spec_start_actions(StartState::Building, events)[i]
                == StartAction::Idle,
{
    lemma_failed_start_is_terminal(StartError::BuildFailed, events.drop_first());
    lemma_one_start_action_per_event(StartState::Building, events);
    assert forall|i: int| 0 <= i < events.len() implies spec_start_actions(
        StartState::Building,
        events,
    )[i] == StartAction::Idle by {
        if i >= 1 {
            assert(spec_start_actions(StartState::Building, events)[i] == spec_start_actions(
                StartState::Failed { error: StartError::BuildFailed },
                events.drop_first(),
            )[i - 1]);
        }
    }
}

/// While every connect probe is refused and time remains, the port gate
/// keeps probing and nothing else.
pub proof fn lemma_refused_probes_keep_waiting(address: SocketAddress, events: Seq<StartEvent>)
    requires
        forall|i: int|
            0 <= i < events.len() ==> events[i] == (StartEvent::PortProbe {
                connected: false,
                timed_out: false,
            }),
    ensures
        spec_start_run(StartState::AwaitingPort { address }, events) == (StartState::AwaitingPort {
            address,
        }),
        forall|i: int|
            0 <= i < events.len() ==> spec_start_actions(
                StartState::AwaitingPort { address },
                events,
            )[i] == StartAction::ProbePort,
    decreases events.len(),
{
    if events.len() > 0 {
        lemma_refused_probes_keep_waiting(address, events.drop_first());
        lemma_one_start_action_per_event(StartState::AwaitingPort { address }, events);
        lemma_one_start_action_per_event(
            StartState::AwaitingPort { address },
            events.drop_first(),
        );
        assert forall|i: int| 0 <= i < events.len() implies spec_start_actions(
            StartState::AwaitingPort { address },
            events,
        )[i] == StartAction::ProbePort by {
            if i >= 1 {
                assert(spec_start_actions(StartState::AwaitingPort { address }, events)[i]
                    == spec_start_actions(
                    StartState::AwaitingPort { address },
                    events.drop_first(),
                )[i - 1]);
            }
        }
    }
}

/// A service that never opens its port does not hang the start sequence:
/// however many refused probes come first, the moment the port gate's
/// timeout elapses the sequence fails with the gave-up error naming that
/// gate and the address.
pub proof fn lemma_port_gate_gives_up(address: SocketAddress, events: Seq<StartEvent>)
    requires
        events.len() > 0,
        forall|i: int|
            0 <= i < events.len() - 1 ==> events[i] == (StartEvent::PortProbe {
                connected: false,
                timed_out: false,
            }),
        events[events.len() - 1] == (StartEvent::PortProbe { connected: false, timed_out: true }),
    ensures
        spec_start_run(StartState::AwaitingPort { address }, events) == (StartState::Failed {
            error: StartError::GaveUpWaiting { gate: ReadinessGate::Port, address },
        }),
    decreases events.len(),
{
    if events.len() == 1 {
        assert(events[0] == (StartEvent::PortProbe { connected: false, timed_out: true }));
        let next = spec_start_step(StartState::AwaitingPort { address }, events[0]).0;
        assert(spec_start_run(StartState::AwaitingPort { address }, events) == spec_start_run(
            next,
            events.drop_first(),
        ));
        assert(spec_start_run(next, events.drop_first()) == next);
    } else {
        assert(events[0] == (StartEvent::PortProbe { connected: false, timed_out: false }));
        assert(events.drop_first()[events.drop_first().len() - 1] == events[events.len() - 1]);
        lemma_port_gate_gives_up(address, events.drop_first());
    }
}

/// A service that never turns healthy does not hang the start sequence
/// either: however many failed health probes come first, the moment the
/// health gate's timeout elapses the sequence fails with the gave-up error
/// naming that gate and the address.
pub proof fn lemma_health_gate_gives_up(address: SocketAddress, events: Seq<StartEvent>)
    requires
        events.len() > 0,
        forall|i: int|
            0 <= i < events.len() - 1 ==> events[i] == (StartEvent::HealthProbe {
                healthy: false,
                timed_out: false,
            }),
        events[events.len() - 1] == (StartEvent::HealthProbe { healthy: false, timed_out: true }),
    ensures
        spec_start_run(StartState::AwaitingHealth { address }, events) == (StartState::Failed {
            error: StartError::GaveUpWaiting { gate: ReadinessGate::Health, address },
        }),
    decreases events.len(),
{
    if events.len() == 1 {
        assert(events[0] == (StartEvent::HealthProbe { healthy: false, timed_out: true }));
        let next = spec_start_step(StartState::AwaitingHealth { address }, events[0]).0;
        assert(spec_start_run(StartState::AwaitingHealth { address }, events) == spec_start_run(
            next,
            events.drop_first(),
        ));
        assert(spec_start_run(next, events.drop_first()) == next);
    } else {
        assert(events[0] == (StartEvent::HealthProbe { healthy: false, timed_out: false }));
        assert(events.drop_first()[events.drop_first().len() - 1] == events[events.len() - 1]);
        lemma_health_gate_gives_up(address, events.drop_first());
    }
}

/// When every stage succeeds at once, the start sequence reaches `Ready`
/// on the discovered address, asking the runtime for exactly one build,
/// one bind, one spawn and one probe of each gate.
pub proof fn lemma_smooth_start_reaches_ready(address: SocketAddress)
    ensures
        ({
            let events = seq![
                StartEvent::BuildFinished { success: true },
                StartEvent::PortDiscovered { address: Some(address) },
                StartEvent::SpawnFinished { success: true },
                StartEvent::PortProbe { connected: true, timed_out: false },
                StartEvent::HealthProbe { healthy: true, timed_out: false },
            ];
            spec_start_run(StartState::Building, events) == (StartState::Ready { address })
                && spec_start_actions(StartState::Building, events) == seq![
                StartAction::BindEphemeralPort,
                StartAction::SpawnProcess,
                StartAction::ProbePort,
                StartAction::ProbeHealth,
                StartAction::Idle,
            ]
        }),
{
    let events = seq![
        StartEvent::BuildFinished { success: true },
        StartEvent::PortDiscovered { address: Some(address) },
        StartEvent::SpawnFinished { success: true },
        StartEvent::PortProbe { connected: true, timed_out: false },
        StartEvent::HealthProbe { healthy: true, timed_out: false },
    ];
    let rest1 = events.drop_first();
    let rest2 = rest1.drop_first();
    let rest3 = rest2.drop_first();
    let rest4 = rest3.drop_first();
    let rest5 = rest4.drop_first();
    assert(rest1[0] == events[1] && rest2[0] == events[2] && rest3[0] == events[3] && rest4[0]
        == events[4] && rest5.len() == 0);
    let s1 = spec_start_step(StartState::Building, events[0]).0;
    let s2 = spec_start_step(s1, rest1[0]).0;
    let s3 = spec_start_step(s2, rest2[0]).0;
    let s4 = spec_start_step(s3, rest3[0]).0;
    let s5 = spec_start_step(s4, rest4[0]).0;
    assert(s1 == StartState::DiscoveringPort);
    assert(s2 == (StartState::Spawning { address }));
    assert(s3 == (StartState::AwaitingPort { address }));
    assert(s4 == (StartState::AwaitingHealth { address }));
    assert(s5 == (StartState::Ready { address }));
    assert(spec_start_run(StartState::Building, events) == spec_start_run(s1, rest1));
    assert(spec_start_run(s1, rest1) == spec_start_run(s2, rest2));
    assert(spec_start_run(s2, rest2) == spec_start_run(s3, rest3));
    assert(spec_start_run(s3, rest3) == spec_start_run(s4, rest4));
    assert(spec_start_run(s4, rest4) == spec_start_run(s5, rest5));
    assert(spec_start_run(s5, rest5) == s5);
    assert(spec_start_actions(StartState::Building, events) == seq![
        StartAction::BindEphemeralPort,
    ] + spec_start_actions(s1, rest1));
    assert(spec_start_actions(s1, rest1) == seq![StartAction::SpawnProcess]
        + spec_start_actions(s2, rest2));
    assert(spec_start_actions(s2, rest2) == seq![StartAction::ProbePort] + spec_start_actions(
        s3,
        rest3,
    ));
    assert(spec_start_actions(s3, rest3) == seq![StartAction::ProbeHealth] + spec_start_actions(
        s4,
        rest4,
    ));
    assert(spec_start_actions(s4, rest4) == seq![StartAction::Idle] + spec_start_actions(
        s5,
        rest5,
    ));
    assert(spec_start_actions(s5, rest5) == Seq::<StartAction>::empty());
    assert(spec_start_actions(StartState::Building, events) =~= seq![
        StartAction::BindEphemeralPort,
        StartAction::SpawnProcess,
        StartAction::ProbePort,
        StartAction::ProbeHealth,
        StartAction::Idle,
    ]);
}

/// How far along the start sequence a state is. No transition moves
/// backwards, and a failure is final.
pub open spec fn stage_rank(state: StartState) -> nat {
    match state {
        StartState::Building => 0,
        StartState::DiscoveringPort => 1,
        StartState::Spawning { .. } => 2,
        StartState::AwaitingPort { .. } => 3,
        StartState::AwaitingHealth { .. } => 4,
        StartState::Ready { .. } => 5,
        StartState::Failed { .. } => 6,
    }
}

/// The start sequence never moves backwards through its stages.
pub proof fn lemma_start_stages_only_advance(state: StartState, event: StartEvent)
    ensures
        stage_rank(spec_start_step(state, event).0) >= stage_rank(state),
{
}

/// Once the process has been spawned, the runtime is never asked to spawn
/// another.
proof fn lemma_no_spawn_after_spawning(state: StartState, events: Seq<StartEvent>)
    requires
        stage_rank(state) >= 2,
    ensures
        forall|i: int|
            0 <= i < events.len() ==> spec_start_actions(state, events)[i]
                != StartAction::SpawnProcess,
    decreases events.len(),
{
    if events.len() > 0 {
        let next = spec_start_step(state, events[0]).0;
        let rest = events.drop_first();
        lemma_start_stages_only_advance(state, events[0]);
        lemma_no_spawn_after_spawning(next, rest);
        lemma_one_start_action_per_event(state, events);
        lemma_one_start_action_per_event(next, rest);
        assert forall|i: int| 0 <= i < events.len() implies spec_start_actions(state, events)[i]
            != StartAction::SpawnProcess by {
            if i >= 1 {
                assert(spec_start_actions(state, events)[i] == spec_start_actions(next, rest)[i
                    - 1]);
            }
        }
    }
}

/// However the start sequence unfolds, the runtime is asked to spawn a
/// process at most once: no run's actions contain `SpawnProcess` twice, so
/// a test never leaks a second process.
pub proof fn lemma_at_most_one_process_is_spawned(state: StartState, events: Seq<StartEvent>)
    ensures
        forall|i: int, j: int|
            #![trigger spec_start_actions(state, events)[i], spec_start_actions(state, events)[j]]
            0 <= i < j < events.len() && spec_start_actions(state, events)[i]
                == StartAction::SpawnProcess ==> spec_start_actions(state, events)[j]
                != StartAction::SpawnProcess,
    decreases events.len(),
{
    if events.len() > 0 {
        let next = spec_start_step(state, events[0]).0;
        let rest = events.drop_first();
        lemma_at_most_one_process_is_spawned(next, rest);
        lemma_one_start_action_per_event(state, events);
        lemma_one_start_action_per_event(next, rest);
        assert forall|i: int, j: int|
            0 <= i < j < events.len() && spec_start_actions(state, events)[i]
                == StartAction::SpawnProcess implies spec_start_actions(state, events)[j]
            != StartAction::SpawnProcess by {
            assert(spec_start_actions(state, events)[j] == spec_start_actions(next, rest)[j - 1]);
            if i == 0 {
                // The first action spawned, so the machine just moved to
                // `Spawning`, past which no spawn is ever asked for again.
                assert(stage_rank(next) >= 2);
                lemma_no_spawn_after_spawning(next, rest);
            } else {
                assert(spec_start_actions(state, events)[i] == spec_start_actions(next, rest)[i
                    - 1]);
            }
        }
    }
}

/// Which start states still owe the port gate before anything may be
/// declared ready.
pub open spec fn owes_port_gate(state: StartState) -> bool {
    match state {
        StartState::Building => true,
        StartState::DiscoveringPort => true,
        StartState::Spawning { .. } => true,
        StartState::AwaitingPort { .. } => true,
        _ => false,
    }
}

/// Which start states still owe the health gate before anything may be
/// declared ready.
pub open spec fn owes_health_gate(state: StartState) -> bool {
    owes_port_gate(state) || state matches StartState::AwaitingHealth { .. }
}

/// Whether some connect probe in `events` succeeded.
pub open spec fn port_gate_passed(events: Seq<StartEvent>) -> bool {
    exists|i: int|
        0 <= i < events.len() && (#[trigger] events[i]) matches StartEvent::PortProbe {
            connected: true,
            ..
        }
}

/// Whether some health probe in `events` succeeded.
pub open spec fn health_gate_passed(events: Seq<StartEvent>) -> bool {
    exists|i: int|
        0 <= i < events.len() && (#[trigger] events[i]) matches StartEvent::HealthProbe {
            healthy: true,
            ..
        }
}

/// Readiness is never reported early: if a run of the start sequence ends
/// `Ready`, then every gate the starting state still owed was passed by a
/// successful probe among the observed events. In particular, a start from
/// the beginning reaches `Ready` only after a connect probe succeeded and a
/// health probe returned success.
pub proof fn lemma_ready_requires_the_gates(state: StartState, events: Seq<StartEvent>)
    requires
        spec_start_run(state, events) matches StartState::Ready { .. },
    ensures
        owes_port_gate(state) ==> port_gate_passed(events),
        owes_health_gate(state) ==> health_gate_passed(events),
    decreases events.len(),
{
    if events.len() == 0 {
    } else {
        let next = spec_start_step(state, events[0]).0;
        let rest = events.drop_first();
        match next {
            StartState::Failed { error } => {
                // A failed sequence can never become ready again.
                lemma_failed_start_is_terminal(error, rest);
                assert(false);
            },
            _ => {
                lemma_ready_requires_the_gates(next, rest);
                if owes_port_gate(state) && owes_port_gate(next) && port_gate_passed(rest) {
                    let w = choose|i: int|
                        0 <= i < rest.len() && (#[trigger] rest[i]) matches StartEvent::PortProbe {
                            connected: true,
                            ..
                        };
                    assert(events[w + 1] == rest[w]);
                }
                if owes_health_gate(state) && owes_health_gate(next) && health_gate_passed(rest) {
                    let w = choose|i: int|
                        0 <= i < rest.len() && (#[trigger] rest[i])
                            matches StartEvent::HealthProbe { healthy: true, .. };
                    assert(events[w + 1] == rest[w]);
                }
                if owes_port_gate(state) && !owes_port_gate(next) {
                    // Only a successful connect probe leaves the port gate owed.
                    assert(events[0] matches StartEvent::PortProbe { connected: true, .. });
                }
                if owes_health_gate(state) && !owes_health_gate(next) {
                    // Only a successful health probe leaves the health gate owed.
                    assert(events[0] matches StartEvent::HealthProbe { healthy: true, .. });
                }
            },
        }
    }
}

/// A handle to a started, ready service. The runtime owns the operating
/// system process; this record carries what the caller reads — the name and
/// the address — and the teardown phase the process is in.
#[derive(Debug)]
pub struct Example {
    /// The name of the service.
    pub name: String,
    /// The address the service is listening on.
    pub address: SocketAddress,
    /// Where the service's process stands in its teardown.
    pub phase: ProcessPhase,
}

impl Example {
    /// A handle for a freshly started service: its process is running.
    pub fn new(name: String, address: SocketAddress) -> (example: Example)
        ensures
            example.name == name,
            example.address == address,
            example.phase == ProcessPhase::Running,
    {
        Example { name, address, phase: ProcessPhase::Running }
    }

    /// The service's URL, constructed from its address.
    pub fn url(&self) -> (url: String)
        ensures
            url@ == http_url_view(self.address),
    {
        http_url(&self.address)
    }

    /// Advances the service's teardown by one step, handing back the action
    /// the runtime must perform on the process.
    pub fn teardown_step(&mut self, event: TerminationEvent) -> (action: TerminationAction)
        requires
            phase_accepts(old(self).phase, event),
        ensures
            final(self).phase == spec_termination_step(old(self).phase, event).0,
            action == spec_termination_step(old(self).phase, event).1,
            final(self).name == old(self).name,
            final(self).address == old(self).address,
    {
        let (phase, action) = termination_step(self.phase, event);
        self.phase = phase;
        action
    }
}

/// The environment a spawned service receives: the caller's extra
/// variables, then the collector endpoint, a short export-batch delay so
/// traces arrive quickly, and the assigned port.
pub fn launch_environment(extra: Vec<(String, String)>, collector_endpoint: &str, port: u16) -> (env:
    Vec<(String, String)>)
    ensures
        env@.len() == extra@.len() + 3,
        forall|i: int| 0 <= i < extra@.len() ==> env@[i] == extra@[i],
        env@[extra@.len() as int].0@ == "OTEL_EXPORTER_OTLP_ENDPOINT"@,
        env@[extra@.len() as int].1@ == collector_endpoint@,
        env@[extra@.len() as int + 1].0@ == "OTEL_BSP_SCHEDULE_DELAY"@,
        env@[extra@.len() as int + 1].1@ == "100"@,
        env@[extra@.len() as int + 2].0@ == "PORT"@,
        env@[extra@.len() as int + 2].1@ == decimal_seq(port as nat),
{
    let mut env = extra;
    env.push(("OTEL_EXPORTER_OTLP_ENDPOINT".to_owned(), collector_endpoint.to_owned()));
    env.push(("OTEL_BSP_SCHEDULE_DELAY".to_owned(), "100".to_owned()));
    env.push(("PORT".to_owned(), format_decimal(port)));
    env
}

/// The arguments of the build command for the named service.
pub fn build_arguments(name: &str) -> (args: Vec<String>)
    ensures
        args@.len() == 3,
        args@[0]@ == "build"@,
        args@[1]@ == "--example"@,
        args@[2]@ == name@,
{
    let mut args: Vec<String> = Vec::new();
    args.push("build".to_owned());
    args.push("--example".to_owned());
    args.push(name.to_owned());
    args
}

/// The arguments of the run command for the named service.
pub fn run_arguments(name: &str) -> (args: Vec<String>)
    ensures
        args@.len() == 3,
        args@[0]@ == "run"@,
        args@[1]@ == "--example"@,
        args@[2]@ == name@,
{
    let mut args: Vec<String> = Vec::new();
    args.push("run".to_owned());
    args.push("--example".to_owned());
    args.push(name.to_owned());
    args
}

/// The URL of the health endpoint for a service at `address`.
pub fn health_url(address: &SocketAddress) -> (url: String)
    ensures
        url@ == http_url_view(*address) + "/health"@,
{
    let mut url = http_url(address);
    url.append("/health");
    url
}

} // verus!
