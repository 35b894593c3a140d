use service_harness::address::SocketAddress;
use service_harness::example::{
    build_arguments, health_url, launch_environment, run_arguments, start_step, Example,
    ReadinessGate, StartAction, StartError, StartEvent, StartState,
};
use service_harness::termination::{ProcessPhase, TerminationAction, TerminationEvent};

fn v6_localhost(port: u16) -> SocketAddress {
    SocketAddress { host: "::1".to_string(), port, v6: true }
}

#[test]
fn start_sequence_reaches_ready_after_both_gates() {
    let (state, action) =
        start_step(StartState::Building, StartEvent::BuildFinished { success: true });
    assert_eq!(state, StartState::DiscoveringPort);
    assert_eq!(action, StartAction::BindEphemeralPort);

    let (state, action) = start_step(
        state,
        StartEvent::PortDiscovered { address: Some(v6_localhost(50051)) },
    );
    assert_eq!(state, StartState::Spawning { address: v6_localhost(50051) });
    assert_eq!(action, StartAction::SpawnProcess);

    let (state, action) = start_step(state, StartEvent::SpawnFinished { success: true });
    assert_eq!(state, StartState::AwaitingPort { address: v6_localhost(50051) });
    assert_eq!(action, StartAction::ProbePort);

    let (state, action) = start_step(
        state,
        StartEvent::PortProbe { connected: true, timed_out: false },
    );
    assert_eq!(state, StartState::AwaitingHealth { address: v6_localhost(50051) });
    assert_eq!(action, StartAction::ProbeHealth);

    let (state, action) = start_step(
        state,
        StartEvent::HealthProbe { healthy: true, timed_out: false },
    );
    assert_eq!(state, StartState::Ready { address: v6_localhost(50051) });
    assert_eq!(action, StartAction::Idle);
}

#[test]
fn failed_build_aborts_without_spawning() {
    let (state, action) =
        start_step(StartState::Building, StartEvent::BuildFinished { success: false });
    assert_eq!(state, StartState::Failed { error: StartError::BuildFailed });
    assert_eq!(action, StartAction::Idle);

    // The failure is terminal: even a successful-looking later event asks
    // for nothing further.
    let (state, action) = start_step(state, StartEvent::BuildFinished { success: true });
    assert_eq!(state, StartState::Failed { error: StartError::BuildFailed });
    assert_eq!(action, StartAction::Idle);
}

#[test]
fn failed_port_discovery_aborts() {
    let (state, action) =
        start_step(StartState::DiscoveringPort, StartEvent::PortDiscovered { address: None });
    assert_eq!(state, StartState::Failed { error: StartError::PortDiscoveryFailed });
    assert_eq!(action, StartAction::Idle);
}

#[test]
fn failed_spawn_aborts() {
    let (state, action) = start_step(
        StartState::Spawning { address: v6_localhost(1) },
        StartEvent::SpawnFinished { success: false },
    );
    assert_eq!(state, StartState::Failed { error: StartError::SpawnFailed });
    assert_eq!(action, StartAction::Idle);
}

#[test]
fn refused_probes_are_retried_until_the_timeout() {
    let mut state = StartState::AwaitingPort { address: v6_localhost(4000) };
    for _ in 0u32..5u32 {
        let (next, action) = start_step(
            state,
            StartEvent::PortProbe { connected: false, timed_out: false },
        );
        assert_eq!(next, StartState::AwaitingPort { address: v6_localhost(4000) });
        assert_eq!(action, StartAction::ProbePort);
        state = next;
    }
    let (state, action) = start_step(
        state,
        StartEvent::PortProbe { connected: false, timed_out: true },
    );
    assert_eq!(
        state,
        StartState::Failed {
            error: StartError::GaveUpWaiting {
                gate: ReadinessGate::Port,
                address: v6_localhost(4000),
            },
        }
    );
    assert_eq!(action, StartAction::Idle);
}

#[test]
fn health_gate_times_out_with_its_own_error() {
    let (state, _) = start_step(
        StartState::AwaitingHealth { address: v6_localhost(4000) },
        StartEvent::HealthProbe { healthy: false, timed_out: true },
    );
    assert_eq!(
        state,
        StartState::Failed {
            error: StartError::GaveUpWaiting {
                gate: ReadinessGate::Health,
                address: v6_localhost(4000),
            },
        }
    );
}

#[test]
fn gave_up_messages_name_the_gate_and_address() {
    let port_error = StartError::GaveUpWaiting {
        gate: ReadinessGate::Port,
        address: v6_localhost(4000),
    };
    assert_eq!(port_error.message(), "Gave up waiting: opening [::1]:4000");

    let health_error = StartError::GaveUpWaiting {
        gate: ReadinessGate::Health,
        address: v6_localhost(4000),
    };
    assert_eq!(
        health_error.message(),
        "Gave up waiting: checking for health of [::1]:4000"
    );
}

#[test]
fn launch_environment_injects_endpoint_delay_and_port() {
    let extra = vec![("TARGET_URL".to_string(), "http://[::1]:9000".to_string())];
    let env = launch_environment(extra, "http://[::1]:4317", 50051);
    assert_eq!(
        env,
        vec![
            ("TARGET_URL".to_string(), "http://[::1]:9000".to_string()),
            (
                "OTEL_EXPORTER_OTLP_ENDPOINT".to_string(),
                "http://[::1]:4317".to_string()
            ),
            ("OTEL_BSP_SCHEDULE_DELAY".to_string(), "100".to_string()),
            ("PORT".to_string(), "50051".to_string()),
        ]
    );
}

#[test]
fn launch_environment_without_extra_variables() {
    let env = launch_environment(Vec::new(), "http://[::1]:4317", 80);
    assert_eq!(env.len(), 3);
    assert_eq!(env[2], ("PORT".to_string(), "80".to_string()));
}

#[test]
fn build_and_run_arguments_name_the_example() {
    assert_eq!(build_arguments("echo-server"), vec!["build", "--example", "echo-server"]);
    assert_eq!(run_arguments("proxy-server"), vec!["run", "--example", "proxy-server"]);
}

#[test]
fn health_url_points_at_the_health_path() {
    assert_eq!(health_url(&v6_localhost(50051)), "http://[::1]:50051/health");
}

#[test]
fn example_url_is_built_from_its_address() {
    let example = Example::new("echo-server".to_string(), v6_localhost(50051));
    assert_eq!(example.url(), "http://[::1]:50051");
    assert_eq!(example.name, "echo-server");
    assert_eq!(example.phase, ProcessPhase::Running);
}

#[test]
fn teardown_of_an_exited_process_sends_no_signal() {
    let mut example = Example::new("echo-server".to_string(), v6_localhost(1));
    let action = example.teardown_step(TerminationEvent::AlreadyExited);
    assert_eq!(action, TerminationAction::Finished);
    assert_eq!(example.phase, ProcessPhase::Exited);
}

#[test]
fn teardown_within_grace_needs_no_forceful_signal() {
    let mut example = Example::new("echo-server".to_string(), v6_localhost(1));
    let action = example.teardown_step(TerminationEvent::StillRunning);
    assert_eq!(action, TerminationAction::SendGracefulSignal);
    assert_eq!(example.phase, ProcessPhase::TerminatingGracefully);

    let action = example.teardown_step(TerminationEvent::ExitedWithinGrace);
    assert_eq!(action, TerminationAction::Finished);
    assert_eq!(example.phase, ProcessPhase::Exited);
}

#[test]
fn teardown_escalates_when_the_grace_period_expires() {
    let mut example = Example::new("echo-server".to_string(), v6_localhost(1));
    assert_eq!(
        example.teardown_step(TerminationEvent::StillRunning),
        TerminationAction::SendGracefulSignal
    );
    assert_eq!(
        example.teardown_step(TerminationEvent::GraceExpired),
        TerminationAction::SendForcefulSignal
    );
    assert_eq!(example.phase, ProcessPhase::TerminatingForcefully);
    assert_eq!(
        example.teardown_step(TerminationEvent::ForcefulSent),
        TerminationAction::Finished
    );
    assert_eq!(example.phase, ProcessPhase::Exited);
}
