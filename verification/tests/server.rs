use service_harness::address::SocketAddress;
use service_harness::latch::PollStatus;
use service_harness::server::{serve_in_background, BackgroundServer};
use service_harness::termination::{termination_step, ProcessPhase, TerminationAction, TerminationEvent};

fn v6_localhost(port: u16) -> SocketAddress {
    SocketAddress { host: "::1".to_string(), port, v6: true }
}

#[test]
fn serving_in_background_hands_back_the_bound_address() {
    let created: Result<SocketAddress, String> = Ok(v6_localhost(50051));
    let server: BackgroundServer<u32> = serve_in_background(created).unwrap();
    assert_eq!(*server.local_addr(), v6_localhost(50051));
}

#[test]
fn serving_in_background_propagates_creation_failure() {
    let created: Result<SocketAddress, String> = Err("bind failed".to_string());
    let result: Result<BackgroundServer<u32>, String> = serve_in_background(created);
    let error = match result {
        Err(error) => error,
        Ok(_) => panic!("a creation failure must be propagated"),
    };
    assert_eq!(error, "bind failed");
}

#[test]
fn background_server_url_brackets_the_host() {
    let created: Result<SocketAddress, String> = Ok(v6_localhost(50051));
    let server: BackgroundServer<u32> = serve_in_background(created).unwrap();
    assert_eq!(server.url(), "http://[::1]:50051");
}

#[test]
fn release_wakes_the_suspended_task_once() {
    let created: Result<SocketAddress, String> = Ok(v6_localhost(50051));
    let mut server: BackgroundServer<u32> = serve_in_background(created).unwrap();
    // The background task suspends on the shutdown latch.
    assert_eq!(server.poll_shutdown(7), PollStatus::Pending);
    // Releasing the handle hands its wake handle back, exactly once.
    assert_eq!(server.release(), Some(7));
    assert_eq!(server.release(), None);
}

#[test]
fn release_without_a_suspended_task_wakes_nobody() {
    let created: Result<SocketAddress, String> = Ok(v6_localhost(50051));
    let mut server: BackgroundServer<u32> = serve_in_background(created).unwrap();
    assert_eq!(server.release(), None);
    // After release, the task polls ready at once.
    assert_eq!(server.poll_shutdown(7), PollStatus::Ready);
}

#[test]
fn termination_steps_escalate_in_order() {
    let (phase, action) =
        termination_step(ProcessPhase::Running, TerminationEvent::StillRunning);
    assert_eq!(phase, ProcessPhase::TerminatingGracefully);
    assert_eq!(action, TerminationAction::SendGracefulSignal);

    let (phase, action) = termination_step(phase, TerminationEvent::GraceExpired);
    assert_eq!(phase, ProcessPhase::TerminatingForcefully);
    assert_eq!(action, TerminationAction::SendForcefulSignal);

    let (phase, action) = termination_step(phase, TerminationEvent::ForcefulSent);
    assert_eq!(phase, ProcessPhase::Exited);
    assert_eq!(action, TerminationAction::Finished);
}

#[test]
fn poll_status_values_are_distinct() {
    assert_ne!(PollStatus::Ready, PollStatus::Pending);
}
