// Session controller behaviour: exit conditions in their fixed order, exit
// codes, timer handlers, and the event dispatch table.

use p2p::attempts::{AttemptLog, AttemptOutcome};
use p2p::events::{Command, OverlayEvent, PingFailureKind, TransportErrorKind};
use p2p::registry::{PeerStatus, Registry};
use p2p::session::{
    check_exit, exit_code, handle_event, note_bootstrap_result, on_bootstrap_tick,
    on_refresh_tick, SessionConfig, SessionState, TerminalOutcome,
};

fn test_config(is_initiator: bool) -> SessionConfig {
    SessionConfig {
        max_runtime: 300,
        max_attempts: 10,
        is_initiator,
        local_peer_id: "SELF".to_string(),
    }
}

#[test]
fn test_check_exit_timeout_wins_over_success() {
    let config = test_config(true);
    let mut state = SessionState::new(1000);
    state.success = true;
    state.attempts_made = 10;
    // Past the deadline: the timeout path fires first even with success set.
    assert_eq!(check_exit(&state, &config, 1301), Some(TerminalOutcome::TimedOut));
    // At the deadline exactly, not past it: success wins next.
    assert_eq!(check_exit(&state, &config, 1300), Some(TerminalOutcome::Succeeded));
}

#[test]
fn test_check_exit_order_and_continue() {
    let config = test_config(true);
    let mut state = SessionState::new(1000);
    assert_eq!(check_exit(&state, &config, 1001), None);
    state.attempts_made = 10;
    assert_eq!(check_exit(&state, &config, 1001), Some(TerminalOutcome::AttemptsExhausted));
    state.success = true;
    assert_eq!(check_exit(&state, &config, 1001), Some(TerminalOutcome::Succeeded));
}

#[test]
fn test_zero_runtime_times_out_first_iteration() {
    let config = SessionConfig { max_runtime: 0, ..test_config(true) };
    let state = SessionState::new(500);
    assert_eq!(check_exit(&state, &config, 501), Some(TerminalOutcome::TimedOut));
}

#[test]
fn test_exit_codes() {
    assert_eq!(exit_code(TerminalOutcome::Succeeded), 0);
    assert_eq!(exit_code(TerminalOutcome::TimedOut), 2);
    assert_eq!(exit_code(TerminalOutcome::AttemptsExhausted), 1);
}

#[test]
fn test_bootstrap_tick_retries_until_accepted() {
    let mut state = SessionState::new(0);
    assert!(matches!(on_bootstrap_tick(&state), Some(Command::Bootstrap)));
    note_bootstrap_result(&mut state, false);
    assert!(!state.bootstrapped);
    assert!(matches!(on_bootstrap_tick(&state), Some(Command::Bootstrap)));
    note_bootstrap_result(&mut state, true);
    assert!(state.bootstrapped);
    assert!(on_bootstrap_tick(&state).is_none());
}

#[test]
fn test_refresh_tick_queries_own_id() {
    let config = test_config(false);
    match on_refresh_tick(&config) {
        Command::FindClosestPeers { target } => assert_eq!(target, "SELF"),
        _ => panic!("refresh tick must issue a closest-peers query"),
    }
}

#[test]
fn test_closest_peers_dials_all_but_self() {
    let config = test_config(true);
    let mut state = SessionState::new(0);
    let mut reg = Registry::new();
    let mut log = AttemptLog::new();
    let event = OverlayEvent::ClosestPeersFound {
        peer_ids: vec!["A".to_string(), "SELF".to_string(), "B".to_string()],
    };
    let cmds = handle_event(&mut state, &config, &mut reg, &mut log, &event, 50);
    assert_eq!(cmds.len(), 2);
    match &cmds[0] {
        Command::Dial { peer_id } => assert_eq!(peer_id, "A"),
        _ => panic!("expected a dial command"),
    }
    match &cmds[1] {
        Command::Dial { peer_id } => assert_eq!(peer_id, "B"),
        _ => panic!("expected a dial command"),
    }
    assert_eq!(state.attempts_made, 2);
    assert_eq!(log.count(), 0);
}

#[test]
fn test_closest_peers_ignored_for_responder() {
    let config = test_config(false);
    let mut state = SessionState::new(0);
    let mut reg = Registry::new();
    let mut log = AttemptLog::new();
    let event = OverlayEvent::ClosestPeersFound { peer_ids: vec!["A".to_string()] };
    let cmds = handle_event(&mut state, &config, &mut reg, &mut log, &event, 50);
    assert!(cmds.is_empty());
    assert_eq!(state.attempts_made, 0);
}

#[test]
fn test_closest_peers_ignored_after_success() {
    let config = test_config(true);
    let mut state = SessionState::new(0);
    state.success = true;
    let mut reg = Registry::new();
    let mut log = AttemptLog::new();
    let event = OverlayEvent::ClosestPeersFound { peer_ids: vec!["A".to_string()] };
    let cmds = handle_event(&mut state, &config, &mut reg, &mut log, &event, 50);
    assert!(cmds.is_empty());
    assert_eq!(state.attempts_made, 0);
}

#[test]
fn test_connection_established_sets_success_for_initiator() {
    let config = test_config(true);
    let mut state = SessionState::new(0);
    let mut reg = Registry::new();
    reg.register("addr-a".to_string(), "A".to_string());
    let mut log = AttemptLog::new();
    let event = OverlayEvent::ConnectionEstablished { peer_id: "A".to_string() };
    let cmds = handle_event(&mut state, &config, &mut reg, &mut log, &event, 60);
    assert!(cmds.is_empty());
    assert!(state.success);
    assert_eq!(log.count(), 1);
    let recs = log.records();
    assert_eq!(recs[0].peer_id, Some("A".to_string()));
    assert_eq!(recs[0].outcome, AttemptOutcome::Success);
    assert_eq!(recs[0].timestamp, 60);
    let rr = reg.records();
    assert_eq!(rr[0].status, PeerStatus::Active);
    assert_eq!(rr[0].success_count, 1);
}

#[test]
fn test_connection_established_responder_logs_but_no_success() {
    let config = test_config(false);
    let mut state = SessionState::new(0);
    let mut reg = Registry::new();
    let mut log = AttemptLog::new();
    let event = OverlayEvent::ConnectionEstablished { peer_id: "A".to_string() };
    handle_event(&mut state, &config, &mut reg, &mut log, &event, 60);
    assert!(!state.success);
    assert_eq!(log.count(), 1);
}

#[test]
fn test_outgoing_error_classified_and_counted() {
    let config = test_config(true);
    let mut state = SessionState::new(0);
    let mut reg = Registry::new();
    reg.register("addr-a".to_string(), "A".to_string());
    let mut log = AttemptLog::new();
    let event = OverlayEvent::OutgoingConnectionError {
        peer_id: Some("A".to_string()),
        kind: TransportErrorKind::TimedOut,
        detail: "dial timed out".to_string(),
    };
    handle_event(&mut state, &config, &mut reg, &mut log, &event, 70);
    assert_eq!(state.attempts_made, 1);
    let recs = log.records();
    assert_eq!(recs[0].outcome, AttemptOutcome::Timeout);
    assert_eq!(recs[0].error_detail, Some("dial timed out".to_string()));
    let rr = reg.records();
    assert_eq!(rr[0].status, PeerStatus::Inactive);
    assert_eq!(rr[0].failure_count, 1);

    let event2 = OverlayEvent::OutgoingConnectionError {
        peer_id: None,
        kind: TransportErrorKind::Other,
        detail: "handshake failed".to_string(),
    };
    handle_event(&mut state, &config, &mut reg, &mut log, &event2, 80);
    assert_eq!(state.attempts_made, 2);
    let recs = log.records();
    assert_eq!(recs[1].peer_id, None);
    assert_eq!(recs[1].outcome, AttemptOutcome::Error);
    // No registry change for an unknown peer.
    assert_eq!(reg.records()[0].failure_count, 1);
}

#[test]
fn test_incoming_error_counts_only() {
    let config = test_config(true);
    let mut state = SessionState::new(0);
    let mut reg = Registry::new();
    reg.register("addr-a".to_string(), "A".to_string());
    let mut log = AttemptLog::new();
    let event = OverlayEvent::IncomingConnectionError {
        kind: TransportErrorKind::ConnectionRefused,
        detail: "refused".to_string(),
    };
    handle_event(&mut state, &config, &mut reg, &mut log, &event, 90);
    assert_eq!(state.attempts_made, 1);
    assert_eq!(log.count(), 0);
    assert_eq!(reg.records()[0].status, PeerStatus::Unknown);
}

#[test]
fn test_ping_success_resets_attempts_and_declares_success() {
    let config = test_config(false);
    let mut state = SessionState::new(0);
    state.attempts_made = 7;
    let mut reg = Registry::new();
    reg.register("addr-a".to_string(), "A".to_string());
    let mut log = AttemptLog::new();
    let event = OverlayEvent::PingSucceeded { peer_id: "A".to_string(), rtt_millis: 42 };
    handle_event(&mut state, &config, &mut reg, &mut log, &event, 95);
    assert!(state.success);
    assert_eq!(state.attempts_made, 0);
    assert_eq!(reg.records()[0].status, PeerStatus::Active);
    assert_eq!(reg.records()[0].last_seen, Some(95));
}

#[test]
fn test_ping_failure_marks_inactive() {
    let config = test_config(false);
    let mut state = SessionState::new(0);
    let mut reg = Registry::new();
    reg.register("addr-a".to_string(), "A".to_string());
    let mut log = AttemptLog::new();
    let event = OverlayEvent::PingFailed {
        peer_id: "A".to_string(),
        kind: PingFailureKind::Unsupported,
    };
    handle_event(&mut state, &config, &mut reg, &mut log, &event, 96);
    assert!(!state.success);
    assert_eq!(reg.records()[0].status, PeerStatus::Inactive);
    assert_eq!(reg.records()[0].failure_count, 1);
}

#[test]
fn test_routing_update_and_connection_closed() {
    let config = test_config(true);
    let mut state = SessionState::new(0);
    let mut reg = Registry::new();
    reg.register("addr-a".to_string(), "A".to_string());
    let mut log = AttemptLog::new();
    handle_event(
        &mut state,
        &config,
        &mut reg,
        &mut log,
        &OverlayEvent::RoutingUpdated { peer_id: "A".to_string() },
        10,
    );
    assert_eq!(reg.records()[0].status, PeerStatus::Active);
    handle_event(
        &mut state,
        &config,
        &mut reg,
        &mut log,
        &OverlayEvent::ConnectionClosed { peer_id: "A".to_string() },
        20,
    );
    assert_eq!(reg.records()[0].status, PeerStatus::Inactive);
    assert_eq!(reg.records()[0].success_count, 1);
    assert_eq!(reg.records()[0].failure_count, 1);
    assert!(log.count() == 0);
}

#[test]
fn test_bootstrap_and_listen_events_change_nothing() {
    let config = test_config(true);
    let mut state = SessionState::new(0);
    let mut reg = Registry::new();
    reg.register("addr-a".to_string(), "A".to_string());
    let mut log = AttemptLog::new();
    for event in [
        OverlayEvent::NewListenAddr { address: "/ip4/0.0.0.0/tcp/0".to_string() },
        OverlayEvent::BootstrapSucceeded { peer_id: "A".to_string() },
        OverlayEvent::BootstrapTimedOut,
        OverlayEvent::ClosestPeersTimedOut,
    ] {
        let cmds = handle_event(&mut state, &config, &mut reg, &mut log, &event, 10);
        assert!(cmds.is_empty());
    }
    assert_eq!(state.attempts_made, 0);
    assert!(!state.success);
    assert_eq!(log.count(), 0);
    assert_eq!(reg.records()[0].status, PeerStatus::Unknown);
}

#[test]
fn test_batch_overshoot_bounded_by_batch_size() {
    // attempts_made was below the bound; one batch may overshoot it only by
    // the number of dials it issues.
    let config = test_config(true);
    let mut state = SessionState::new(0);
    state.attempts_made = 9;
    let mut reg = Registry::new();
    let mut log = AttemptLog::new();
    let event = OverlayEvent::ClosestPeersFound {
        peer_ids: vec!["A".to_string(), "B".to_string(), "C".to_string()],
    };
    let cmds = handle_event(&mut state, &config, &mut reg, &mut log, &event, 5);
    assert_eq!(cmds.len(), 3);
    assert!(state.attempts_made <= config.max_attempts + cmds.len() as u32);
    assert_eq!(state.attempts_made, 12);
}
