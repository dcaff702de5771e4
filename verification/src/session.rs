//! Session controller: the bounded state machine that decides when to
//! bootstrap, retry, and stop, and how overlay events update the health
//! registry, the attempt log, and the session's own flags.

use vstd::prelude::*;

use crate::attempts::{opt_str_view, AttemptLog, AttemptOutcome, AttemptRecordModel};
use crate::events::{spec_classify, Command, CommandModel, OverlayEvent};
use crate::registry::{counters_ok, spec_upsert, PeerRecordModel, PeerStatus, Registry};

verus! {

/// Fixed parameters of one test session.
pub struct SessionConfig {
    /// Wall-clock budget in milliseconds; the deadline is
    /// `start_time + max_runtime`.
    pub max_runtime: u64,
    /// Bound on `attempts_made` before the session gives up.
    pub max_attempts: u32,
    /// Whether this node initiates dials and declares success on a direct
    /// connection.
    pub is_initiator: bool,
    /// This node's own peer identity, never dialed.
    pub local_peer_id: String,
}

/// Mutable state of one running session; created once at session start and
/// never persisted across sessions.
pub struct SessionState {
    /// Unix milliseconds at session start.
    pub start_time: u64,
    pub attempts_made: u32,
    pub success: bool,
    pub bootstrapped: bool,
}

/// How a session ended. Terminal states are final.
#[derive(Clone, Copy, PartialEq, Eq, Structural, Debug)]
pub enum TerminalOutcome {
    Succeeded,
    TimedOut,
    AttemptsExhausted,
}

impl SessionState {
    pub fn new(start_time: u64) -> (r: SessionState)
        ensures
            r == (SessionState {
                start_time: start_time,
                attempts_made: 0,
                success: false,
                bootstrapped: false,
            }),
    {
        SessionState { start_time, attempts_made: 0, success: false, bootstrapped: false }
    }
}

/// The exit decision taken once per loop iteration, in this fixed order:
/// past the deadline, then declared success, then attempts exhausted.
pub open spec fn spec_check_exit(
    state: SessionState,
    max_runtime: u64,
    max_attempts: u32,
    now: u64,
) -> Option<TerminalOutcome> {
    if now > state.start_time + max_runtime {
        Some(TerminalOutcome::TimedOut)
    } else if state.success {
        Some(TerminalOutcome::Succeeded)
    } else if state.attempts_made >= max_attempts {
        Some(TerminalOutcome::AttemptsExhausted)
    } else {
        None
    }
}

/// Check the three exit conditions, in their fixed order. `None` means the
/// loop runs one more iteration.
pub fn check_exit(state: &SessionState, config: &SessionConfig, now: u64) -> (r: Option<
    TerminalOutcome,
>)
    requires
        now >= state.start_time,
    ensures
        r == spec_check_exit(*state, config.max_runtime, config.max_attempts, now),
{
    if now - state.start_time > config.max_runtime {
        Some(TerminalOutcome::TimedOut)
    } else if state.success {
        Some(TerminalOutcome::Succeeded)
    } else if state.attempts_made >= config.max_attempts {
        Some(TerminalOutcome::AttemptsExhausted)
    } else {
        None
    }
}

/// Process exit code policy: 0 on success, 2 for the time-deadline path, 1
/// for any other non-success termination.
pub open spec fn spec_exit_code(outcome: TerminalOutcome) -> i32 {
    match outcome {
        TerminalOutcome::Succeeded => 0,
        TerminalOutcome::TimedOut => 2,
        TerminalOutcome::AttemptsExhausted => 1,
    }
}

pub fn exit_code(outcome: TerminalOutcome) -> (c: i32)
    ensures
        c == spec_exit_code(outcome),
{
    match outcome {
        TerminalOutcome::Succeeded => 0,
        TerminalOutcome::TimedOut => 2,
        TerminalOutcome::AttemptsExhausted => 1,
    }
}

/// If bootstrap has not been issued yet, a bootstrap-timer tick issues the
/// bootstrap command; afterwards the tick does nothing.
pub fn on_bootstrap_tick(state: &SessionState) -> (r: Option<Command>)
    ensures
        state.bootstrapped ==> r is None,
        !state.bootstrapped ==> (r matches Some(c) && c@ == CommandModel::Bootstrap),
{
    if state.bootstrapped {
        None
    } else {
        Some(Command::Bootstrap)
    }
}

/// Record whether the issued bootstrap command was accepted; a failed
/// command leaves `bootstrapped` unset, so the next tick retries.
pub fn note_bootstrap_result(state: &mut SessionState, accepted: bool)
    ensures
        *final(state) == (SessionState {
            bootstrapped: old(state).bootstrapped || accepted,
            ..*old(state)
        }),
{
    if accepted {
        state.bootstrapped = true;
    }
}

/// A refresh-timer tick issues a closest-peers query for this node's own
/// identity, as a keep-alive and re-discovery mechanism.
pub fn on_refresh_tick(config: &SessionConfig) -> (r: Command)
    ensures
        r@ == CommandModel::FindClosestPeers(config.local_peer_id@),
{
    Command::FindClosestPeers { target: config.local_peer_id.clone() }
}

/// The peers dialed out of one closest-peers batch: every found peer except
/// this node itself, in order.
pub open spec fn dial_targets(peers: Seq<Seq<char>>, self_id: Seq<char>) -> Seq<Seq<char>>
    decreases peers.len(),
{
    if peers.len() == 0 {
        Seq::empty()
    } else {
        dial_targets(peers.drop_last(), self_id) + (if peers.last() == self_id {
            Seq::<Seq<char>>::empty()
        } else {
            seq![peers.last()]
        })
    }
}

/// A batch never dials more peers than it found.
pub proof fn lemma_dial_targets_len(peers: Seq<Seq<char>>, self_id: Seq<char>)
    ensures
        dial_targets(peers, self_id).len() <= peers.len(),
    decreases peers.len(),
{
    if peers.len() > 0 {
        lemma_dial_targets_len(peers.drop_last(), self_id);
    }
}

/// Everything one event does: the session state, registry, and attempt log
/// after the event, and the commands issued back to the overlay.
pub ghost struct StepEffect {
    pub state: SessionState,
    pub registry: Seq<PeerRecordModel>,
    pub log: Seq<AttemptRecordModel>,
    pub commands: Seq<CommandModel>,
}

/// Room in the attempt counter for what the event adds, so that no
/// increment truncates.
pub open spec fn attempt_room(state: SessionState, event: OverlayEvent) -> bool {
    match event {
        OverlayEvent::ClosestPeersFound { peer_ids } => state.attempts_made + peer_ids@.len()
            <= u32::MAX,
        OverlayEvent::OutgoingConnectionError { .. } => state.attempts_made < u32::MAX,
        OverlayEvent::IncomingConnectionError { .. } => state.attempts_made < u32::MAX,
        _ => true,
    }
}

/// The required mapping from one overlay event to its local effect.
pub open spec fn spec_step(
    state: SessionState,
    config: SessionConfig,
    registry: Seq<PeerRecordModel>,
    log: Seq<AttemptRecordModel>,
    event: OverlayEvent,
    now: u64,
) -> StepEffect {
    let same = StepEffect { state, registry, log, commands: Seq::empty() };
    match event {
        OverlayEvent::NewListenAddr { .. } => same,
        OverlayEvent::BootstrapSucceeded { .. } => same,
        OverlayEvent::BootstrapTimedOut => same,
        OverlayEvent::ClosestPeersTimedOut => same,
        OverlayEvent::ClosestPeersFound { peer_ids } => {
            if config.is_initiator && peer_ids@.len() > 0 && !state.success {
                let targets = dial_targets(peer_ids.deep_view(), config.local_peer_id@);
                StepEffect {
                    state: SessionState {
                        attempts_made: (state.attempts_made + targets.len()) as u32,
                        ..state
                    },
                    registry,
                    log,
                    commands: targets.map_values(|p: Seq<char>| CommandModel::Dial(p)),
                }
            } else {
                same
            }
        },
        OverlayEvent::RoutingUpdated { peer_id } => StepEffect {
            registry: spec_upsert(registry, peer_id@, PeerStatus::Active, now),
            ..same
        },
        OverlayEvent::ConnectionEstablished { peer_id } => StepEffect {
            state: SessionState { success: state.success || config.is_initiator, ..state },
            registry: spec_upsert(registry, peer_id@, PeerStatus::Active, now),
            log: log.push(
                AttemptRecordModel {
                    peer_id: Some(peer_id@),
                    timestamp: now,
                    outcome: AttemptOutcome::Success,
                    error_detail: None,
                },
            ),
            commands: Seq::empty(),
        },
        OverlayEvent::ConnectionClosed { peer_id } => StepEffect {
            registry: spec_upsert(registry, peer_id@, PeerStatus::Inactive, now),
            ..same
        },
        OverlayEvent::OutgoingConnectionError { peer_id, kind, detail } => StepEffect {
            state: SessionState { attempts_made: (state.attempts_made + 1) as u32, ..state },
            registry: match peer_id {
                Some(p) => spec_upsert(registry, p@, PeerStatus::Inactive, now),
                None => registry,
            },
            log: log.push(
                AttemptRecordModel {
                    peer_id: opt_str_view(peer_id),
                    timestamp: now,
                    outcome: spec_classify(kind),
                    error_detail: Some(detail@),
                },
            ),
            commands: Seq::empty(),
        },
        OverlayEvent::IncomingConnectionError { .. } => StepEffect {
            state: SessionState { attempts_made: (state.attempts_made + 1) as u32, ..state },
            ..same
        },
        OverlayEvent::PingSucceeded { peer_id, .. } => StepEffect {
            state: SessionState { attempts_made: 0, success: true, ..state },
            registry: spec_upsert(registry, peer_id@, PeerStatus::Active, now),
            ..same
        },
        OverlayEvent::PingFailed { peer_id, .. } => StepEffect {
            registry: spec_upsert(registry, peer_id@, PeerStatus::Inactive, now),
            ..same
        },
    }
}

/// Dispatch one overlay event: update the session state, health registry,
/// and attempt log exactly as `spec_step` says, and return the dial commands
/// to issue.
pub fn handle_event(
    state: &mut SessionState,
    config: &SessionConfig,
    registry: &mut Registry,
    log: &mut AttemptLog,
    event: &OverlayEvent,
    now: u64,
) -> (cmds: Vec<Command>)
    requires
        counters_ok(old(registry)@),
        attempt_room(*old(state), *event),
    ensures
        ({
            let e = spec_step(*old(state), *config, old(registry)@, old(log)@, *event, now);
            &&& *final(state) == e.state
            &&& final(registry)@ == e.registry
            &&& final(log)@ == e.log
            &&& cmds@.map_values(|c: Command| c@) =~= e.commands
        }),
{
    match event {
        OverlayEvent::NewListenAddr { .. } => Vec::new(),
        OverlayEvent::BootstrapSucceeded { .. } => Vec::new(),
        OverlayEvent::BootstrapTimedOut => Vec::new(),
        OverlayEvent::ClosestPeersTimedOut => Vec::new(),
        OverlayEvent::ClosestPeersFound { peer_ids } => {
            let mut cmds: Vec<Command> = Vec::new();
            if config.is_initiator && peer_ids.len() > 0 && !state.success {
                let ghost dv = peer_ids.deep_view();
                let ghost sid = config.local_peer_id@;
                let n = peer_ids.len();
                let mut i: usize = 0;
                let mut dialed: u32 = 0;
                while i < n
                    invariant
                        n == peer_ids@.len(),
                        dv == peer_ids.deep_view(),
                        sid == config.local_peer_id@,
                        0 <= i <= n,
                        n <= u32::MAX,
                        dialed == dial_targets(dv.take(i as int), sid).len(),
                        dialed <= i,
                        cmds@.map_values(|c: Command| c@) =~= dial_targets(
                            dv.take(i as int),
                            sid,
                        ).map_values(|p: Seq<char>| CommandModel::Dial(p)),
                    decreases n - i,
                {
                    let ghost prev_cmds = cmds@;
                    proof {
                        assert(dv.take(i + 1).drop_last() =~= dv.take(i as int));
                        assert(dv.take(i + 1).last() == peer_ids@[i as int]@);
                        lemma_dial_targets_len(dv.take(i as int), sid);
                    }
                    if !(peer_ids[i] == config.local_peer_id) {
                        let c = Command::Dial { peer_id: peer_ids[i].clone() };
                        cmds.push(c);
                        dialed = dialed + 1;
                        proof {
                            prev_cmds.lemma_push_map_commute(|cm: Command| cm@, c);
                            assert(dial_targets(dv.take(i + 1), sid) =~= dial_targets(
                                dv.take(i as int),
                                sid,
                            ).push(dv[i as int]));
                            dial_targets(dv.take(i as int), sid).lemma_push_map_commute(
                                |p: Seq<char>| CommandModel::Dial(p),
                                dv[i as int],
                            );
                        }
                    } else {
                        proof {
                            assert(dial_targets(dv.take(i + 1), sid) =~= dial_targets(
                                dv.take(i as int),
                                sid,
                            ));
                        }
                    }
                    i += 1;
                }
                proof {
                    assert(dv.take(n as int) =~= dv);
                }
                state.attempts_made = state.attempts_made + dialed;
            }
            cmds
        },
        OverlayEvent::RoutingUpdated { peer_id } => {
            registry.upsert(peer_id, PeerStatus::Active, now);
            Vec::new()
        },
        OverlayEvent::ConnectionEstablished { peer_id } => {
            registry.upsert(peer_id, PeerStatus::Active, now);
            log.record(Some(peer_id.clone()), now, AttemptOutcome::Success, None);
            if config.is_initiator {
                state.success = true;
            }
            Vec::new()
        },
        OverlayEvent::ConnectionClosed { peer_id } => {
            registry.upsert(peer_id, PeerStatus::Inactive, now);
            Vec::new()
        },
        OverlayEvent::OutgoingConnectionError { peer_id, kind, detail } => {
            let outcome = crate::events::classify_outcome(*kind);
            let logged_peer = match peer_id {
                Some(p) => Some(p.clone()),
                None => None,
            };
            log.record(logged_peer, now, outcome, Some(detail.clone()));
            state.attempts_made = state.attempts_made + 1;
            match peer_id {
                Some(p) => registry.upsert(p, PeerStatus::Inactive, now),
                None => (),
            }
            Vec::new()
        },
        OverlayEvent::IncomingConnectionError { .. } => {
            state.attempts_made = state.attempts_made + 1;
            Vec::new()
        },
        OverlayEvent::PingSucceeded { peer_id, .. } => {
            registry.upsert(peer_id, PeerStatus::Active, now);
            state.success = true;
            state.attempts_made = 0;
            Vec::new()
        },
        OverlayEvent::PingFailed { peer_id, .. } => {
            registry.upsert(peer_id, PeerStatus::Inactive, now);
            Vec::new()
        },
    }
}

/// Law: when the loop guard held (attempts below the bound) and one event is
/// dispatched, `attempts_made` ends at most `max_attempts` plus the number
/// of dial commands the event issued — a closest-peers batch can overshoot
/// the bound only by its own size, and nothing else overshoots at all.
pub proof fn lemma_attempts_overshoot_bound(
    state: SessionState,
    config: SessionConfig,
    registry: Seq<PeerRecordModel>,
    log: Seq<AttemptRecordModel>,
    event: OverlayEvent,
    now: u64,
)
    requires
        state.attempts_made < config.max_attempts,
        attempt_room(state, event),
    ensures
        ({
            let e = spec_step(state, config, registry, log, event, now);
            e.state.attempts_made <= config.max_attempts + e.commands.len()
        }),
{
    match event {
        OverlayEvent::ClosestPeersFound { peer_ids } => {
            lemma_dial_targets_len(peer_ids.deep_view(), config.local_peer_id@);
        },
        _ => {},
    }
}

/// Law: no event moves the session's deadline or clears a declared success
/// — `start_time` is fixed for the session's life and `success`, once set,
/// stays set until a terminal exit condition ends the loop.
pub proof fn lemma_step_keeps_deadline_and_success(
    state: SessionState,
    config: SessionConfig,
    registry: Seq<PeerRecordModel>,
    log: Seq<AttemptRecordModel>,
    event: OverlayEvent,
    now: u64,
)
    ensures
        spec_step(state, config, registry, log, event, now).state.start_time == state.start_time,
        state.success ==> spec_step(state, config, registry, log, event, now).state.success,
{
}

/// Law: once the deadline has passed, the next exit check leaves the loop
/// through the timeout path, whatever else the state says — so the session
/// runs at most one further iteration past its deadline.
pub proof fn lemma_deadline_forces_timeout(
    state: SessionState,
    max_runtime: u64,
    max_attempts: u32,
    now: u64,
)
    requires
        now > state.start_time + max_runtime,
    ensures
        spec_check_exit(state, max_runtime, max_attempts, now) == Some(TerminalOutcome::TimedOut),
{
}

/// Law: with `max_runtime` zero, any elapsed time at all — one tick of the
/// millisecond session clock — exits through the timeout path, so the loop
/// performs at most one iteration once the clock has moved.
pub proof fn lemma_zero_runtime_times_out(
    state: SessionState,
    max_attempts: u32,
    now: u64,
)
    requires
        now > state.start_time,
    ensures
        spec_check_exit(state, 0, max_attempts, now) == Some(TerminalOutcome::TimedOut),
{
}

/// Law: the exit code is 0 if and only if `success` was set when no exit
/// condition of higher priority had fired — the deadline wins over success;
/// 2 if and only if the timeout condition fired; 1 otherwise.
pub proof fn lemma_exit_code_policy(
    state: SessionState,
    max_runtime: u64,
    max_attempts: u32,
    now: u64,
)
    requires
        spec_check_exit(state, max_runtime, max_attempts, now) is Some,
    ensures
        ({
            let code = spec_exit_code(
                spec_check_exit(state, max_runtime, max_attempts, now)->Some_0,
            );
            let timed_out = now > state.start_time + max_runtime;
            &&& (code == 0 <==> state.success && !timed_out)
            &&& (code == 2 <==> timed_out)
            &&& (code == 1 <==> !state.success && !timed_out && state.attempts_made
                >= max_attempts)
        }),
{
}

} // verus!
