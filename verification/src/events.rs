//! Events received from the external overlay collaborator, the commands the
//! session issues back to it, and the transport-error classification.

use vstd::prelude::*;

use crate::attempts::AttemptOutcome;

verus! {

/// Best-effort classification of an underlying transport failure; unknown
/// kinds land on `Other`.
#[derive(Clone, Copy, PartialEq, Eq, Structural, Debug)]
pub enum TransportErrorKind {
    TimedOut,
    ConnectionRefused,
    Other,
}

/// Why a ping failed.
#[derive(Clone, Copy, PartialEq, Eq, Structural, Debug)]
pub enum PingFailureKind {
    Timeout,
    Unsupported,
    Other,
}

/// The overlay's combined event stream, as one flat closed tagged union.
#[allow(inconsistent_fields)]
pub enum OverlayEvent {
    NewListenAddr { address: String },
    BootstrapSucceeded { peer_id: String },
    BootstrapTimedOut,
    ClosestPeersFound { peer_ids: Vec<String> },
    ClosestPeersTimedOut,
    RoutingUpdated { peer_id: String },
    ConnectionEstablished { peer_id: String },
    ConnectionClosed { peer_id: String },
    OutgoingConnectionError { peer_id: Option<String>, kind: TransportErrorKind, detail: String },
    IncomingConnectionError { kind: TransportErrorKind, detail: String },
    PingSucceeded { peer_id: String, rtt_millis: u64 },
    PingFailed { peer_id: String, kind: PingFailureKind },
}

/// A command for the overlay collaborator.
pub enum Command {
    Bootstrap,
    FindClosestPeers { target: String },
    Dial { peer_id: String },
}

/// Mathematical model of a `Command`, strings as character sequences.
pub ghost enum CommandModel {
    Bootstrap,
    FindClosestPeers(Seq<char>),
    Dial(Seq<char>),
}

impl View for Command {
    type V = CommandModel;

    open spec fn view(&self) -> CommandModel {
        match self {
            Command::Bootstrap => CommandModel::Bootstrap,
            Command::FindClosestPeers { target } => CommandModel::FindClosestPeers(target@),
            Command::Dial { peer_id } => CommandModel::Dial(peer_id@),
        }
    }
}

/// The attempt outcome that a transport failure is recorded as: a timeout as
/// `Timeout`, a refused connection as `Refused`, everything else as `Error`.
pub open spec fn spec_classify(kind: TransportErrorKind) -> AttemptOutcome {
    match kind {
        TransportErrorKind::TimedOut => AttemptOutcome::Timeout,
        TransportErrorKind::ConnectionRefused => AttemptOutcome::Refused,
        TransportErrorKind::Other => AttemptOutcome::Error,
    }
}

/// Classify a transport failure for the attempt log.
pub fn classify_outcome(kind: TransportErrorKind) -> (r: AttemptOutcome)
    ensures
        r == spec_classify(kind),
{
    match kind {
        TransportErrorKind::TimedOut => AttemptOutcome::Timeout,
        TransportErrorKind::ConnectionRefused => AttemptOutcome::Refused,
        TransportErrorKind::Other => AttemptOutcome::Error,
    }
}

} // verus!
