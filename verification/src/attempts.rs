//! Connection attempt tracker: an append-only, session-scoped log of
//! attempt outcomes, used to bound retries and to feed the report.

use vstd::prelude::*;

verus! {

/// Outcome of one connection attempt.
#[derive(Clone, Copy, PartialEq, Eq, Structural, Debug)]
pub enum AttemptOutcome {
    Success,
    Timeout,
    Refused,
    Error,
}

/// One attempt: which peer (when known), when, how it went, and the free-form
/// transport error text when it failed.
pub struct AttemptRecord {
    pub peer_id: Option<String>,
    pub timestamp: u64,
    pub outcome: AttemptOutcome,
    pub error_detail: Option<String>,
}

/// Mathematical model of an `AttemptRecord`, strings as character sequences.
pub ghost struct AttemptRecordModel {
    pub peer_id: Option<Seq<char>>,
    pub timestamp: u64,
    pub outcome: AttemptOutcome,
    pub error_detail: Option<Seq<char>>,
}

/// The view of an optional string.
pub open spec fn opt_str_view(o: Option<String>) -> Option<Seq<char>> {
    match o {
        Some(s) => Some(s@),
        None => None,
    }
}

impl View for AttemptRecord {
    type V = AttemptRecordModel;

    open spec fn view(&self) -> AttemptRecordModel {
        AttemptRecordModel {
            peer_id: opt_str_view(self.peer_id),
            timestamp: self.timestamp,
            outcome: self.outcome,
            error_detail: opt_str_view(self.error_detail),
        }
    }
}

/// Ordered log of the session's connection attempts. Records are only ever
/// appended; the log is discarded with the session.
pub struct AttemptLog {
    records: Vec<AttemptRecord>,
}

impl View for AttemptLog {
    type V = Seq<AttemptRecordModel>;

    closed spec fn view(&self) -> Seq<AttemptRecordModel> {
        self.records@.map_values(|r: AttemptRecord| r@)
    }
}

impl AttemptLog {
    pub fn new() -> (r: AttemptLog)
        ensures
            r@ == Seq::<AttemptRecordModel>::empty(),
    {
        AttemptLog { records: Vec::new() }
    }

    /// Append one attempt record; recording always succeeds.
    pub fn record(
        &mut self,
        peer_id: Option<String>,
        timestamp: u64,
        outcome: AttemptOutcome,
        error_detail: Option<String>,
    )
        ensures
            final(self)@ == old(self)@.push(
                AttemptRecordModel {
                    peer_id: opt_str_view(peer_id),
                    timestamp: timestamp,
                    outcome: outcome,
                    error_detail: opt_str_view(error_detail),
                },
            ),
    {
        let rec = AttemptRecord { peer_id, timestamp, outcome, error_detail };
        let ghost m = rec@;
        self.records.push(rec);
        proof {
            assert(final(self)@ =~= old(self)@.push(m));
        }
    }

    /// How many attempts have been recorded so far.
    pub fn count(&self) -> (n: usize)
        ensures
            n == self@.len(),
    {
        self.records.len()
    }

    /// Read access to the record list, for reporting.
    pub fn records(&self) -> (r: &Vec<AttemptRecord>)
        ensures
            r@.map_values(|rec: AttemptRecord| rec@) == self@,
    {
        &self.records
    }
}

} // verus!
