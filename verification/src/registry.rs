//! Peer health registry: the current believed status of each bootstrap
//! peer, with success/failure counters, and snapshots for persistence.

use vstd::prelude::*;

verus! {

/// Believed health of one bootstrap peer.
#[derive(Clone, Copy, PartialEq, Eq, Structural, Debug)]
pub enum PeerStatus {
    Unknown,
    Active,
    Inactive,
}

/// One bootstrap peer: its overlay address, identity, believed status, and
/// monotonically increasing success/failure counters.
pub struct PeerRecord {
    pub address: String,
    pub peer_id: String,
    pub status: PeerStatus,
    /// Set only on a transition to `Active` (unix milliseconds).
    pub last_seen: Option<u64>,
    /// Latency sample; reserved, never set by this crate.
    pub response_time: Option<u64>,
    pub success_count: u32,
    pub failure_count: u32,
}

/// Mathematical model of a `PeerRecord`: strings as character sequences and
/// counters as unbounded integers.
pub ghost struct PeerRecordModel {
    pub address: Seq<char>,
    pub peer_id: Seq<char>,
    pub status: PeerStatus,
    pub last_seen: Option<u64>,
    pub response_time: Option<u64>,
    pub success_count: int,
    pub failure_count: int,
}

impl View for PeerRecord {
    type V = PeerRecordModel;

    open spec fn view(&self) -> PeerRecordModel {
        PeerRecordModel {
            address: self.address@,
            peer_id: self.peer_id@,
            status: self.status,
            last_seen: self.last_seen,
            response_time: self.response_time,
            success_count: self.success_count as int,
            failure_count: self.failure_count as int,
        }
    }
}

impl PeerRecord {
    /// A fresh record for a peer taken from the bootstrap list: status
    /// unknown, counters zero.
    pub open spec fn spec_seeded(address: Seq<char>, peer_id: Seq<char>) -> PeerRecordModel {
        PeerRecordModel {
            address: address,
            peer_id: peer_id,
            status: PeerStatus::Unknown,
            last_seen: None,
            response_time: None,
            success_count: 0,
            failure_count: 0,
        }
    }

    pub fn seeded(address: String, peer_id: String) -> (r: PeerRecord)
        ensures
            r@ == Self::spec_seeded(address@, peer_id@),
    {
        PeerRecord {
            address: address,
            peer_id: peer_id,
            status: PeerStatus::Unknown,
            last_seen: None,
            response_time: None,
            success_count: 0,
            failure_count: 0,
        }
    }

    /// A field-for-field copy.
    pub fn duplicate(&self) -> (r: PeerRecord)
        ensures
            r@ == self@,
    {
        PeerRecord {
            address: self.address.clone(),
            peer_id: self.peer_id.clone(),
            status: self.status,
            last_seen: self.last_seen,
            response_time: self.response_time,
            success_count: self.success_count,
            failure_count: self.failure_count,
        }
    }
}

/// The record as it stands after one status update: the status is replaced;
/// a transition to `Active` stamps `last_seen` and increments
/// `success_count`; a transition to `Inactive` increments `failure_count`.
/// The transition is re-applied on every call, even when the status is
/// unchanged.
pub open spec fn apply_status(r: PeerRecordModel, status: PeerStatus, now: u64) -> PeerRecordModel {
    match status {
        PeerStatus::Active => PeerRecordModel {
            status: PeerStatus::Active,
            last_seen: Some(now),
            success_count: r.success_count + 1,
            ..r
        },
        PeerStatus::Inactive => PeerRecordModel {
            status: PeerStatus::Inactive,
            failure_count: r.failure_count + 1,
            ..r
        },
        PeerStatus::Unknown => PeerRecordModel { status: PeerStatus::Unknown, ..r },
    }
}

/// Index of the first record whose `peer_id` equals `id` exactly, or -1 if
/// no record matches.
pub open spec fn peer_index(rs: Seq<PeerRecordModel>, id: Seq<char>) -> int
    decreases rs.len(),
{
    if rs.len() == 0 {
        -1
    } else if rs.first().peer_id == id {
        0
    } else {
        let rest = peer_index(rs.drop_first(), id);
        if rest < 0 {
            -1
        } else {
            rest + 1
        }
    }
}

/// Effect of `upsert`: the first matching record is replaced by
/// `apply_status` of itself; with no match, nothing changes.
pub open spec fn spec_upsert(
    rs: Seq<PeerRecordModel>,
    id: Seq<char>,
    status: PeerStatus,
    now: u64,
) -> Seq<PeerRecordModel> {
    let k = peer_index(rs, id);
    if k < 0 {
        rs
    } else {
        rs.update(k, apply_status(rs[k], status, now))
    }
}

/// `peer_index` returns either -1 or the index of the first match.
pub proof fn lemma_peer_index_props(rs: Seq<PeerRecordModel>, id: Seq<char>)
    ensures
        peer_index(rs, id) == -1 || (0 <= peer_index(rs, id) < rs.len()),
        peer_index(rs, id) >= 0 ==> rs[peer_index(rs, id)].peer_id == id,
        peer_index(rs, id) >= 0 ==> forall|j: int|
            0 <= j < peer_index(rs, id) ==> rs[j].peer_id != id,
        peer_index(rs, id) == -1 ==> forall|j: int| 0 <= j < rs.len() ==> rs[j].peer_id != id,
    decreases rs.len(),
{
    if rs.len() > 0 && rs.first().peer_id != id {
        lemma_peer_index_props(rs.drop_first(), id);
        assert(forall|j: int| 1 <= j < rs.len() ==> rs[j] == rs.drop_first()[j - 1]);
    }
}

/// If `rs[i]` matches and nothing before it does, then `i` is the first
/// match.
pub proof fn lemma_peer_index_at(rs: Seq<PeerRecordModel>, id: Seq<char>, i: int)
    requires
        0 <= i < rs.len(),
        rs[i].peer_id == id,
        forall|j: int| 0 <= j < i ==> rs[j].peer_id != id,
    ensures
        peer_index(rs, id) == i,
    decreases rs.len(),
{
    if i > 0 {
        assert(forall|j: int| 1 <= j < rs.len() ==> rs[j] == rs.drop_first()[j - 1]);
        lemma_peer_index_at(rs.drop_first(), id, i - 1);
    }
}

/// If no record matches, `peer_index` is -1.
pub proof fn lemma_peer_index_none(rs: Seq<PeerRecordModel>, id: Seq<char>)
    requires
        forall|j: int| 0 <= j < rs.len() ==> rs[j].peer_id != id,
    ensures
        peer_index(rs, id) == -1,
    decreases rs.len(),
{
    if rs.len() > 0 {
        assert(forall|j: int| 1 <= j < rs.len() ==> rs[j] == rs.drop_first()[j - 1]);
        lemma_peer_index_none(rs.drop_first(), id);
    }
}

/// The registry after a whole sequence of `upsert(id, status)` calls, one
/// `(status, now)` pair per call, applied in order.
pub open spec fn apply_upserts(
    rs: Seq<PeerRecordModel>,
    id: Seq<char>,
    calls: Seq<(PeerStatus, u64)>,
) -> Seq<PeerRecordModel>
    decreases calls.len(),
{
    if calls.len() == 0 {
        rs
    } else {
        apply_upserts(spec_upsert(rs, id, calls.first().0, calls.first().1), id, calls.drop_first())
    }
}

/// How many calls in the sequence apply a counting transition (to `Active`
/// or to `Inactive`); upserts to `Unknown` touch no counter.
pub open spec fn count_transitions(calls: Seq<(PeerStatus, u64)>) -> int
    decreases calls.len(),
{
    if calls.len() == 0 {
        0
    } else {
        (if calls.first().0 is Unknown {
            0int
        } else {
            1int
        }) + count_transitions(calls.drop_first())
    }
}

/// One upsert on a registered id rewrites exactly the first matching record
/// and leaves that record the first match.
pub proof fn lemma_upsert_step_at(rs: Seq<PeerRecordModel>, id: Seq<char>, status: PeerStatus, now: u64)
    requires
        peer_index(rs, id) >= 0,
    ensures
        spec_upsert(rs, id, status, now) == rs.update(
            peer_index(rs, id),
            apply_status(rs[peer_index(rs, id)], status, now),
        ),
        peer_index(spec_upsert(rs, id, status, now), id) == peer_index(rs, id),
{
    let k = peer_index(rs, id);
    lemma_peer_index_props(rs, id);
    let rs2 = rs.update(k, apply_status(rs[k], status, now));
    assert(rs2[k].peer_id == id);
    assert(forall|j: int| 0 <= j < k ==> rs2[j].peer_id != id);
    lemma_peer_index_at(rs2, id, k);
}

/// Law: against a registry pre-seeded with peer `id`, any sequence of
/// `upsert(id, status)` calls leaves every other record untouched, keeps the
/// registry's size, and leaves `success_count + failure_count` of the
/// seeded record grown by exactly the number of calls whose status was
/// `Active` or `Inactive` — repeated upserts to an unchanged status still
/// count, since the transition is re-applied on every call.
pub proof fn lemma_upsert_counter_sum(
    rs: Seq<PeerRecordModel>,
    id: Seq<char>,
    calls: Seq<(PeerStatus, u64)>,
)
    requires
        peer_index(rs, id) >= 0,
    ensures
        apply_upserts(rs, id, calls).len() == rs.len(),
        peer_index(apply_upserts(rs, id, calls), id) == peer_index(rs, id),
        forall|j: int|
            0 <= j < rs.len() && j != peer_index(rs, id) ==> apply_upserts(rs, id, calls)[j]
                == rs[j],
        apply_upserts(rs, id, calls)[peer_index(rs, id)].success_count + apply_upserts(
            rs,
            id,
            calls,
        )[peer_index(rs, id)].failure_count == rs[peer_index(rs, id)].success_count
            + rs[peer_index(rs, id)].failure_count + count_transitions(calls),
    decreases calls.len(),
{
    lemma_peer_index_props(rs, id);
    if calls.len() > 0 {
        let k = peer_index(rs, id);
        let st = calls.first().0;
        let at = calls.first().1;
        let rs1 = spec_upsert(rs, id, st, at);
        lemma_upsert_step_at(rs, id, st, at);
        assert(rs1[k] == apply_status(rs[k], st, at));
        assert(rs1[k].success_count + rs1[k].failure_count == rs[k].success_count
            + rs[k].failure_count + (if st is Unknown {
            0int
        } else {
            1int
        })) by {
            match st {
                PeerStatus::Unknown => {},
                PeerStatus::Active => {},
                PeerStatus::Inactive => {},
            }
        }
        lemma_upsert_counter_sum(rs1, id, calls.drop_first());
        assert forall|j: int| 0 <= j < rs.len() && j != k implies apply_upserts(rs, id, calls)[j]
            == rs[j] by {
            assert(rs1[j] == rs[j]);
            assert(apply_upserts(rs, id, calls) == apply_upserts(rs1, id, calls.drop_first()));
        }
    }
}

/// Law: `upsert` on an unregistered `peer_id` is a no-op — a registry with
/// no record for `id` is unchanged by any sequence of `upsert(id, status)`
/// calls; in particular its size never grows from `upsert` calls alone.
pub proof fn lemma_upsert_unregistered_noop(
    rs: Seq<PeerRecordModel>,
    id: Seq<char>,
    calls: Seq<(PeerStatus, u64)>,
)
    requires
        peer_index(rs, id) == -1,
    ensures
        apply_upserts(rs, id, calls) == rs,
    decreases calls.len(),
{
    if calls.len() > 0 {
        lemma_upsert_unregistered_noop(rs, id, calls.drop_first());
    }
}

/// Law: a single `upsert` never changes the registry's size, registered or
/// not.
pub proof fn lemma_upsert_preserves_size(
    rs: Seq<PeerRecordModel>,
    id: Seq<char>,
    status: PeerStatus,
    now: u64,
)
    ensures
        spec_upsert(rs, id, status, now).len() == rs.len(),
{
    lemma_peer_index_props(rs, id);
}

/// Counters are below the machine limit, so one more transition fits.
pub open spec fn counters_ok(rs: Seq<PeerRecordModel>) -> bool {
    forall|i: int|
        0 <= i < rs.len() ==> (#[trigger] rs[i]).success_count < u32::MAX
            && rs[i].failure_count < u32::MAX
}

/// In-memory table of known bootstrap peers, keyed by exact `peer_id`
/// equality, in registration order.
pub struct Registry {
    records: Vec<PeerRecord>,
}

impl View for Registry {
    type V = Seq<PeerRecordModel>;

    closed spec fn view(&self) -> Seq<PeerRecordModel> {
        self.records@.map_values(|r: PeerRecord| r@)
    }
}

/// The full ordered set of records together with a freshly stamped
/// `last_updated` time; replaces any prior on-disk snapshot wholesale.
pub struct RegistrySnapshot {
    pub records: Vec<PeerRecord>,
    pub last_updated: u64,
}

impl Registry {
    pub fn new() -> (r: Registry)
        ensures
            r@ == Seq::<PeerRecordModel>::empty(),
    {
        Registry { records: Vec::new() }
    }

    pub fn len(&self) -> (n: usize)
        ensures
            n == self@.len(),
    {
        self.records.len()
    }

    /// Pre-seed one peer from the bootstrap list. Peers never enter the
    /// registry any other way.
    pub fn register(&mut self, address: String, peer_id: String)
        ensures
            final(self)@ == old(self)@.push(PeerRecord::spec_seeded(address@, peer_id@)),
    {
        let rec = PeerRecord::seeded(address, peer_id);
        self.records.push(rec);
        proof {
            assert(final(self)@ =~= old(self)@.push(
                PeerRecord::spec_seeded(rec.address@, rec.peer_id@),
            ));
        }
    }

    /// Update the first record whose `peer_id` equals the argument, exactly
    /// as `apply_status` says; with no matching record the call is a no-op
    /// (peers are never added reactively).
    pub fn upsert(&mut self, peer_id: &String, status: PeerStatus, now: u64)
        requires
            counters_ok(old(self)@),
        ensures
            final(self)@ == spec_upsert(old(self)@, peer_id@, status, now),
    {
        let n = self.records.len();
        let mut i: usize = 0;
        while i < n
            invariant
                n == self.records.len(),
                0 <= i <= n,
                *self == *old(self),
                counters_ok(self@),
                forall|j: int| 0 <= j < i ==> self@[j].peer_id != peer_id@,
            decreases n - i,
        {
            if self.records[i].peer_id == *peer_id {
                let updated = match status {
                    PeerStatus::Active => PeerRecord {
                        address: self.records[i].address.clone(),
                        peer_id: self.records[i].peer_id.clone(),
                        status: PeerStatus::Active,
                        last_seen: Some(now),
                        response_time: self.records[i].response_time,
                        success_count: self.records[i].success_count + 1,
                        failure_count: self.records[i].failure_count,
                    },
                    PeerStatus::Inactive => PeerRecord {
                        address: self.records[i].address.clone(),
                        peer_id: self.records[i].peer_id.clone(),
                        status: PeerStatus::Inactive,
                        last_seen: self.records[i].last_seen,
                        response_time: self.records[i].response_time,
                        success_count: self.records[i].success_count,
                        failure_count: self.records[i].failure_count + 1,
                    },
                    PeerStatus::Unknown => PeerRecord {
                        address: self.records[i].address.clone(),
                        peer_id: self.records[i].peer_id.clone(),
                        status: PeerStatus::Unknown,
                        last_seen: self.records[i].last_seen,
                        response_time: self.records[i].response_time,
                        success_count: self.records[i].success_count,
                        failure_count: self.records[i].failure_count,
                    },
                };
                proof {
                    lemma_peer_index_at(old(self)@, peer_id@, i as int);
                    assert(updated@ == apply_status(old(self)@[i as int], status, now));
                }
                self.records[i] = updated;
                proof {
                    assert(final(self)@ =~= spec_upsert(old(self)@, peer_id@, status, now));
                }
                return ;
            }
            i += 1;
        }
        proof {
            lemma_peer_index_none(self@, peer_id@);
        }
    }

    /// The full ordered record list, stamped with the given time.
    pub fn snapshot(&self, now: u64) -> (s: RegistrySnapshot)
        ensures
            s.records@.map_values(|r: PeerRecord| r@) == self@,
            s.last_updated == now,
    {
        let mut copies: Vec<PeerRecord> = Vec::new();
        let n = self.records.len();
        let mut i: usize = 0;
        while i < n
            invariant
                n == self.records.len(),
                0 <= i <= n,
                copies@.map_values(|r: PeerRecord| r@) =~= self@.take(i as int),
            decreases n - i,
        {
            let rec = self.records[i].duplicate();
            let ghost prev = copies@;
            copies.push(rec);
            proof {
                prev.lemma_push_map_commute(|r: PeerRecord| r@, rec);
                assert(self@.take(i + 1) =~= self@.take(i as int).push(self@[i as int]));
                assert(copies@.map_values(|r: PeerRecord| r@) =~= self@.take(i + 1));
            }
            i += 1;
        }
        proof {
            assert(copies@.map_values(|r: PeerRecord| r@) =~= self@);
        }
        RegistrySnapshot { records: copies, last_updated: now }
    }

    /// Read access to the record list, for reporting.
    pub fn records(&self) -> (r: &Vec<PeerRecord>)
        ensures
            r@.map_values(|rec: PeerRecord| rec@) == self@,
    {
        &self.records
    }
}

} // verus!
