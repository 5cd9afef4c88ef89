use vstd::prelude::*;

use crate::channels::{recv_inbound, send_verdict};
use crate::messages::{InboundMessage, ParticipantId, ParticipantRecord, ProgressMessage,
    ProtocolError};
use crate::stats::{aggregate_records, spec_aggregate, GroupStats};

verus! {

/// Probability thresholds handed to the arbiter are measured against this
/// scale: a threshold of `PROB_SCALE` or more passes every draw, a
/// threshold of 0 passes none.
pub const PROB_SCALE: u64 = 1_000_000;

/// The pass/fail policy: converts an attempt (current points, stage index)
/// into a pass threshold on the `PROB_SCALE` scale. The numeric formula is
/// deliberately a replaceable strategy, injected by the caller; the
/// coordination protocol does not depend on its shape.
pub trait PassPolicy {
    fn threshold(&self, points: u64, stage_index: u32) -> u64;
}

/// A policy with a fixed threshold, whatever the attempt looks like.
/// `PROB_SCALE` makes every attempt pass; 0 makes every attempt fail.
#[derive(PartialEq, Eq, Structural, Clone, Copy, Debug)]
pub struct ConstPolicy {
    pub threshold_raw: u64,
}

impl PassPolicy for ConstPolicy {
    fn threshold(&self, _points: u64, _stage_index: u32) -> u64 {
        self.threshold_raw
    }
}

/// Relies on rand::random_range: a uniform draw from `[0, bound)`; it
/// panics on an empty range, which the precondition rules out.
#[verifier::external_body]
fn draw_below(bound: u64) -> (r: u64)
    requires
        1 <= bound,
    ensures
        r < bound,
{
    rand::random_range(0..bound)
}

/// One entry of the reply registry: the private channel on which the
/// arbiter answers participant `id`, and nobody else.
pub struct ReplyEntry {
    pub id: ParticipantId,
    pub tx: crossbeam::channel::Sender<bool>,
}

/// The arbiter's exclusive state: the reply registry and the records
/// table, kept in step (entry `i` of both belongs to the same participant),
/// plus the run's fixed configuration.
pub struct ArbiterTables {
    pub stage_count: u32,
    pub max_tries: u32,
    pub group_count: u32,
    pub records: Vec<ParticipantRecord>,
    pub registry: Vec<ReplyEntry>,
}

impl ArbiterTables {
    /// Well-formedness of one record under this configuration.
    pub open spec fn record_wf(self, r: ParticipantRecord) -> bool {
        &&& r.history@.len() >= 1
        &&& r.passes <= self.stage_count
        &&& r.fails <= self.max_tries
        &&& !(r.passes == self.stage_count && r.fails == self.max_tries)
        &&& r.id.group < self.group_count
    }

    /// Well-formedness: a run needs at least one stage and one try; the
    /// registry and the records table have the same participants in the
    /// same order; ids are unique; every record is well-formed.
    pub open spec fn wf(self) -> bool {
        &&& 1 <= self.stage_count
        &&& 1 <= self.max_tries
        &&& self.registry@.len() == self.records@.len()
        &&& forall|i: int|
            0 <= i < self.records@.len() ==> self.registry@[i].id == self.records@[i].id
        &&& forall|i: int, j: int|
            0 <= i < j < self.records@.len() ==> self.records@[i].id != self.records@[j].id
        &&& forall|i: int| 0 <= i < self.records@.len() ==> self.record_wf(#[trigger] self.records@[i])
    }

    /// Whether some record belongs to `id`.
    pub open spec fn has_participant(self, id: ParticipantId) -> bool {
        exists|i: int| 0 <= i < self.records@.len() && #[trigger] self.records@[i].id == id
    }

    /// A record that has neither graduated nor exhausted its trial budget;
    /// only such records are still updated by verdicts.
    pub open spec fn in_progress(self, r: ParticipantRecord) -> bool {
        r.passes < self.stage_count && r.fails < self.max_tries
    }

    /// Empty tables for a run with the given configuration.
    pub fn new(stage_count: u32, max_tries: u32, group_count: u32) -> (t: ArbiterTables)
        requires
            1 <= stage_count,
            1 <= max_tries,
        ensures
            t.wf(),
            t.stage_count == stage_count,
            t.max_tries == max_tries,
            t.group_count == group_count,
            t.records@.len() == 0,
            t.registry@.len() == 0,
    {
        ArbiterTables {
            stage_count,
            max_tries,
            group_count,
            records: Vec::new(),
            registry: Vec::new(),
        }
    }

    /// The index of `id`'s record, if any. With unique ids this is the one
    /// place in the tables that speaks for `id`.
    pub fn find_participant(&self, id: ParticipantId) -> (r: Option<usize>)
        requires
            self.wf(),
        ensures
            match r {
                Some(i) => i < self.records@.len() && self.records@[i as int].id == id,
                None => !self.has_participant(id),
            },
    {
        let mut i: usize = 0;
        while i < self.records.len()
            invariant
                i <= self.records@.len(),
                forall|j: int| 0 <= j < i ==> #[trigger] self.records@[j].id != id,
            decreases self.records@.len() - i,
        {
            let r = &self.records[i];
            if r.id == id {
                return Some(i);
            }
            i = i + 1;
        }
        None
    }

    /// Wire one participant in before the run starts: one fresh record
    /// (history holding only the initial point value) and one registry
    /// entry. A repeated id is refused, never silently overwritten.
    pub fn register(
        &mut self,
        id: ParticipantId,
        tx: crossbeam::channel::Sender<bool>,
        initial_points: u64,
    ) -> (r: Result<(), ProtocolError>)
        requires
            old(self).wf(),
            id.group < old(self).group_count,
        ensures
            final(self).wf(),
            final(self).stage_count == old(self).stage_count,
            final(self).max_tries == old(self).max_tries,
            final(self).group_count == old(self).group_count,
            r is Ok <==> !old(self).has_participant(id),
            match r {
                Ok(_) => {
                    &&& final(self).records@.len() == old(self).records@.len() + 1
                    &&& final(self).registry@.len() == old(self).registry@.len() + 1
                    &&& forall|j: int|
                        0 <= j < old(self).records@.len() ==> final(self).records@[j] == old(
                            self,
                        ).records@[j] && final(self).registry@[j] == old(self).registry@[j]
                    &&& final(self).records@.last().id == id
                    &&& final(self).records@.last().history@ =~= seq![initial_points]
                    &&& final(self).records@.last().passes == 0
                    &&& final(self).records@.last().fails == 0
                    &&& final(self).registry@.last().id == id
                    &&& final(self).registry@.last().tx == tx
                    &&& final(self).has_participant(id)
                },
                Err(e) => {
                    &&& e == ProtocolError::DuplicateParticipant
                    &&& *final(self) == *old(self)
                },
            },
    {
        match self.find_participant(id) {
            Some(_) => Err(ProtocolError::DuplicateParticipant),
            None => {
                let mut history: Vec<u64> = Vec::new();
                history.push(initial_points);
                self.records.push(ParticipantRecord { id, history, passes: 0, fails: 0 });
                self.registry.push(ReplyEntry { id, tx });
                proof {
                    let n: int = self.records@.len() - 1;
                    assert(self.records@[n].id == id);
                }
                Ok(())
            },
        }
    }

    /// Apply one progress message together with the verdict issued for it:
    /// append the reported points to exactly that participant's history and
    /// tally the verdict while the participant is still in progress. The
    /// returned index is the place of `msg.id` in both tables, so the reply
    /// goes out on that participant's own channel. A message whose id has
    /// no record is a setup bug and is refused.
    pub fn apply_event(&mut self, msg: ProgressMessage, passed: bool) -> (r: Result<
        usize,
        ProtocolError,
    >)
        requires
            old(self).wf(),
        ensures
            final(self).wf(),
            final(self).stage_count == old(self).stage_count,
            final(self).max_tries == old(self).max_tries,
            final(self).group_count == old(self).group_count,
            final(self).registry == old(self).registry,
            final(self).records@.len() == old(self).records@.len(),
            r is Ok <==> old(self).has_participant(msg.id),
            match r {
                Ok(i) => {
                    &&& i < final(self).records@.len()
                    &&& final(self).records@[i as int].id == msg.id
                    &&& final(self).registry@[i as int].id == msg.id
                    &&& final(self).records@[i as int].history@ == old(self).records@[
                        i as int
                    ].history@.push(msg.points)
                    &&& final(self).records@[i as int].passes == (if old(self).in_progress(
                        old(self).records@[i as int],
                    ) && passed {
                        old(self).records@[i as int].passes + 1
                    } else {
                        old(self).records@[i as int].passes as int
                    })
                    &&& final(self).records@[i as int].fails == (if old(self).in_progress(
                        old(self).records@[i as int],
                    ) && !passed {
                        old(self).records@[i as int].fails + 1
                    } else {
                        old(self).records@[i as int].fails as int
                    })
                    &&& forall|j: int|
                        0 <= j < final(self).records@.len() && j != i ==> final(self).records@[j]
                            == old(self).records@[j]
                },
                Err(e) => {
                    &&& e == ProtocolError::UnknownParticipant
                    &&& *final(self) == *old(self)
                },
            },
    {
        match self.find_participant(msg.id) {
            None => Err(ProtocolError::UnknownParticipant),
            Some(i) => {
                let ghost before = self.records@;
                let mut rec = self.records.remove(i);
                rec.history.push(msg.points);
                if rec.passes < self.stage_count && rec.fails < self.max_tries {
                    if passed {
                        rec.passes = rec.passes + 1;
                    } else {
                        rec.fails = rec.fails + 1;
                    }
                }
                self.records.insert(i, rec);
                proof {
                    assert(self.records@ =~= before.update(i as int, rec));
                    assert(self.has_participant(msg.id)) by {
                        assert(self.records@[i as int].id == msg.id);
                    }
                }
                Ok(i)
            },
        }
    }

    /// Statistics over the frozen records table, per group. The result is
    /// pinned to `spec_aggregate`, so aggregating twice yields identical
    /// statistics.
    pub fn aggregate(&self) -> (stats: Vec<GroupStats>)
        ensures
            stats@ == spec_aggregate(self.records@, self.stage_count, self.max_tries,
                self.group_count),
    {
        aggregate_records(&self.records, self.stage_count, self.max_tries, self.group_count)
    }

    /// The body of the arbiter's event loop: take exactly one inbound
    /// message and handle it. For a progress report, the points are
    /// appended to the sender's history, a verdict is drawn against the
    /// injected policy's threshold, and the verdict is sent back on that
    /// participant's own reply channel -- all before the next message is
    /// read. The surrounding task repeats this until `ShutdownSeen` and
    /// only then aggregates, so every message queued ahead of the shutdown
    /// tag is drained into the records first.
    ///
    /// Whatever arrives, histories only grow (each old history stays a
    /// prefix of the new one), no record is created or dropped, and the
    /// registry is untouched. A step that handled a progress report changes
    /// exactly one record; the shutdown tag changes nothing.
    pub fn serve_one<P: PassPolicy>(
        &mut self,
        rx: &crossbeam::channel::Receiver<InboundMessage>,
        policy: &P,
    ) -> (r: Result<ServeOutcome, ProtocolError>)
        requires
            old(self).wf(),
        ensures
            final(self).wf(),
            final(self).stage_count == old(self).stage_count,
            final(self).max_tries == old(self).max_tries,
            final(self).group_count == old(self).group_count,
            final(self).registry == old(self).registry,
            final(self).records@.len() == old(self).records@.len(),
            forall|j: int|
                0 <= j < old(self).records@.len() ==> final(self).records@[j].id == old(
                    self,
                ).records@[j].id && old(self).records@[j].history@.is_prefix_of(
                    final(self).records@[j].history@,
                ),
            r == Ok::<ServeOutcome, ProtocolError>(ServeOutcome::ShutdownSeen) ==> *final(self)
                == *old(self),
            r == Ok::<ServeOutcome, ProtocolError>(ServeOutcome::Progressed) || r == Err::<
                ServeOutcome,
                ProtocolError,
            >(ProtocolError::ReplyChannelClosed) ==> progressed_by_one(*old(self), *final(self)),
            r matches Err(e) ==> (e == ProtocolError::InboundClosed || e
                == ProtocolError::UnknownParticipant) ==> *final(self) == *old(self),
    {
        match recv_inbound(rx) {
            None => Err(ProtocolError::InboundClosed),
            Some(InboundMessage::Shutdown) => Ok(ServeOutcome::ShutdownSeen),
            Some(InboundMessage::Progress(m)) => {
                let t = policy.threshold(m.points, m.stage_index);
                let d = draw_below(PROB_SCALE);
                let passed = d < t;
                match self.apply_event(m, passed) {
                    Err(e) => Err(e),
                    Ok(i) => {
                        proof {
                            lemma_one_record_grew(*old(self), *self, i as int, m.points);
                        }
                        let entry = &self.registry[i];
                        if send_verdict(&entry.tx, passed) {
                            Ok(ServeOutcome::Progressed)
                        } else {
                            Err(ProtocolError::ReplyChannelClosed)
                        }
                    },
                }
            },
        }
    }
}

/// What one handled progress report leaves behind: exactly one record got
/// exactly one point value appended, everything else is as it was.
pub open spec fn progressed_by_one(pre: ArbiterTables, post: ArbiterTables) -> bool {
    exists|i: int|
        {
            &&& 0 <= i < pre.records@.len()
            &&& (#[trigger] post.records@[i]).id == pre.records@[i].id
            &&& (exists|p: u64| post.records@[i].history@ == pre.records@[i].history@.push(p))
            &&& forall|j: int|
                0 <= j < pre.records@.len() && j != i ==> post.records@[j] == pre.records@[j]
        }
}

/// Histories are append-only. A fresh record's history holds exactly the
/// initial point value, and one handled progress report appends exactly
/// one entry to exactly one history; so after a participant's n-th attempt
/// its history has 1 + n entries, and no history ever shrinks.
pub proof fn lemma_history_append_only(pre: ArbiterTables, post: ArbiterTables)
    requires
        pre.records@.len() == post.records@.len(),
        progressed_by_one(pre, post),
    ensures
        forall|j: int|
            0 <= j < pre.records@.len() ==> pre.records@[j].history@.len() <= post.records@[
                j
            ].history@.len(),
        exists|i: int|
            0 <= i < pre.records@.len() && (#[trigger] post.records@[i]).history@.len()
                == pre.records@[i].history@.len() + 1,
{
    let i = choose|i: int|
        {
            &&& 0 <= i < pre.records@.len()
            &&& (#[trigger] post.records@[i]).id == pre.records@[i].id
            &&& (exists|p: u64| post.records@[i].history@ == pre.records@[i].history@.push(p))
            &&& forall|j: int|
                0 <= j < pre.records@.len() && j != i ==> post.records@[j] == pre.records@[j]
        };
    let p = choose|p: u64| post.records@[i].history@ == pre.records@[i].history@.push(p);
    assert(post.records@[i].history@.len() == pre.records@[i].history@.len() + 1);
}

/// Every sequence is a prefix of itself.
proof fn lemma_prefix_refl(a: Seq<u64>)
    ensures
        a.is_prefix_of(a),
{
    assert(a.subrange(0, a.len() as int) =~= a);
}

/// Appending keeps the original sequence a prefix.
proof fn lemma_prefix_push(a: Seq<u64>, p: u64)
    ensures
        a.is_prefix_of(a.push(p)),
{
    assert(a.push(p).subrange(0, a.len() as int) =~= a);
}

/// After `apply_event` appended to record `i`, the step's framing facts
/// hold: record `i` grew by the one point value, the others kept their
/// histories, and every old history is a prefix of its new one.
proof fn lemma_one_record_grew(pre: ArbiterTables, post: ArbiterTables, i: int, p: u64)
    requires
        pre.records@.len() == post.records@.len(),
        0 <= i < post.records@.len(),
        post.records@[i].id == pre.records@[i].id,
        post.records@[i].history@ == pre.records@[i].history@.push(p),
        forall|j: int|
            0 <= j < post.records@.len() && j != i ==> post.records@[j] == pre.records@[j],
    ensures
        progressed_by_one(pre, post),
        forall|j: int|
            0 <= j < pre.records@.len() ==> post.records@[j].id == pre.records@[j].id
                && pre.records@[j].history@.is_prefix_of(post.records@[j].history@),
{
    assert(post.records@[i].history@ == pre.records@[i].history@.push(p));
    assert(progressed_by_one(pre, post));
    assert forall|j: int|
        0 <= j < pre.records@.len() implies post.records@[j].id == pre.records@[j].id
        && pre.records@[j].history@.is_prefix_of(post.records@[j].history@) by {
        if j == i {
            lemma_prefix_push(pre.records@[j].history@, p);
        } else {
            lemma_prefix_refl(pre.records@[j].history@);
        }
    }
}

/// The arbiter's answer after one event-loop step: either a progress
/// report was handled or the shutdown tag was seen.
#[derive(PartialEq, Eq, Structural, Clone, Copy, Debug)]
pub enum ServeOutcome {
    Progressed,
    ShutdownSeen,
}

/// Id-keyed delivery is exact: under well-formedness each participant id
/// owns at most one registry entry, so a reply routed by id can only reach
/// that participant's channel.
pub proof fn lemma_reply_routing_unique(t: ArbiterTables, i: int, j: int)
    requires
        t.wf(),
        0 <= i < t.registry@.len(),
        0 <= j < t.registry@.len(),
        t.registry@[i].id == t.registry@[j].id,
    ensures
        i == j,
{
    assert(t.registry@[i].id == t.records@[i].id);
    assert(t.registry@[j].id == t.records@[j].id);
}

} // verus!
