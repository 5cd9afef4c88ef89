use vstd::prelude::*;

verus! {

/// Identifies one participant: a group index and a sequence number within
/// the group. Unique per worker and stable for its lifetime; it is the join
/// key between worker-side state and the arbiter's tables.
#[derive(PartialEq, Eq, Structural, Clone, Copy, Debug)]
pub struct ParticipantId {
    pub group: u32,
    pub index: u32,
}

/// One progress report: sent by a worker each time it attempts a stage.
/// `points` is the worker's point total at the moment of the attempt, in
/// fixed-point units chosen by the caller.
#[derive(PartialEq, Eq, Structural, Clone, Copy, Debug)]
pub struct ProgressMessage {
    pub id: ParticipantId,
    pub stage_index: u32,
    pub points: u64,
}

/// What arrives on the arbiter's shared inbound channel: either a progress
/// report from some worker, or the out-of-band shutdown tag that the
/// coordinator sends once every worker has finished.
#[derive(PartialEq, Eq, Structural, Clone, Copy, Debug)]
pub enum InboundMessage {
    Progress(ProgressMessage),
    Shutdown,
}

/// Fatal protocol conditions.
///
/// `UnknownParticipant` and `DuplicateParticipant` indicate a setup bug
/// (an id without a record, or a registry configured with a repeated id).
/// `InboundClosed` and `ReplyChannelClosed` mean a peer disappeared while
/// the arbiter still needed its channel.
#[derive(PartialEq, Eq, Structural, Clone, Copy, Debug)]
pub enum ProtocolError {
    UnknownParticipant,
    DuplicateParticipant,
    InboundClosed,
    ReplyChannelClosed,
}

/// The arbiter's per-participant record: the point value observed at each
/// attempt (index 0 is the initial value), plus a tally of the verdicts the
/// arbiter has issued for this participant. `history` is append-only.
#[derive(Debug)]
pub struct ParticipantRecord {
    pub id: ParticipantId,
    pub history: Vec<u64>,
    pub passes: u32,
    pub fails: u32,
}

} // verus!
