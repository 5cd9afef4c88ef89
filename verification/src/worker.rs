use vstd::prelude::*;

use crate::messages::{ParticipantId, ProgressMessage};

verus! {

/// Where a worker stands in its lifecycle. `Studying` and `AwaitingVerdict`
/// alternate until one of the two terminal phases is reached.
#[derive(PartialEq, Eq, Structural, Clone, Copy, Debug)]
pub enum Phase {
    Studying,
    AwaitingVerdict,
    Graduated,
    DroppedOut,
}

/// `a + b`, clamped to `u64::MAX`.
pub open spec fn clamped_add(a: u64, b: u64) -> u64 {
    if a + b <= u64::MAX {
        (a + b) as u64
    } else {
        u64::MAX
    }
}

/// The per-participant state machine: a worker climbs `stage_count` stages,
/// spending one try for every failed attempt, out of a budget of
/// `max_tries`. The surrounding task drives it: each round it reports an
/// attempt (`begin_attempt`), sends the resulting message to the arbiter,
/// and feeds the arbiter's verdict back in (`receive_verdict`).
#[derive(PartialEq, Eq, Structural, Clone, Copy, Debug)]
pub struct Worker {
    pub id: ParticipantId,
    pub stage_count: u32,
    pub max_tries: u32,
    pub stage_index: u32,
    pub tries_left: u32,
    pub points: u64,
    pub phase: Phase,
}

impl Worker {
    /// Well-formedness: the stage index and the trial budget stay in range,
    /// each terminal phase holds exactly when its condition does, and the
    /// two terminal conditions never hold at once.
    pub open spec fn wf(self) -> bool {
        &&& 1 <= self.stage_count
        &&& 1 <= self.max_tries
        &&& self.stage_index <= self.stage_count
        &&& self.tries_left <= self.max_tries
        &&& (self.phase == Phase::Graduated <==> self.stage_index == self.stage_count)
        &&& (self.phase == Phase::DroppedOut <==> self.tries_left == 0)
        &&& !(self.stage_index == self.stage_count && self.tries_left == 0)
    }

    /// A fresh worker: at the first stage, with its full trial budget and
    /// its starting point value.
    pub fn new(id: ParticipantId, initial_points: u64, stage_count: u32, max_tries: u32) -> (w:
        Worker)
        requires
            1 <= stage_count,
            1 <= max_tries,
        ensures
            w == (Worker {
                id,
                stage_count,
                max_tries,
                stage_index: 0,
                tries_left: max_tries,
                points: initial_points,
                phase: Phase::Studying,
            }),
            w.wf(),
    {
        Worker {
            id,
            stage_count,
            max_tries,
            stage_index: 0,
            tries_left: max_tries,
            points: initial_points,
            phase: Phase::Studying,
        }
    }

    /// One study round: credit the gained points (clamped at `u64::MAX`)
    /// and produce the progress message to send, then wait for the verdict.
    pub fn begin_attempt(&mut self, gain: u64) -> (msg: ProgressMessage)
        requires
            old(self).wf(),
            old(self).phase == Phase::Studying,
        ensures
            final(self).wf(),
            final(self).phase == Phase::AwaitingVerdict,
            final(self).points == clamped_add(old(self).points, gain),
            final(self).id == old(self).id,
            final(self).stage_index == old(self).stage_index,
            final(self).tries_left == old(self).tries_left,
            final(self).stage_count == old(self).stage_count,
            final(self).max_tries == old(self).max_tries,
            msg == (ProgressMessage {
                id: old(self).id,
                stage_index: old(self).stage_index,
                points: clamped_add(old(self).points, gain),
            }),
    {
        self.points = if gain <= u64::MAX - self.points {
            self.points + gain
        } else {
            u64::MAX
        };
        self.phase = Phase::AwaitingVerdict;
        ProgressMessage { id: self.id, stage_index: self.stage_index, points: self.points }
    }

    /// Apply one verdict. A pass advances the stage by exactly one and never
    /// touches the trial budget; a fail consumes exactly one try and never
    /// moves the stage. The worker graduates when the last stage is passed
    /// and drops out when the budget is exhausted; otherwise it studies on.
    pub fn receive_verdict(&mut self, passed: bool)
        requires
            old(self).wf(),
            old(self).phase == Phase::AwaitingVerdict,
        ensures
            final(self).wf(),
            final(self).id == old(self).id,
            final(self).stage_count == old(self).stage_count,
            final(self).max_tries == old(self).max_tries,
            final(self).points == old(self).points,
            passed ==> final(self).stage_index == old(self).stage_index + 1
                && final(self).tries_left == old(self).tries_left,
            !passed ==> final(self).stage_index == old(self).stage_index
                && final(self).tries_left == old(self).tries_left - 1,
            final(self).phase == (if passed && old(self).stage_index + 1 == old(self).stage_count {
                Phase::Graduated
            } else if !passed && old(self).tries_left == 1 {
                Phase::DroppedOut
            } else {
                Phase::Studying
            }),
    {
        if passed {
            self.stage_index = self.stage_index + 1;
            if self.stage_index == self.stage_count {
                self.phase = Phase::Graduated;
            } else {
                self.phase = Phase::Studying;
            }
        } else {
            self.tries_left = self.tries_left - 1;
            if self.tries_left == 0 {
                self.phase = Phase::DroppedOut;
            } else {
                self.phase = Phase::Studying;
            }
        }
    }

    /// Whether the worker has reached a terminal phase and must stop
    /// sending messages.
    pub fn is_done(&self) -> (done: bool)
        ensures
            done == (self.phase == Phase::Graduated || self.phase == Phase::DroppedOut),
    {
        self.phase == Phase::Graduated || self.phase == Phase::DroppedOut
    }
}

/// A well-formed worker terminates in at most one of the two terminal
/// phases: graduation leaves trial budget to spare, dropping out happens
/// strictly before the last stage, and the two exit conditions are never
/// satisfied together. The trial budget never goes below zero.
pub proof fn lemma_terminal_exclusive(w: Worker)
    requires
        w.wf(),
    ensures
        w.tries_left >= 0,
        w.phase == Phase::Graduated ==> w.tries_left > 0,
        w.phase == Phase::DroppedOut ==> w.stage_index < w.stage_count,
        !(w.phase == Phase::Graduated && w.phase == Phase::DroppedOut),
{
}

} // verus!
