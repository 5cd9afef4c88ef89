use vstd::prelude::*;

use vstd::arithmetic::div_mod::{lemma_div_is_ordered, lemma_div_multiples_vanish};
use vstd::arithmetic::mul::lemma_mul_inequality;

use crate::messages::ParticipantRecord;

verus! {

/// A participant graduated: the arbiter has issued one passing verdict per
/// stage.
pub open spec fn spec_graduated(r: ParticipantRecord, stage_count: u32) -> bool {
    r.passes >= stage_count
}

/// A participant dropped out: its trial budget is exhausted and it never
/// completed the stage sequence.
pub open spec fn spec_dropped(r: ParticipantRecord, stage_count: u32, max_tries: u32) -> bool {
    r.fails >= max_tries && r.passes < stage_count
}

/// How many records belong to group `g`.
pub open spec fn count_group(s: Seq<ParticipantRecord>, g: u32) -> nat
    decreases s.len(),
{
    if s.len() == 0 {
        0
    } else {
        count_group(s.drop_last(), g) + if s.last().id.group == g {
            1nat
        } else {
            0nat
        }
    }
}

/// How many records in group `g` graduated.
pub open spec fn count_graduated(s: Seq<ParticipantRecord>, g: u32, stage_count: u32) -> nat
    decreases s.len(),
{
    if s.len() == 0 {
        0
    } else {
        count_graduated(s.drop_last(), g, stage_count) + if s.last().id.group == g
            && spec_graduated(s.last(), stage_count) {
            1nat
        } else {
            0nat
        }
    }
}

/// How many records in group `g` dropped out.
pub open spec fn count_dropped(s: Seq<ParticipantRecord>, g: u32, stage_count: u32, max_tries: u32) -> nat
    decreases s.len(),
{
    if s.len() == 0 {
        0
    } else {
        count_dropped(s.drop_last(), g, stage_count, max_tries) + if s.last().id.group == g
            && spec_dropped(s.last(), stage_count, max_tries) {
            1nat
        } else {
            0nat
        }
    }
}

/// `dropped` out of `total`, as a percentage rounded down; 0 for an empty
/// group.
pub open spec fn spec_percent(dropped: nat, total: nat) -> nat {
    if total == 0 {
        0
    } else {
        dropped * 100 / total
    }
}

/// Final statistics for one group of participants.
#[derive(PartialEq, Eq, Structural, Clone, Copy, Debug)]
pub struct GroupStats {
    pub group: u32,
    pub total: u64,
    pub graduated: u64,
    pub dropped_out: u64,
    pub dropout_percent: u64,
}

/// The statistics owed for group `g` over a frozen records table.
pub open spec fn spec_group_stats(
    s: Seq<ParticipantRecord>,
    g: u32,
    stage_count: u32,
    max_tries: u32,
) -> GroupStats {
    GroupStats {
        group: g,
        total: count_group(s, g) as u64,
        graduated: count_graduated(s, g, stage_count) as u64,
        dropped_out: count_dropped(s, g, stage_count, max_tries) as u64,
        dropout_percent: spec_percent(
            count_dropped(s, g, stage_count, max_tries),
            count_group(s, g),
        ) as u64,
    }
}

/// The full aggregate: one entry per group index, in group order.
pub open spec fn spec_aggregate(
    s: Seq<ParticipantRecord>,
    stage_count: u32,
    max_tries: u32,
    group_count: u32,
) -> Seq<GroupStats> {
    Seq::new(group_count as nat, |g: int| spec_group_stats(s, g as u32, stage_count, max_tries))
}

/// Every count is bounded by the table's size, and the graduated and
/// dropped counts of a group never exceed that group's population.
pub proof fn lemma_counts_bounded(
    s: Seq<ParticipantRecord>,
    g: u32,
    stage_count: u32,
    max_tries: u32,
)
    ensures
        count_group(s, g) <= s.len(),
        count_graduated(s, g, stage_count) <= count_group(s, g),
        count_dropped(s, g, stage_count, max_tries) <= count_group(s, g),
    decreases s.len(),
{
    if s.len() > 0 {
        lemma_counts_bounded(s.drop_last(), g, stage_count, max_tries);
    }
}

/// Aggregation is a pure function of the frozen records table: aggregating
/// the same table twice yields identical statistics.
pub proof fn lemma_aggregate_deterministic(
    s1: Seq<ParticipantRecord>,
    s2: Seq<ParticipantRecord>,
    stage_count: u32,
    max_tries: u32,
    group_count: u32,
)
    requires
        s1 == s2,
    ensures
        spec_aggregate(s1, stage_count, max_tries, group_count) == spec_aggregate(
            s2,
            stage_count,
            max_tries,
            group_count,
        ),
{
}

/// Statistics for one group, computed in a single pass over the table.
pub fn group_stats_for(
    records: &Vec<ParticipantRecord>,
    g: u32,
    stage_count: u32,
    max_tries: u32,
) -> (st: GroupStats)
    ensures
        st == spec_group_stats(records@, g, stage_count, max_tries),
{
    let ghost s = records@;
    let mut total: usize = 0;
    let mut graduated: usize = 0;
    let mut dropped: usize = 0;
    let mut i: usize = 0;
    while i < records.len()
        invariant
            i <= s.len(),
            s == records@,
            total == count_group(s.subrange(0, i as int), g),
            graduated == count_graduated(s.subrange(0, i as int), g, stage_count),
            dropped == count_dropped(s.subrange(0, i as int), g, stage_count, max_tries),
        decreases s.len() - i,
    {
        proof {
            lemma_counts_bounded(s.subrange(0, i as int), g, stage_count, max_tries);
            assert(s.subrange(0, i + 1).drop_last() =~= s.subrange(0, i as int));
            assert(s.subrange(0, i + 1).last() == s[i as int]);
        }
        let r = &records[i];
        if r.id.group == g {
            total = total + 1;
            if r.passes >= stage_count {
                graduated = graduated + 1;
            }
            if r.fails >= max_tries && r.passes < stage_count {
                dropped = dropped + 1;
            }
        }
        i = i + 1;
    }
    proof {
        assert(s.subrange(0, s.len() as int) =~= s);
        lemma_counts_bounded(s, g, stage_count, max_tries);
    }
    let percent: u64 = if total == 0 {
        0
    } else {
        proof {
            lemma_mul_inequality(dropped as int, total as int, 100int);
            lemma_div_is_ordered(dropped as int * 100, total as int * 100, total as int);
            lemma_div_multiples_vanish(100int, total as int);
        }
        ((dropped as u128) * 100 / (total as u128)) as u64
    };
    GroupStats {
        group: g,
        total: total as u64,
        graduated: graduated as u64,
        dropped_out: dropped as u64,
        dropout_percent: percent,
    }
}

/// Aggregation over a frozen records table: one `GroupStats` per group
/// index below `group_count`. The result is pinned to `spec_aggregate`, so
/// any two runs over the same table agree.
pub fn aggregate_records(
    records: &Vec<ParticipantRecord>,
    stage_count: u32,
    max_tries: u32,
    group_count: u32,
) -> (stats: Vec<GroupStats>)
    ensures
        stats@ == spec_aggregate(records@, stage_count, max_tries, group_count),
{
    let mut stats: Vec<GroupStats> = Vec::new();
    let mut g: u32 = 0;
    while g < group_count
        invariant
            g <= group_count,
            stats@.len() == g as nat,
            forall|k: int|
                0 <= k < g ==> stats@[k] == spec_group_stats(
                    records@,
                    k as u32,
                    stage_count,
                    max_tries,
                ),
        decreases group_count - g,
    {
        let st = group_stats_for(records, g, stage_count, max_tries);
        stats.push(st);
        g = g + 1;
    }
    proof {
        assert(stats@ =~= spec_aggregate(records@, stage_count, max_tries, group_count));
    }
    stats
}

} // verus!
