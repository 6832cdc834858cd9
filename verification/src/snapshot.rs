//! Snapshot Source data: the raw, per-pass records that the rest of the core
//! consumes. A snapshot is produced fresh each sampling pass and never
//! mutated; the next pass supersedes it.

use vstd::prelude::*;

verus! {

/// One process at one sampling instant: raw counters, not yet normalized.
/// `cumulative_cpu_time` is a monotonically increasing counter of consumed
/// CPU time; it goes backward only when the identifier was reused by a new
/// process.
#[derive(Clone, Debug)]
pub struct ProcessSnapshot {
    pub process_id: u32,
    pub name: String,
    pub cumulative_cpu_time: u64,
    pub resident_memory_bytes: u64,
}

/// Raw system-wide memory counters of one sampling pass, in bytes.
#[derive(Clone, Copy, Debug)]
pub struct SystemCounters {
    pub total_memory_bytes: u64,
    pub available_memory_bytes: u64,
}

/// No two snapshots of one pass describe the same process.
pub open spec fn snaps_distinct(ss: Seq<ProcessSnapshot>) -> bool {
    forall|i: int, j: int|
        0 <= i < j < ss.len() ==> #[trigger] ss[i].process_id != #[trigger] ss[j].process_id
}

/// Some snapshot in `ss` describes the process `pid`.
pub open spec fn snaps_has(ss: Seq<ProcessSnapshot>, pid: u32) -> bool {
    exists|i: int| 0 <= i < ss.len() && #[trigger] ss[i].process_id == pid
}

/// The index of the snapshot describing `pid`; meaningful when `snaps_has`
/// holds of a pass with pairwise-distinct identifiers.
pub open spec fn snap_index(ss: Seq<ProcessSnapshot>, pid: u32) -> int {
    choose|i: int| 0 <= i < ss.len() && #[trigger] ss[i].process_id == pid
}

/// The sum of the cumulative CPU-time counters of a pass: the system-wide
/// cumulative CPU-time counter that global CPU percentages are derived from.
pub open spec fn spec_total_cpu(ss: Seq<ProcessSnapshot>) -> int
    decreases ss.len(),
{
    if ss.len() == 0 {
        0
    } else {
        spec_total_cpu(ss.drop_last()) + ss.last().cumulative_cpu_time
    }
}

/// The same sum held to the counter's width: it saturates instead of
/// wrapping, so a (practically unreachable) overflow reads as a stuck
/// counter, never as a rollback.
pub open spec fn spec_total_cpu_sat(ss: Seq<ProcessSnapshot>) -> u64 {
    if spec_total_cpu(ss) > u64::MAX {
        u64::MAX
    } else {
        spec_total_cpu(ss) as u64
    }
}

/// A sum of counters is never negative.
pub proof fn lemma_total_cpu_nonneg(ss: Seq<ProcessSnapshot>)
    ensures
        spec_total_cpu(ss) >= 0,
    decreases ss.len(),
{
    if ss.len() > 0 {
        lemma_total_cpu_nonneg(ss.drop_last());
    }
}

/// Sums the cumulative CPU-time counters of a pass, saturating at the
/// counter's width.
pub fn total_cpu_time(ss: &Vec<ProcessSnapshot>) -> (r: u64)
    ensures
        r == spec_total_cpu_sat(ss@),
{
    let mut acc: u64 = 0;
    let mut i: usize = 0;
    while i < ss.len()
        invariant
            0 <= i <= ss@.len(),
            acc == spec_total_cpu_sat(ss@.take(i as int)),
        decreases ss@.len() - i,
    {
        let c: u64 = ss[i].cumulative_cpu_time;
        proof {
            assert(ss@.take(i as int + 1).drop_last() =~= ss@.take(i as int));
            assert(ss@.take(i as int + 1).last() == ss@[i as int]);
            lemma_total_cpu_nonneg(ss@.take(i as int));
        }
        if acc > u64::MAX - c {
            acc = u64::MAX;
        } else {
            acc = acc + c;
        }
        i += 1;
    }
    proof {
        assert(ss@.take(ss@.len() as int) =~= ss@);
    }
    acc
}

/// Decides membership of `pid` in a pass.
pub fn snaps_contain(ss: &Vec<ProcessSnapshot>, pid: u32) -> (r: bool)
    ensures
        r == snaps_has(ss@, pid),
{
    let mut i: usize = 0;
    while i < ss.len()
        invariant
            0 <= i <= ss@.len(),
            forall|k: int| 0 <= k < i ==> #[trigger] ss@[k].process_id != pid,
        decreases ss@.len() - i,
    {
        if ss[i].process_id == pid {
            return true;
        }
        i += 1;
    }
    false
}

} // verus!
