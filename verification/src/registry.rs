//! Process Registry: the in-memory view of known processes, keyed by process
//! identifier, updated once per sampling pass.
//!
//! A process absent from a pass is kept for one grace pass (its missed-pass
//! count goes to one); absent again, it is removed. The registry never holds
//! two rows for one identifier.

use vstd::prelude::*;

use crate::metrics;
use crate::snapshot::ProcessSnapshot;
use crate::snapshot::snaps_contain;
use crate::snapshot::snaps_distinct;
use crate::snapshot::snaps_has;

verus! {

/// The consumer-facing record of one tracked process, recomputed each pass.
/// Percentages are hundredths of a percent.
#[derive(Clone, Debug)]
pub struct ProcessView {
    pub process_id: u32,
    pub name: String,
    pub cpu_centipercent: u64,
    pub memory_centipercent: u64,
}

/// One registry row: the published view plus the sampling state that the next
/// pass needs (the CPU-time baseline and the missed-pass count).
#[derive(Clone, Debug)]
pub struct TrackedProcess {
    pub view: ProcessView,
    pub last_cpu_time: u64,
    pub missed_passes: u64,
}

/// No two rows describe the same process.
pub open spec fn rows_distinct(rs: Seq<TrackedProcess>) -> bool {
    forall|i: int, j: int|
        0 <= i < j < rs.len() ==> #[trigger] rs[i].view.process_id != #[trigger] rs[j].view.process_id
}

/// Some row tracks the process `pid`.
pub open spec fn rows_has(rs: Seq<TrackedProcess>, pid: u32) -> bool {
    exists|i: int| 0 <= i < rs.len() && #[trigger] rs[i].view.process_id == pid
}

/// The index of the row tracking `pid`; meaningful when `rows_has` holds of a
/// registry with pairwise-distinct identifiers.
pub open spec fn row_index(rs: Seq<TrackedProcess>, pid: u32) -> int {
    choose|i: int| 0 <= i < rs.len() && #[trigger] rs[i].view.process_id == pid
}

/// The row tracking `pid`.
pub open spec fn row_of(rs: Seq<TrackedProcess>, pid: u32) -> TrackedProcess {
    rs[row_index(rs, pid)]
}

/// In a registry with pairwise-distinct identifiers, the row at any index is
/// exactly the one that `row_of` names for its identifier.
pub proof fn lemma_row_of_at(rs: Seq<TrackedProcess>, i: int)
    requires
        rows_distinct(rs),
        0 <= i < rs.len(),
    ensures
        rows_has(rs, rs[i].view.process_id),
        row_index(rs, rs[i].view.process_id) == i,
        row_of(rs, rs[i].view.process_id) == rs[i],
{
    assert(rows_has(rs, rs[i].view.process_id));
    let k = row_index(rs, rs[i].view.process_id);
    if k != i {
        assert(rs[k].view.process_id != rs[i].view.process_id);
    }
}

/// The CPU-time baseline that a pass uses for `pid`: the counter remembered
/// by the previous pass, or nothing on first sighting.
pub open spec fn baseline_of(rs: Seq<TrackedProcess>, pid: u32) -> Option<u64> {
    if rows_has(rs, pid) {
        Some(row_of(rs, pid).last_cpu_time)
    } else {
        None
    }
}

/// The row that a pass must produce for the snapshot `s`, given the baseline
/// `prev`, the elapsed interval, the core count and the total memory of the
/// pass.
pub open spec fn row_matches_snap(
    r: TrackedProcess,
    prev: Option<u64>,
    s: ProcessSnapshot,
    elapsed: u64,
    core_count: u32,
    total_memory: u64,
) -> bool {
    &&& r.view.process_id == s.process_id
    &&& r.view.name == s.name
    &&& r.view.cpu_centipercent == metrics::spec_cpu_centipercent(
        prev,
        s.cumulative_cpu_time,
        elapsed,
        core_count,
    )
    &&& r.view.memory_centipercent == metrics::spec_memory_centipercent(
        s.resident_memory_bytes,
        total_memory,
    )
    &&& r.last_cpu_time == s.cumulative_cpu_time
    &&& r.missed_passes == 0
}

/// A row carried through a pass that did not see its process: the published
/// view and the baseline stay, the missed-pass count grows by one.
pub open spec fn row_carried(r: TrackedProcess, prior: TrackedProcess) -> bool {
    &&& r.view == prior.view
    &&& r.last_cpu_time == prior.last_cpu_time
    &&& r.missed_passes == prior.missed_passes + 1
}

/// What one sampling pass does to the registry: `rs0` is the registry before,
/// `rs1` after, `ss` the pass's snapshots.
///
/// Every process of the pass is tracked with freshly derived percentages;
/// every tracked process the pass did not see is carried once (missed-pass
/// count one) and removed when it had already been missed; nothing else is
/// tracked.
pub open spec fn pass_applied(
    rs0: Seq<TrackedProcess>,
    rs1: Seq<TrackedProcess>,
    ss: Seq<ProcessSnapshot>,
    elapsed: u64,
    core_count: u32,
    total_memory: u64,
) -> bool {
    &&& forall|k: int|
        0 <= k < ss.len() ==> rows_has(rs1, #[trigger] ss[k].process_id) && row_matches_snap(
            row_of(rs1, ss[k].process_id),
            baseline_of(rs0, ss[k].process_id),
            ss[k],
            elapsed,
            core_count,
            total_memory,
        )
    &&& forall|k: int|
        0 <= k < rs0.len() && !snaps_has(ss, #[trigger] rs0[k].view.process_id) ==> {
            if rs0[k].missed_passes == 0 {
                rows_has(rs1, rs0[k].view.process_id) && row_carried(
                    row_of(rs1, rs0[k].view.process_id),
                    rs0[k],
                )
            } else {
                !rows_has(rs1, rs0[k].view.process_id)
            }
        }
    &&& forall|k: int|
        0 <= k < rs1.len() ==> snaps_has(ss, #[trigger] rs1[k].view.process_id) || rows_has(
            rs0,
            rs1[k].view.process_id,
        )
}

/// A pass result assembled as fresh rows (one per snapshot, in snapshot
/// order) followed by carried rows (one per missed tracked process, source
/// indices strictly increasing) has distinct identifiers and satisfies
/// `pass_applied`.
#[verifier::rlimit(100)]
proof fn lemma_pass_result(
    rs0: Seq<TrackedProcess>,
    rs1: Seq<TrackedProcess>,
    ss: Seq<ProcessSnapshot>,
    srcs: Seq<int>,
    elapsed: u64,
    core_count: u32,
    total_memory: u64,
)
    requires
        snaps_distinct(ss),
        rows_distinct(rs0),
        rs1.len() == ss.len() + srcs.len(),
        forall|k: int|
            0 <= k < ss.len() ==> #[trigger] rs1[k].view.process_id == ss[k].process_id,
        forall|k: int|
            0 <= k < ss.len() ==> row_matches_snap(
                #[trigger] rs1[k],
                baseline_of(rs0, ss[k].process_id),
                ss[k],
                elapsed,
                core_count,
                total_memory,
            ),
        forall|k: int| 0 <= k < srcs.len() ==> 0 <= #[trigger] srcs[k] < rs0.len(),
        forall|k: int|
            0 <= k < srcs.len() ==> !snaps_has(ss, rs0[#[trigger] srcs[k]].view.process_id)
                && rs0[srcs[k]].missed_passes == 0 && row_carried(
                rs1[ss.len() + k],
                rs0[srcs[k]],
            ),
        forall|k1: int, k2: int|
            0 <= k1 < k2 < srcs.len() ==> #[trigger] srcs[k1] < #[trigger] srcs[k2],
        forall|t: int|
            0 <= t < rs0.len() && !snaps_has(ss, #[trigger] rs0[t].view.process_id)
                && rs0[t].missed_passes == 0 ==> exists|k: int|
                0 <= k < srcs.len() && #[trigger] srcs[k] == t,
    ensures
        rows_distinct(rs1),
        pass_applied(rs0, rs1, ss, elapsed, core_count, total_memory),
{
    let n = ss.len() as int;
    assert forall|k1: int, k2: int|
        0 <= k1 < k2 < rs1.len() implies #[trigger] rs1[k1].view.process_id
        != #[trigger] rs1[k2].view.process_id by {
        if k2 < n {
        } else if k1 < n {
            assert(row_carried(rs1[n + (k2 - n)], rs0[srcs[k2 - n]]));
            if rs1[k1].view.process_id == rs1[k2].view.process_id {
                assert(snaps_has(ss, ss[k1].process_id));
            }
        } else {
            assert(row_carried(rs1[n + (k1 - n)], rs0[srcs[k1 - n]]));
            assert(row_carried(rs1[n + (k2 - n)], rs0[srcs[k2 - n]]));
            assert(srcs[k1 - n] < srcs[k2 - n]);
        }
    }
    assert forall|k: int| 0 <= k < ss.len() implies rows_has(
        rs1,
        #[trigger] ss[k].process_id,
    ) && row_matches_snap(
        row_of(rs1, ss[k].process_id),
        baseline_of(rs0, ss[k].process_id),
        ss[k],
        elapsed,
        core_count,
        total_memory,
    ) by {
        assert(rs1[k].view.process_id == ss[k].process_id);
        lemma_row_of_at(rs1, k);
    }
    assert forall|t: int|
        0 <= t < rs0.len() && !snaps_has(ss, #[trigger] rs0[t].view.process_id) implies {
        if rs0[t].missed_passes == 0 {
            rows_has(rs1, rs0[t].view.process_id) && row_carried(
                row_of(rs1, rs0[t].view.process_id),
                rs0[t],
            )
        } else {
            !rows_has(rs1, rs0[t].view.process_id)
        }
    } by {
        if rs0[t].missed_passes == 0 {
            let k = choose|k: int| 0 <= k < srcs.len() && #[trigger] srcs[k] == t;
            assert(row_carried(rs1[n + k], rs0[t]));
            lemma_row_of_at(rs1, n + k);
        } else {
            assert forall|k1: int| 0 <= k1 < rs1.len() implies rs1[k1].view.process_id
                != rs0[t].view.process_id by {
                if k1 < n {
                    if rs1[k1].view.process_id == rs0[t].view.process_id {
                        assert(snaps_has(ss, ss[k1].process_id));
                    }
                } else {
                    assert(row_carried(rs1[n + (k1 - n)], rs0[srcs[k1 - n]]));
                    if srcs[k1 - n] != t {
                        assert(rs0[srcs[k1 - n]].view.process_id != rs0[t].view.process_id);
                    }
                }
            }
        }
    }
    assert forall|k: int| 0 <= k < rs1.len() implies snaps_has(
        ss,
        #[trigger] rs1[k].view.process_id,
    ) || rows_has(rs0, rs1[k].view.process_id) by {
        if k < n {
            assert(snaps_has(ss, ss[k].process_id));
        } else {
            assert(row_carried(rs1[n + (k - n)], rs0[srcs[k - n]]));
            assert(rs1[k].view.process_id == rs0[srcs[k - n]].view.process_id);
        }
    }
}

/// The in-memory registry of tracked processes.
pub struct Registry {
    entries: Vec<TrackedProcess>,
}

impl Registry {
    /// The registry's rows, in storage order.
    pub closed spec fn rows(self) -> Seq<TrackedProcess> {
        self.entries@
    }

    /// Well-formed: no identifier is tracked twice.
    pub open spec fn wf(self) -> bool {
        rows_distinct(self.rows())
    }

    /// An empty registry, tracking nothing.
    pub fn new() -> (r: Registry)
        ensures
            r.wf(),
            r.rows().len() == 0,
    {
        Registry { entries: Vec::new() }
    }

    /// How many processes are tracked.
    pub fn len(&self) -> (r: usize)
        ensures
            r == self.rows().len(),
    {
        self.entries.len()
    }

    /// The remembered CPU-time baseline for `pid`, if `pid` is tracked.
    fn find_baseline(&self, pid: u32) -> (r: Option<u64>)
        requires
            self.wf(),
        ensures
            r == baseline_of(self.rows(), pid),
    {
        let n: usize = self.entries.len();
        let mut i: usize = 0;
        while i < n
            invariant
                self.wf(),
                n == self.rows().len(),
                0 <= i <= n,
                forall|k: int| 0 <= k < i ==> #[trigger] self.rows()[k].view.process_id != pid,
            decreases n - i,
        {
            if self.entries[i].view.process_id == pid {
                proof {
                    lemma_row_of_at(self.rows(), i as int);
                }
                return Some(self.entries[i].last_cpu_time);
            }
            i += 1;
        }
        None
    }

    /// One sampling pass: every process of `snaps` is (re)tracked with
    /// freshly derived percentages against its remembered baseline; every
    /// tracked process the pass did not see is carried once and removed the
    /// second time; nothing else is tracked.
    #[verifier::rlimit(100)]
    pub fn update(
        &mut self,
        snaps: &Vec<ProcessSnapshot>,
        elapsed: u64,
        core_count: u32,
        total_memory: u64,
    )
        requires
            old(self).wf(),
            snaps_distinct(snaps@),
        ensures
            final(self).wf(),
            pass_applied(
                old(self).rows(),
                final(self).rows(),
                snaps@,
                elapsed,
                core_count,
                total_memory,
            ),
    {
        let ghost rs0 = self.rows();
        let ghost ss = snaps@;
        let mut next: Vec<TrackedProcess> = Vec::new();
        let n: usize = snaps.len();
        let mut i: usize = 0;
        while i < n
            invariant
                self.rows() == rs0,
                self.wf(),
                snaps_distinct(ss),
                ss == snaps@,
                n == ss.len(),
                0 <= i <= n,
                next@.len() == i,
                forall|k: int|
                    0 <= k < i ==> #[trigger] next@[k].view.process_id == ss[k].process_id,
                forall|k: int|
                    0 <= k < i ==> row_matches_snap(
                        #[trigger] next@[k],
                        baseline_of(rs0, ss[k].process_id),
                        ss[k],
                        elapsed,
                        core_count,
                        total_memory,
                    ),
            decreases n - i,
        {
            let prev: Option<u64> = self.find_baseline(snaps[i].process_id);
            let cpu: u64 = metrics::cpu_centipercent(
                prev,
                snaps[i].cumulative_cpu_time,
                elapsed,
                core_count,
            );
            let mem: u64 = metrics::memory_centipercent(
                snaps[i].resident_memory_bytes,
                total_memory,
            );
            next.push(
                TrackedProcess {
                    view: ProcessView {
                        process_id: snaps[i].process_id,
                        name: snaps[i].name.clone(),
                        cpu_centipercent: cpu,
                        memory_centipercent: mem,
                    },
                    last_cpu_time: snaps[i].cumulative_cpu_time,
                    missed_passes: 0,
                },
            );
            i += 1;
        }
        let m: usize = self.entries.len();
        let mut j: usize = 0;
        let ghost mut srcs: Seq<int> = Seq::empty();
        while j < m
            invariant
                self.rows() == rs0,
                self.wf(),
                snaps_distinct(ss),
                ss == snaps@,
                n == ss.len(),
                m == rs0.len(),
                0 <= j <= m,
                next@.len() == n + srcs.len(),
                forall|k: int|
                    0 <= k < n ==> #[trigger] next@[k].view.process_id == ss[k].process_id,
                forall|k: int|
                    0 <= k < n ==> row_matches_snap(
                        #[trigger] next@[k],
                        baseline_of(rs0, ss[k].process_id),
                        ss[k],
                        elapsed,
                        core_count,
                        total_memory,
                    ),
                forall|k: int|
                    0 <= k < srcs.len() ==> 0 <= #[trigger] srcs[k] < j,
                forall|k: int|
                    0 <= k < srcs.len() ==> !snaps_has(ss, rs0[#[trigger] srcs[k]].view.process_id)
                        && rs0[srcs[k]].missed_passes == 0 && row_carried(
                        next@[n + k],
                        rs0[srcs[k]],
                    ),
                forall|k1: int, k2: int|
                    0 <= k1 < k2 < srcs.len() ==> #[trigger] srcs[k1] < #[trigger] srcs[k2],
                forall|t: int|
                    0 <= t < j && !snaps_has(ss, #[trigger] rs0[t].view.process_id)
                        && rs0[t].missed_passes == 0 ==> exists|k: int|
                        0 <= k < srcs.len() && #[trigger] srcs[k] == t,
            decreases m - j,
        {
            let pid: u32 = self.entries[j].view.process_id;
            if !snaps_contain(snaps, pid) {
                if self.entries[j].missed_passes == 0 {
                    let carried = TrackedProcess {
                        view: clone_view(&self.entries[j].view),
                        last_cpu_time: self.entries[j].last_cpu_time,
                        missed_passes: 1,
                    };
                    next.push(carried);
                    proof {
                        let prev_srcs = srcs;
                        srcs = srcs.push(j as int);
                        assert(srcs[srcs.len() - 1] == j as int);
                        assert(row_carried(next@[n + srcs.len() - 1], rs0[j as int]));
                        assert forall|t: int|
                            0 <= t < j + 1 && !snaps_has(ss, #[trigger] rs0[t].view.process_id)
                                && rs0[t].missed_passes == 0 implies exists|k: int|
                            0 <= k < srcs.len() && #[trigger] srcs[k] == t by {
                            if t == j as int {
                                assert(srcs[srcs.len() - 1] == t);
                            } else {
                                let k = choose|k: int|
                                    0 <= k < prev_srcs.len() && #[trigger] prev_srcs[k] == t;
                                assert(srcs[k] == t);
                            }
                        }
                    }
                }
            }
            j += 1;
        }
        proof {
            lemma_pass_result(rs0, next@, ss, srcs, elapsed, core_count, total_memory);
        }
        self.entries = next;
    }

    /// The published view of `pid`, or nothing if `pid` is not tracked.
    pub fn get(&self, pid: u32) -> (r: Option<ProcessView>)
        requires
            self.wf(),
        ensures
            match r {
                Some(v) => rows_has(self.rows(), pid) && v == row_of(self.rows(), pid).view,
                None => !rows_has(self.rows(), pid),
            },
    {
        let n: usize = self.entries.len();
        let mut i: usize = 0;
        while i < n
            invariant
                self.wf(),
                n == self.rows().len(),
                0 <= i <= n,
                forall|k: int| 0 <= k < i ==> #[trigger] self.rows()[k].view.process_id != pid,
            decreases n - i,
        {
            if self.entries[i].view.process_id == pid {
                proof {
                    lemma_row_of_at(self.rows(), i as int);
                }
                return Some(clone_view(&self.entries[i].view));
            }
            i += 1;
        }
        None
    }

    /// The ordered sequence of published views: exactly one view per tracked
    /// process, sorted by CPU percentage descending with ties broken by
    /// ascending process identifier. The order is total on distinct
    /// identifiers, so repeated calls on an unchanged registry return the
    /// same sequence (`lemma_sorted_views_unique`).
    pub fn list(&self) -> (r: Vec<ProcessView>)
        requires
            self.wf(),
        ensures
            views_sorted(r@),
            views_distinct(r@),
            r@.to_multiset() == views_of(self.rows()).to_multiset(),
    {
        let n: usize = self.entries.len();
        let mut pool: Vec<ProcessView> = Vec::new();
        let mut i: usize = 0;
        while i < n
            invariant
                n == self.rows().len(),
                0 <= i <= n,
                pool@.len() == i,
                forall|k: int| 0 <= k < i ==> #[trigger] pool@[k] == self.rows()[k].view,
            decreases n - i,
        {
            pool.push(clone_view(&self.entries[i].view));
            i += 1;
        }
        proof {
            assert(pool@ =~= views_of(self.rows()));
            assert(views_distinct(views_of(self.rows())));
        }
        let r = sort_views(pool);
        proof {
            lemma_views_distinct_transfers(views_of(self.rows()), r@);
        }
        r
    }
}

/// Display order: higher CPU percentage first; ties broken by ascending
/// process identifier. This is a total, transitive order on views, and
/// antisymmetric up to the (cpu, pid) key.
pub open spec fn view_leq(a: ProcessView, b: ProcessView) -> bool {
    ||| a.cpu_centipercent > b.cpu_centipercent
    ||| (a.cpu_centipercent == b.cpu_centipercent && a.process_id <= b.process_id)
}

/// Sorted for display: CPU descending, identifier ascending on ties.
pub open spec fn views_sorted(vs: Seq<ProcessView>) -> bool {
    forall|i: int, j: int| 0 <= i <= j < vs.len() ==> view_leq(#[trigger] vs[i], #[trigger] vs[j])
}

/// No two views carry the same process identifier.
pub open spec fn views_distinct(vs: Seq<ProcessView>) -> bool {
    forall|i: int, j: int|
        0 <= i < j < vs.len() ==> #[trigger] vs[i].process_id != #[trigger] vs[j].process_id
}

/// The published views of the rows, in storage order.
pub open spec fn views_of(rs: Seq<TrackedProcess>) -> Seq<ProcessView> {
    rs.map_values(|r: TrackedProcess| r.view)
}

/// Decides the display order between two views.
fn view_before(a: &ProcessView, b: &ProcessView) -> (r: bool)
    ensures
        r == view_leq(*a, *b),
{
    a.cpu_centipercent > b.cpu_centipercent || (a.cpu_centipercent == b.cpu_centipercent
        && a.process_id <= b.process_id)
}

/// Sorts views into display order by repeatedly extracting the view that
/// precedes every other remaining view.
fn sort_views(pool: Vec<ProcessView>) -> (r: Vec<ProcessView>)
    ensures
        views_sorted(r@),
        r@.to_multiset() == pool@.to_multiset(),
{
    let ghost whole = pool@.to_multiset();
    let mut pool = pool;
    let mut out: Vec<ProcessView> = Vec::new();
    proof {
        broadcast use vstd::seq_lib::group_to_multiset_ensures;
        broadcast use vstd::multiset::group_multiset_axioms;

        assert(out@.to_multiset().add(pool@.to_multiset()) =~= whole);
    }
    while pool.len() > 0
        invariant
            views_sorted(out@),
            forall|a: int, b: int|
                0 <= a < out@.len() && 0 <= b < pool@.len() ==> view_leq(
                    #[trigger] out@[a],
                    #[trigger] pool@[b],
                ),
            out@.to_multiset().add(pool@.to_multiset()) == whole,
        decreases pool@.len(),
    {
        let mut best: usize = 0;
        let mut c: usize = 1;
        while c < pool.len()
            invariant
                pool@.len() > 0,
                0 <= best < pool@.len(),
                1 <= c <= pool@.len(),
                forall|q: int| 0 <= q < c ==> view_leq(pool@[best as int], #[trigger] pool@[q]),
            decreases pool@.len() - c,
        {
            if !view_before(&pool[best], &pool[c]) {
                best = c;
            }
            c += 1;
        }
        let ghost before_pool = pool@;
        let ghost before_out = out@;
        let picked = pool.remove(best);
        out.push(picked);
        proof {
            broadcast use vstd::seq_lib::group_to_multiset_ensures;
            broadcast use vstd::multiset::group_multiset_axioms;

            assert(before_pool.to_multiset().contains(picked));
            assert(out@.to_multiset().add(pool@.to_multiset()) =~= before_out.to_multiset().add(
                before_pool.to_multiset(),
            ));
        }
    }
    proof {
        broadcast use vstd::seq_lib::group_to_multiset_ensures;
        broadcast use vstd::multiset::group_multiset_axioms;

        assert(pool@ =~= Seq::<ProcessView>::empty());
        assert(out@.to_multiset() =~= whole);
    }
    out
}

/// Grace-period eviction: a process that goes missing is kept through the
/// first pass that does not see it — whatever that pass's interval, core
/// count or memory counters — and is removed only by a second consecutive
/// pass that does not see it either.
pub proof fn lemma_grace_period(
    rs0: Seq<TrackedProcess>,
    rs1: Seq<TrackedProcess>,
    rs2: Seq<TrackedProcess>,
    ss1: Seq<ProcessSnapshot>,
    ss2: Seq<ProcessSnapshot>,
    pid: u32,
    e1: u64,
    c1: u32,
    t1: u64,
    e2: u64,
    c2: u32,
    t2: u64,
)
    requires
        pass_applied(rs0, rs1, ss1, e1, c1, t1),
        pass_applied(rs1, rs2, ss2, e2, c2, t2),
        rows_has(rs0, pid),
        row_of(rs0, pid).missed_passes == 0,
        !snaps_has(ss1, pid),
        !snaps_has(ss2, pid),
    ensures
        rows_has(rs1, pid),
        !rows_has(rs2, pid),
{
    let k0 = row_index(rs0, pid);
    assert(0 <= k0 < rs0.len() && rs0[k0].view.process_id == pid);
    assert(rows_has(rs1, pid) && row_carried(row_of(rs1, pid), rs0[k0]));
    let k1 = row_index(rs1, pid);
    assert(0 <= k1 < rs1.len() && rs1[k1].view.process_id == pid);
    assert(rs1[k1].missed_passes == 1);
    assert(!rows_has(rs2, rs1[k1].view.process_id));
}

/// Holding the same views as a sequence with pairwise-distinct identifiers
/// keeps the identifiers pairwise distinct, in whatever order.
pub proof fn lemma_views_distinct_transfers(x: Seq<ProcessView>, y: Seq<ProcessView>)
    requires
        views_distinct(x),
        x.to_multiset() == y.to_multiset(),
    ensures
        views_distinct(y),
{
    broadcast use vstd::seq_lib::group_to_multiset_ensures;
    broadcast use vstd::multiset::group_multiset_axioms;

    assert forall|i: int, j: int|
        0 <= i < x.len() && 0 <= j < x.len() && i != j implies x[i] != x[j] by {
        if i < j {
            assert(x[i].process_id != x[j].process_id);
        } else {
            assert(x[j].process_id != x[i].process_id);
        }
    }
    assert(x.no_duplicates());
    x.lemma_multiset_has_no_duplicates();
    y.lemma_multiset_has_no_duplicates_conv();
    assert forall|i: int, j: int|
        0 <= i < j < y.len() implies #[trigger] y[i].process_id != #[trigger] y[j].process_id by {
        if y[i].process_id == y[j].process_id {
            assert(y[i] != y[j]);
            assert(y.to_multiset().contains(y[i]));
            assert(y.to_multiset().contains(y[j]));
            assert(x.contains(y[i]));
            assert(x.contains(y[j]));
            let a = choose|a: int| 0 <= a < x.len() && x[a] == y[i];
            let b = choose|b: int| 0 <= b < x.len() && x[b] == y[j];
            if a < b {
                assert(x[a].process_id != x[b].process_id);
            } else {
                assert(x[b].process_id != x[a].process_id);
            }
        }
    }
}

/// Two sequences of views that are both in display order, whose first carries
/// pairwise-distinct identifiers, and that hold the same views are the same
/// sequence. The display order therefore determines the result of `list()`
/// uniquely: repeated calls on an unchanged registry return the same
/// sequence.
pub proof fn lemma_sorted_views_unique(x: Seq<ProcessView>, y: Seq<ProcessView>)
    requires
        views_sorted(x),
        views_sorted(y),
        views_distinct(x),
        x.to_multiset() == y.to_multiset(),
    ensures
        x == y,
    decreases x.len(),
{
    broadcast use vstd::seq_lib::group_to_multiset_ensures;
    broadcast use vstd::multiset::group_multiset_axioms;

    if x.len() == 0 {
        assert(y.to_multiset().len() == 0);
        assert(x =~= y);
    } else {
        assert(x.to_multiset().contains(x[0]));
        assert(y.to_multiset().contains(x[0]));
        let j = choose|j: int| 0 <= j < y.len() && y[j] == x[0];
        assert(y.to_multiset().contains(y[0]));
        assert(x.to_multiset().contains(y[0]));
        let i = choose|i: int| 0 <= i < x.len() && x[i] == y[0];
        assert(view_leq(x[0], x[i]));
        assert(view_leq(y[0], y[j]));
        if i != 0 {
            assert(x[i].process_id != x[0].process_id);
        }
        assert(x[0] == y[0]);
        assert(x.drop_first() =~= x.remove(0));
        assert(y.drop_first() =~= y.remove(0));
        assert(x.drop_first().to_multiset() =~= x.to_multiset().remove(x[0]));
        assert(y.drop_first().to_multiset() =~= y.to_multiset().remove(y[0]));
        assert(views_sorted(x.drop_first()));
        assert(views_distinct(x.drop_first()));
        assert(views_sorted(y.drop_first()));
        lemma_sorted_views_unique(x.drop_first(), y.drop_first());
        assert(x.len() == x.to_multiset().len());
        assert(y.len() == y.to_multiset().len());
        assert forall|k: int| 0 <= k < x.len() implies x[k] == y[k] by {
            if k > 0 {
                assert(x.drop_first()[k - 1] == x[k]);
                assert(y.drop_first()[k - 1] == y[k]);
            }
        }
        assert(x =~= y);
    }
}

/// A field-for-field copy of a published view.
fn clone_view(v: &ProcessView) -> (r: ProcessView)
    ensures
        r == v,
{
    ProcessView {
        process_id: v.process_id,
        name: v.name.clone(),
        cpu_centipercent: v.cpu_centipercent,
        memory_centipercent: v.memory_centipercent,
    }
}

} // verus!
