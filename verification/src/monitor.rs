//! The monitor: one owned instance tying Snapshot Source, Metrics Engine,
//! Process Registry and trend windows together. Each sampling pass feeds it
//! one coherent snapshot set plus the raw system counters; consumers read the
//! published views and metrics between passes. There is no hidden global
//! state: whoever needs the monitor receives it by reference.

use vstd::prelude::*;

use crate::metrics;
use crate::registry::ProcessView;
use crate::registry::Registry;
use crate::registry::TrackedProcess;
use crate::registry::pass_applied;
use crate::registry::row_of;
use crate::registry::rows_has;
use crate::registry::views_of;
use crate::registry::views_sorted;
use crate::snapshot::ProcessSnapshot;
use crate::snapshot::SystemCounters;
use crate::snapshot::snaps_distinct;
use crate::snapshot::spec_total_cpu_sat;
use crate::snapshot::total_cpu_time;
use crate::source;
use crate::window::SampleWindow;
use crate::window::slid;

verus! {

/// How many trend points each history window keeps.
pub const HISTORY_POINTS: usize = 30;

/// System-wide metrics of the latest pass. Percentages are hundredths of a
/// percent; `global_cpu_centipercent` is derived from two temporally
/// separated readings of the system-wide cumulative CPU-time counter, never
/// from a single shot.
#[derive(Clone, Copy, Debug, PartialEq, Eq, Structural)]
pub struct SystemMetrics {
    pub total_memory_bytes: u64,
    pub available_memory_bytes: u64,
    pub global_cpu_centipercent: u64,
    pub memory_centipercent: u64,
}

/// The sampling and publishing core.
pub struct Monitor {
    registry: Registry,
    metrics: SystemMetrics,
    prev_total_cpu: Option<u64>,
    core_count: u32,
    cpu_history: SampleWindow,
    memory_history: SampleWindow,
}

impl Monitor {
    /// The registry rows as of the latest pass.
    pub closed spec fn rows(self) -> Seq<TrackedProcess> {
        self.registry.rows()
    }

    /// The system metrics published by the latest pass.
    pub closed spec fn current_metrics(self) -> SystemMetrics {
        self.metrics
    }

    /// The system-wide CPU-time counter remembered from the latest pass.
    pub closed spec fn cpu_baseline(self) -> Option<u64> {
        self.prev_total_cpu
    }

    /// The core count every CPU percentage is clamped against.
    pub closed spec fn cores(self) -> u32 {
        self.core_count
    }

    /// The recorded global CPU trend, oldest first.
    pub closed spec fn cpu_trend_points(self) -> Seq<u64> {
        self.cpu_history.history()
    }

    /// The recorded memory usage trend, oldest first.
    pub closed spec fn memory_trend_points(self) -> Seq<u64> {
        self.memory_history.history()
    }

    /// Well-formed: the registry tracks no identifier twice and the trend
    /// windows hold their fixed capacity.
    pub closed spec fn wf(self) -> bool {
        &&& self.registry.wf()
        &&& self.cpu_history.wf()
        &&& self.memory_history.wf()
        &&& self.cpu_history.cap() == HISTORY_POINTS
        &&& self.memory_history.cap() == HISTORY_POINTS
    }

    /// A monitor that has seen no pass yet, clamping CPU percentages against
    /// `core_count` cores.
    pub fn new(core_count: u32) -> (r: Monitor)
        ensures
            r.wf(),
            r.rows().len() == 0,
            r.cores() == core_count,
            r.cpu_baseline() is None,
            r.cpu_trend_points().len() == 0,
            r.memory_trend_points().len() == 0,
            r.current_metrics() == (SystemMetrics {
                total_memory_bytes: 0,
                available_memory_bytes: 0,
                global_cpu_centipercent: 0,
                memory_centipercent: 0,
            }),
    {
        Monitor {
            registry: Registry::new(),
            metrics: SystemMetrics {
                total_memory_bytes: 0,
                available_memory_bytes: 0,
                global_cpu_centipercent: 0,
                memory_centipercent: 0,
            },
            prev_total_cpu: None,
            core_count,
            cpu_history: SampleWindow::new(HISTORY_POINTS),
            memory_history: SampleWindow::new(HISTORY_POINTS),
        }
    }

    /// A monitor for this machine: the core count is read from the OS.
    pub fn new_live() -> (r: Monitor)
        ensures
            r.wf(),
            r.rows().len() == 0,
            r.cpu_baseline() is None,
    {
        Monitor::new(source::read_core_count())
    }

    /// One sampling pass over the given snapshots and raw counters.
    /// `elapsed` is the interval since the previous pass, in the same time
    /// unit as the snapshots' cumulative CPU-time counters.
    ///
    /// The registry is updated as one pass (fresh percentages, grace-period
    /// eviction); the published system metrics carry the raw counters, the
    /// instantaneous memory percentage and the delta-based global CPU
    /// percentage; both trend windows record their new point.
    pub fn pass(&mut self, snaps: &Vec<ProcessSnapshot>, counters: SystemCounters, elapsed: u64)
        requires
            old(self).wf(),
            snaps_distinct(snaps@),
        ensures
            final(self).wf(),
            final(self).cores() == old(self).cores(),
            pass_applied(
                old(self).rows(),
                final(self).rows(),
                snaps@,
                elapsed,
                old(self).cores(),
                counters.total_memory_bytes,
            ),
            final(self).current_metrics().total_memory_bytes == counters.total_memory_bytes,
            final(self).current_metrics().available_memory_bytes
                == counters.available_memory_bytes,
            final(self).current_metrics().memory_centipercent
                == metrics::spec_memory_centipercent(
                metrics::spec_used_memory(
                    counters.total_memory_bytes,
                    counters.available_memory_bytes,
                ),
                counters.total_memory_bytes,
            ),
            final(self).current_metrics().global_cpu_centipercent
                == metrics::spec_cpu_centipercent(
                old(self).cpu_baseline(),
                spec_total_cpu_sat(snaps@),
                elapsed,
                old(self).cores(),
            ),
            final(self).cpu_baseline() == Some(spec_total_cpu_sat(snaps@)),
            final(self).cpu_trend_points() == slid(
                old(self).cpu_trend_points(),
                HISTORY_POINTS as int,
                final(self).current_metrics().global_cpu_centipercent,
            ),
            final(self).memory_trend_points() == slid(
                old(self).memory_trend_points(),
                HISTORY_POINTS as int,
                final(self).current_metrics().memory_centipercent,
            ),
    {
        let total_cpu: u64 = total_cpu_time(snaps);
        let global_cpu: u64 = metrics::cpu_centipercent(
            self.prev_total_cpu,
            total_cpu,
            elapsed,
            self.core_count,
        );
        let mem_pct: u64 = metrics::system_memory_centipercent(
            counters.total_memory_bytes,
            counters.available_memory_bytes,
        );
        self.registry.update(snaps, elapsed, self.core_count, counters.total_memory_bytes);
        self.metrics = SystemMetrics {
            total_memory_bytes: counters.total_memory_bytes,
            available_memory_bytes: counters.available_memory_bytes,
            global_cpu_centipercent: global_cpu,
            memory_centipercent: mem_pct,
        };
        self.prev_total_cpu = Some(total_cpu);
        self.cpu_history.record(global_cpu);
        self.memory_history.record(mem_pct);
    }

    /// One live pass: reads the OS process table and system counters through
    /// the Snapshot Source and applies them as one pass. Whatever the OS
    /// reported, exactly one well-formed pass is applied.
    pub fn sample(&mut self, elapsed: u64)
        requires
            old(self).wf(),
        ensures
            final(self).wf(),
            final(self).cores() == old(self).cores(),
            exists|ss: Seq<ProcessSnapshot>, cs: SystemCounters|
                snaps_distinct(ss) && pass_applied(
                    old(self).rows(),
                    final(self).rows(),
                    ss,
                    elapsed,
                    old(self).cores(),
                    cs.total_memory_bytes,
                ),
    {
        let snaps = source::read_process_table();
        let counters = source::read_memory_counters();
        self.pass(&snaps, counters, elapsed);
        proof {
            assert(snaps_distinct(snaps@) && pass_applied(
                old(self).rows(),
                self.rows(),
                snaps@,
                elapsed,
                old(self).cores(),
                counters.total_memory_bytes,
            ));
        }
    }

    /// The ordered sequence of published views: CPU percentage descending,
    /// ties broken by ascending process identifier; deterministic between
    /// passes.
    pub fn list_processes(&self) -> (r: Vec<ProcessView>)
        requires
            self.wf(),
        ensures
            views_sorted(r@),
            crate::registry::views_distinct(r@),
            r@.to_multiset() == views_of(self.rows()).to_multiset(),
    {
        self.registry.list()
    }

    /// The system metrics published by the latest pass.
    pub fn system_metrics(&self) -> (r: SystemMetrics)
        ensures
            r == self.current_metrics(),
    {
        self.metrics
    }

    /// The published view of `pid`, if `pid` is tracked.
    pub fn get(&self, pid: u32) -> (r: Option<ProcessView>)
        requires
            self.wf(),
        ensures
            match r {
                Some(v) => rows_has(self.rows(), pid) && v == row_of(self.rows(), pid).view,
                None => !rows_has(self.rows(), pid),
            },
    {
        self.registry.get(pid)
    }

    /// The recorded global CPU trend, oldest first.
    pub fn cpu_trend(&self) -> (r: Vec<u64>)
        ensures
            r@ == self.cpu_trend_points(),
    {
        copy_points(&self.cpu_history)
    }

    /// The recorded memory usage trend, oldest first.
    pub fn memory_trend(&self) -> (r: Vec<u64>)
        ensures
            r@ == self.memory_trend_points(),
    {
        copy_points(&self.memory_history)
    }
}

/// Copies a window's points, oldest first.
fn copy_points(w: &SampleWindow) -> (r: Vec<u64>)
    ensures
        r@ == w.history(),
{
    let n: usize = w.len();
    let mut out: Vec<u64> = Vec::new();
    let mut i: usize = 0;
    while i < n
        invariant
            n == w.history().len(),
            0 <= i <= n,
            out@.len() == i,
            forall|k: int| 0 <= k < i ==> #[trigger] out@[k] == w.history()[k],
        decreases n - i,
    {
        out.push(w.point(i));
        i += 1;
    }
    proof {
        assert(out@ =~= w.history());
    }
    out
}

/// The global CPU percentage of the monitor's latest pass, in hundredths of
/// a percent. A meaningful value needs two passes: until then it is the
/// new-baseline value `0`.
pub fn get_cpu_usage(m: &Monitor) -> (r: u64)
    ensures
        r == m.current_metrics().global_cpu_centipercent,
{
    m.system_metrics().global_cpu_centipercent
}

} // verus!
