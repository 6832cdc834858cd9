//! Snapshot Source: one coherent read of the OS process table and of the
//! system-wide counters, as raw values. All normalization happens in the
//! Metrics Engine; this module only converts what the OS hands back.

use vstd::prelude::*;

use crate::metrics;
use crate::registry::Registry;
use crate::registry::ProcessView;
use crate::registry::views_sorted;
use crate::snapshot::ProcessSnapshot;
use crate::snapshot::SystemCounters;
use crate::snapshot::snaps_distinct;

verus! {

/// Relies on sysinfo's `System::new_all` and `System::processes`: the table
/// is keyed by process identifier (a hash map), so no identifier occurs
/// twice. `Process::accumulated_cpu_time` is the cumulative CPU-time counter
/// in CPU-milliseconds, `Process::memory` the resident set in bytes, and
/// `Process::name` the process name.
#[verifier::external_body]
pub(crate) fn read_process_table() -> (r: Vec<ProcessSnapshot>)
    ensures
        snaps_distinct(r@),
{
    let sys = sysinfo::System::new_all();
    sys.processes().iter().map(
        |(pid, p): (&sysinfo::Pid, &sysinfo::Process)| ProcessSnapshot {
            process_id: pid.as_u32(),
            name: p.name().to_string_lossy().into_owned(),
            cumulative_cpu_time: p.accumulated_cpu_time(),
            resident_memory_bytes: p.memory(),
        },
    ).collect()
}

/// Relies on sysinfo's `System::refresh_memory`, `System::total_memory` and
/// `System::available_memory`: RAM sizes in bytes. The values are whatever
/// the OS reports at this instant.
#[verifier::external_body]
pub(crate) fn read_memory_counters() -> (r: SystemCounters)
{
    let mut sys = sysinfo::System::new();
    sys.refresh_memory();
    SystemCounters {
        total_memory_bytes: sys.total_memory(),
        available_memory_bytes: sys.available_memory(),
    }
}

/// Relies on sysinfo's `System::refresh_cpu_all` and `System::cpus`: one
/// entry per logical CPU the OS knows.
#[verifier::external_body]
pub(crate) fn read_core_count() -> (r: u32)
{
    let mut sys = sysinfo::System::new();
    sys.refresh_cpu_all();
    u32::try_from(sys.cpus().len()).unwrap_or(u32::MAX)
}

/// One coherent pass over the OS process table, as display views in display
/// order. A single pass has no earlier counter to compare against, so every
/// CPU percentage is the new-baseline value `0` (a rate needs two temporally
/// separated samples; the Monitor provides those); memory percentages are
/// instantaneous and real.
pub fn get_process_list() -> (r: Vec<ProcessView>)
    ensures
        views_sorted(r@),
        forall|k: int|
            0 <= k < r@.len() ==> (#[trigger] r@[k]).cpu_centipercent == 0
                && r@[k].memory_centipercent <= metrics::FULL_SCALE,
{
    let snaps = read_process_table();
    let counters = read_memory_counters();
    let mut reg = Registry::new();
    let ghost rs0 = reg.rows();
    reg.update(&snaps, 0, 1, counters.total_memory_bytes);
    let r = reg.list();
    proof {
        broadcast use vstd::seq_lib::group_to_multiset_ensures;

        let rows = reg.rows();
        assert forall|k: int|
            0 <= k < r@.len() implies (#[trigger] r@[k]).cpu_centipercent == 0
            && r@[k].memory_centipercent <= metrics::FULL_SCALE by {
            assert(r@.to_multiset().contains(r@[k]));
            assert(crate::registry::views_of(rows).to_multiset().contains(r@[k]));
            assert(crate::registry::views_of(rows).contains(r@[k]));
            let m = choose|m: int|
                0 <= m < rows.len() && crate::registry::views_of(rows)[m] == r@[k];
            assert(rows[m].view == r@[k]);
            let pid = rows[m].view.process_id;
            assert(crate::snapshot::snaps_has(snaps@, pid));
            let idx = crate::snapshot::snap_index(snaps@, pid);
            assert(0 <= idx < snaps@.len() && snaps@[idx].process_id == pid);
            assert(!crate::registry::rows_has(rs0, pid));
            crate::registry::lemma_row_of_at(rows, m);
            assert(crate::registry::row_matches_snap(
                rows[m],
                None,
                snaps@[idx],
                0,
                1,
                counters.total_memory_bytes,
            ));
            metrics::lemma_memory_centipercent_range(
                snaps@[idx].resident_memory_bytes,
                counters.total_memory_bytes,
            );
        }
    }
    r
}

/// The system-wide memory usage of this instant, in hundredths of a percent,
/// derived from the raw OS counters; always within `[0, 100%]`.
pub fn get_memory_usage() -> (r: u64)
    ensures
        r <= metrics::FULL_SCALE,
{
    let counters = read_memory_counters();
    metrics::system_memory_centipercent(
        counters.total_memory_bytes,
        counters.available_memory_bytes,
    )
}

} // verus!
