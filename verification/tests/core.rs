use lpm::gateway::classify_outcome;
use lpm::gateway::control;
use lpm::gateway::kill_process;
use lpm::gateway::resume_process;
use lpm::gateway::suspend_process;
use lpm::gateway::ControlAction;
use lpm::gateway::ControlOutcome;
use lpm::gateway::ProbeState;
use lpm::gateway::UNSUPPORTED_SIGNAL;
use lpm::get_input_pid;
use lpm::metrics::cpu_centipercent;
use lpm::metrics::memory_centipercent;
use lpm::metrics::system_memory_centipercent;
use lpm::metrics::FULL_SCALE;
use lpm::monitor::get_cpu_usage;
use lpm::monitor::Monitor;
use lpm::registry::Registry;
use lpm::sampler::SamplerControl;
use lpm::snapshot::total_cpu_time;
use lpm::snapshot::ProcessSnapshot;
use lpm::snapshot::SystemCounters;
use lpm::source::get_memory_usage;
use lpm::source::get_process_list;
use lpm::window::SampleWindow;

fn snap(pid: u32, name: &str, cpu: u64, mem: u64) -> ProcessSnapshot {
    ProcessSnapshot {
        process_id: pid,
        name: name.to_string(),
        cumulative_cpu_time: cpu,
        resident_memory_bytes: mem,
    }
}

#[test]
fn cpu_percent_from_two_ordered_counters() {
    // 50 counter units over an interval of 100 of the same units: 50.00%.
    assert_eq!(cpu_centipercent(Some(100), 150, 100, 1), 5000);
    // Full use of one core.
    assert_eq!(cpu_centipercent(Some(0), 100, 100, 1), 10000);
    // Clamped to 100% times the core count.
    assert_eq!(cpu_centipercent(Some(0), 1_000_000, 1, 2), 20000);
    // Bounded for a busy multi-core pair as well.
    let r = cpu_centipercent(Some(10), 1000, 250, 4);
    assert!(r <= FULL_SCALE * 4);
}

#[test]
fn cpu_percent_first_sighting_is_zero() {
    assert_eq!(cpu_centipercent(None, 12345, 100, 8), 0);
}

#[test]
fn cpu_percent_rollback_is_zero() {
    // Counter went backward (identifier reuse): new baseline, never negative.
    assert_eq!(cpu_centipercent(Some(500), 150, 100, 1), 0);
    assert_eq!(cpu_centipercent(Some(u64::MAX), 0, 100, 4), 0);
}

#[test]
fn cpu_percent_zero_elapsed_is_zero() {
    assert_eq!(cpu_centipercent(Some(100), 150, 0, 1), 0);
}

#[test]
fn memory_percent_in_range_and_zero_total_defined() {
    assert_eq!(memory_centipercent(250, 1000), 2500);
    assert_eq!(memory_centipercent(0, 1000), 0);
    assert_eq!(memory_centipercent(1000, 1000), FULL_SCALE);
    // Zero total is a defined edge case: 0, never a fault.
    assert_eq!(memory_centipercent(123, 0), 0);
    // Momentarily inconsistent counters clamp to 100%.
    assert_eq!(memory_centipercent(2000, 1000), FULL_SCALE);
}

#[test]
fn system_memory_percent_from_counters() {
    // total=1000, available=250: 75.00% used.
    assert_eq!(system_memory_centipercent(1000, 250), 7500);
    assert_eq!(system_memory_centipercent(0, 0), 0);
    // More available than total counts as nothing in use.
    assert_eq!(system_memory_centipercent(1000, 2000), 0);
}

#[test]
fn total_cpu_sums_and_saturates() {
    let ss = vec![snap(1, "a", 10, 0), snap(2, "b", 32, 0)];
    assert_eq!(total_cpu_time(&ss), 42);
    let big = vec![snap(1, "a", u64::MAX, 0), snap(2, "b", 7, 0)];
    assert_eq!(total_cpu_time(&big), u64::MAX);
}

#[test]
fn registry_list_sorted_cpu_desc_pid_asc() {
    let mut reg = Registry::new();
    let pass1 = vec![
        snap(5, "e", 0, 100),
        snap(1, "a", 0, 100),
        snap(3, "c", 0, 100),
        snap(2, "b", 0, 100),
    ];
    reg.update(&pass1, 100, 1, 1000);
    let pass2 = vec![
        snap(5, "e", 40, 100),
        snap(1, "a", 10, 100),
        snap(3, "c", 40, 100),
        snap(2, "b", 90, 100),
    ];
    reg.update(&pass2, 100, 1, 1000);
    let views = reg.list();
    let order: Vec<(u32, u64)> = views.iter().map(|v| (v.process_id, v.cpu_centipercent)).collect();
    // CPU descending; the 40-40 tie broken by ascending identifier.
    assert_eq!(order, vec![(2, 9000), (3, 4000), (5, 4000), (1, 1000)]);
    // Stable across repeated calls with unchanged input.
    let again = reg.list();
    let order_again: Vec<(u32, u64)> =
        again.iter().map(|v| (v.process_id, v.cpu_centipercent)).collect();
    assert_eq!(order, order_again);
}

#[test]
fn registry_grace_period_eviction() {
    let mut reg = Registry::new();
    let both = vec![snap(1, "a", 0, 10), snap(2, "b", 0, 10)];
    reg.update(&both, 100, 1, 1000);
    assert!(reg.get(2).is_some());
    let only_one = vec![snap(1, "a", 5, 10)];
    // First pass without pid 2: kept (one missed pass tolerated).
    reg.update(&only_one, 100, 1, 1000);
    assert!(reg.get(2).is_some());
    assert_eq!(reg.len(), 2);
    // Second consecutive pass without pid 2: removed.
    let only_one_again = vec![snap(1, "a", 10, 10)];
    reg.update(&only_one_again, 100, 1, 1000);
    assert!(reg.get(2).is_none());
    assert_eq!(reg.len(), 1);
}

#[test]
fn registry_reappearing_process_survives() {
    let mut reg = Registry::new();
    reg.update(&vec![snap(1, "a", 0, 10), snap(2, "b", 0, 10)], 100, 1, 1000);
    // Absent one pass...
    reg.update(&vec![snap(1, "a", 0, 10)], 100, 1, 1000);
    // ...but back the next: still tracked, counters fresh.
    reg.update(&vec![snap(1, "a", 0, 10), snap(2, "b", 30, 10)], 100, 1, 1000);
    let v = reg.get(2).expect("pid 2 must still be tracked");
    assert_eq!(v.cpu_centipercent, 3000);
}

#[test]
fn registry_rollback_reports_zero() {
    let mut reg = Registry::new();
    reg.update(&vec![snap(7, "g", 900, 10)], 100, 1, 1000);
    // The identifier was reused: counter went backward, report 0.
    reg.update(&vec![snap(7, "g", 100, 10)], 100, 1, 1000);
    let v = reg.get(7).expect("pid 7 tracked");
    assert_eq!(v.cpu_centipercent, 0);
}

#[test]
fn classify_covers_every_report() {
    // No such process: NotFound, whatever else was reported.
    assert_eq!(classify_outcome(None, None), ControlOutcome::NotFound);
    assert_eq!(classify_outcome(None, Some(true)), ControlOutcome::NotFound);
    // Zombie/dead target: AlreadyExited, not a fault.
    assert_eq!(classify_outcome(Some(ProbeState::Exited), Some(true)), ControlOutcome::AlreadyExited);
    assert_eq!(classify_outcome(Some(ProbeState::Exited), None), ControlOutcome::AlreadyExited);
    // Live target.
    assert_eq!(classify_outcome(Some(ProbeState::Alive), Some(true)), ControlOutcome::Success);
    assert_eq!(
        classify_outcome(Some(ProbeState::Alive), Some(false)),
        ControlOutcome::PermissionDenied
    );
    assert_eq!(
        classify_outcome(Some(ProbeState::Alive), None),
        ControlOutcome::OsError(UNSUPPORTED_SIGNAL)
    );
}

#[test]
fn classify_suspend_idempotent_from_callers_view() {
    // As long as the target stays live and the OS accepts the stop signal,
    // the first and every repeated suspension classify as Success.
    for _ in 0..2 {
        assert_eq!(classify_outcome(Some(ProbeState::Alive), Some(true)), ControlOutcome::Success);
    }
}

#[test]
fn control_missing_pid_not_found() {
    // No Linux pid can be u32::MAX; a fresh OS probe must miss it.
    let r = control(u32::MAX, ControlAction::Terminate);
    assert_eq!(r.process_id, u32::MAX);
    assert_eq!(r.action, ControlAction::Terminate);
    assert_eq!(r.outcome, ControlOutcome::NotFound);
}

#[test]
fn control_wrappers_report_pid_and_action() {
    let k = kill_process(u32::MAX);
    assert_eq!(k.action, ControlAction::Terminate);
    assert_eq!(k.outcome, ControlOutcome::NotFound);
    let s = suspend_process(u32::MAX);
    assert_eq!(s.action, ControlAction::Suspend);
    assert_eq!(s.outcome, ControlOutcome::NotFound);
    let r = resume_process(u32::MAX);
    assert_eq!(r.action, ControlAction::Resume);
    assert_eq!(r.outcome, ControlOutcome::NotFound);
}

#[test]
fn window_evicts_oldest_when_full() {
    let mut w = SampleWindow::new(3);
    for v in 1..=5u64 {
        w.record(v);
    }
    assert_eq!(w.len(), 3);
    assert_eq!(w.point(0), 3);
    assert_eq!(w.point(1), 4);
    assert_eq!(w.point(2), 5);
}

#[test]
fn sampler_start_stop_idempotent() {
    let mut s = SamplerControl::new(200);
    assert!(s.request_start(200));
    // Starting twice is a no-op: no second loop is launched.
    assert!(!s.request_start(500));
    assert!(s.request_stop());
    // Stopping an unstarted loop is a no-op.
    assert!(!s.request_stop());
}

#[test]
fn monitor_end_to_end_fifty_percent() {
    // Synthetic source: pid 1 at counter 100, then 150 one second later
    // (counter and interval in hundredths of a second), single core.
    let mut m = Monitor::new(1);
    let counters = SystemCounters { total_memory_bytes: 1000, available_memory_bytes: 250 };
    m.pass(&vec![snap(1, "a", 100, 100)], counters, 100);
    let first = m.list_processes();
    assert_eq!(first.len(), 1);
    assert_eq!(first[0].cpu_centipercent, 0);
    m.pass(&vec![snap(1, "a", 150, 100)], counters, 100);
    let second = m.list_processes();
    assert_eq!(second.len(), 1);
    assert_eq!(second[0].process_id, 1);
    assert_eq!(second[0].name, "a");
    // 50.00%.
    assert_eq!(second[0].cpu_centipercent, 5000);
}

#[test]
fn monitor_system_metrics_seventy_five_percent() {
    let mut m = Monitor::new(1);
    let counters = SystemCounters { total_memory_bytes: 1000, available_memory_bytes: 250 };
    m.pass(&vec![snap(1, "a", 100, 100)], counters, 100);
    let sm = m.system_metrics();
    // total=1000, available=250: 75.00% used.
    assert_eq!(sm.memory_centipercent, 7500);
    assert_eq!(sm.total_memory_bytes, 1000);
    assert_eq!(sm.available_memory_bytes, 250);
}

#[test]
fn monitor_global_cpu_from_two_passes() {
    let mut m = Monitor::new(1);
    let counters = SystemCounters { total_memory_bytes: 1000, available_memory_bytes: 500 };
    m.pass(&vec![snap(1, "a", 40, 0), snap(2, "b", 10, 0)], counters, 100);
    // First pass: no earlier total, baseline value.
    assert_eq!(get_cpu_usage(&m), 0);
    m.pass(&vec![snap(1, "a", 70, 0), snap(2, "b", 20, 0)], counters, 100);
    // Totals 50 then 90: 40 units over 100.
    assert_eq!(get_cpu_usage(&m), 4000);
    assert_eq!(m.cpu_trend(), vec![0, 4000]);
    assert_eq!(m.memory_trend(), vec![5000, 5000]);
}

#[test]
fn input_pid_placeholder() {
    assert_eq!(get_input_pid(), 1234);
}

#[test]
fn live_process_list_is_sorted_baseline() {
    // Against the real OS: one coherent pass, distinct identifiers,
    // baseline CPU, bounded memory percentages, display order.
    let views = get_process_list();
    assert!(!views.is_empty());
    for v in &views {
        assert_eq!(v.cpu_centipercent, 0);
        assert!(v.memory_centipercent <= FULL_SCALE);
    }
    for pair in views.windows(2) {
        let earlier = &pair[0];
        let later = &pair[1];
        assert!(
            earlier.cpu_centipercent > later.cpu_centipercent
                || (earlier.cpu_centipercent == later.cpu_centipercent
                    && earlier.process_id <= later.process_id)
        );
    }
    for i in 0..views.len() {
        for j in (i + 1)..views.len() {
            assert_ne!(views[i].process_id, views[j].process_id);
        }
    }
}

#[test]
fn live_memory_usage_bounded() {
    let used = get_memory_usage();
    assert!(used <= FULL_SCALE);
    // A machine running this test uses some memory of a nonzero total.
    assert!(used > 0);
}

#[test]
fn live_monitor_samples_real_passes() {
    let mut m = Monitor::new_live();
    m.sample(100);
    m.sample(100);
    let views = m.list_processes();
    assert!(!views.is_empty());
    let sm = m.system_metrics();
    assert!(sm.memory_centipercent <= FULL_SCALE);
    assert!(sm.total_memory_bytes > 0);
    assert_eq!(m.cpu_trend().len(), 2);
}
