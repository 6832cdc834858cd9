//! Control Gateway: turns a high-level intent (terminate, suspend, resume)
//! into one OS signal and classifies the OS response.
//!
//! Existence is re-validated against a fresh OS query immediately before the
//! signal is issued, never against the registry's possibly-stale view. Each
//! call is a single attempt: the gateway never retries and never blocks
//! waiting for the signal's effect.

use vstd::prelude::*;

verus! {

/// A high-level control intent.
#[derive(Clone, Copy, Debug, PartialEq, Eq, Structural)]
pub enum ControlAction {
    Terminate,
    Suspend,
    Resume,
}

/// What a fresh existence probe saw of the target process.
#[derive(Clone, Copy, Debug, PartialEq, Eq, Structural)]
pub enum ProbeState {
    /// The process is still listed but is a zombie or otherwise already dead.
    Exited,
    /// The process is live (running, sleeping, stopped, ...).
    Alive,
}

/// The classified outcome of one control attempt.
#[derive(Clone, Copy, Debug, PartialEq, Eq, Structural)]
pub enum ControlOutcome {
    Success,
    NotFound,
    PermissionDenied,
    AlreadyExited,
    OsError(i32),
}

/// The opaque code reported when the platform does not know the requested
/// signal at all.
pub const UNSUPPORTED_SIGNAL: i32 = -1;

/// The outcome of one control attempt on one process.
#[derive(Clone, Copy, Debug, PartialEq, Eq, Structural)]
pub struct ControlResult {
    pub process_id: u32,
    pub action: ControlAction,
    pub outcome: ControlOutcome,
}

/// How an OS report is classified, for every report the OS can give:
/// no such process is `NotFound`; a zombie or dead target is `AlreadyExited`;
/// for a live target, an unknown signal is an opaque `OsError`, a refused
/// delivery is `PermissionDenied` (the only reason the OS refuses a signal to
/// a live process the caller could name), and a delivered signal is
/// `Success`.
pub open spec fn spec_classify(probe: Option<ProbeState>, delivered: Option<bool>) -> ControlOutcome {
    match probe {
        Option::None => ControlOutcome::NotFound,
        Option::Some(ProbeState::Exited) => ControlOutcome::AlreadyExited,
        Option::Some(ProbeState::Alive) => match delivered {
            Option::None => ControlOutcome::OsError(UNSUPPORTED_SIGNAL),
            Option::Some(false) => ControlOutcome::PermissionDenied,
            Option::Some(true) => ControlOutcome::Success,
        },
    }
}

/// Classifies one OS report into the outcome taxonomy; total over every
/// report, so a control attempt always returns a definite outcome.
pub fn classify_outcome(probe: Option<ProbeState>, delivered: Option<bool>) -> (r: ControlOutcome)
    ensures
        r == spec_classify(probe, delivered),
{
    match probe {
        Option::None => ControlOutcome::NotFound,
        Option::Some(ProbeState::Exited) => ControlOutcome::AlreadyExited,
        Option::Some(ProbeState::Alive) => match delivered {
            Option::None => ControlOutcome::OsError(UNSUPPORTED_SIGNAL),
            Option::Some(false) => ControlOutcome::PermissionDenied,
            Option::Some(true) => ControlOutcome::Success,
        },
    }
}

/// Relies on sysinfo: `System::refresh_processes` takes a fresh process
/// table (dead processes kept, so zombies stay visible), `System::process`
/// looks the target up, `Process::status` tells zombie/dead targets apart
/// from live ones, and `Process::kill_with` sends the Kill, Stop or Continue
/// signal, returning `None` when the platform lacks the signal and otherwise
/// whether delivery succeeded. No signal is sent when the target is not
/// listed.
#[verifier::external_body]
fn probe_and_signal(pid: u32, action: ControlAction) -> (r: (Option<ProbeState>, Option<bool>))
    ensures
        r.0 is None ==> r.1 is None,
{
    let sig = match action {
        ControlAction::Terminate => sysinfo::Signal::Kill,
        ControlAction::Suspend => sysinfo::Signal::Stop,
        ControlAction::Resume => sysinfo::Signal::Continue,
    };
    let mut sys = sysinfo::System::new();
    sys.refresh_processes(sysinfo::ProcessesToUpdate::All, false);
    match sys.process(sysinfo::Pid::from_u32(pid)) {
        None => (None, None),
        Some(p) => {
            let gone = matches!(p.status(), sysinfo::ProcessStatus::Zombie | sysinfo::ProcessStatus::Dead);
            (Some(if gone { ProbeState::Exited } else { ProbeState::Alive }), p.kill_with(sig))
        },
    }
}

/// One control attempt: re-validates existence with a fresh OS query, issues
/// the mapped signal, and classifies whatever the OS reported. Returns
/// promptly with a definite outcome for the requested process and action;
/// never panics.
pub fn control(pid: u32, action: ControlAction) -> (r: ControlResult)
    ensures
        r.process_id == pid,
        r.action == action,
        exists|probe: Option<ProbeState>, delivered: Option<bool>|
            r.outcome == spec_classify(probe, delivered),
{
    let (probe, delivered) = probe_and_signal(pid, action);
    let outcome = classify_outcome(probe, delivered);
    ControlResult { process_id: pid, action, outcome }
}

/// Requests termination of `pid`.
pub fn kill_process(pid: u32) -> (r: ControlResult)
    ensures
        r.process_id == pid,
        r.action == ControlAction::Terminate,
{
    control(pid, ControlAction::Terminate)
}

/// Requests suspension of `pid`.
pub fn suspend_process(pid: u32) -> (r: ControlResult)
    ensures
        r.process_id == pid,
        r.action == ControlAction::Suspend,
{
    control(pid, ControlAction::Suspend)
}

/// Requests that a suspended `pid` continue.
pub fn resume_process(pid: u32) -> (r: ControlResult)
    ensures
        r.process_id == pid,
        r.action == ControlAction::Resume,
{
    control(pid, ControlAction::Resume)
}

/// A control attempt on a process the OS does not list is classified
/// `NotFound`, whatever the action and whatever else was reported: never a
/// fault.
pub proof fn lemma_missing_process_not_found(delivered: Option<bool>)
    ensures
        spec_classify(None, delivered) == ControlOutcome::NotFound,
{
}

/// Suspension is idempotent from the caller's view: as long as the target
/// stays live and the OS accepts the stop signal, every attempt — the first
/// and each repeat on the already-suspended process — classifies as
/// `Success`.
pub proof fn lemma_suspend_idempotent()
    ensures
        spec_classify(Some(ProbeState::Alive), Some(true)) == ControlOutcome::Success,
{
}

} // verus!
