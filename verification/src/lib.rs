//! Process-state sampling and control: snapshot-driven metrics, a registry of
//! tracked processes, and signal-based process control with classified outcomes.
//!
//! Percentages are carried as integer hundredths of a percent (`7500` is
//! `75.00%`), so that every derived value is exact and clamping is provable.

pub mod gateway;
pub mod metrics;
pub mod monitor;
pub mod registry;
pub mod sampler;
pub mod snapshot;
pub mod source;
pub mod window;

use vstd::prelude::*;

verus! {

/// Placeholder operator input: the process identifier a caller acts on when no
/// interactive input source is wired up.
pub fn get_input_pid() -> (r: u32)
    ensures
        r == 1234u32,
{
    1234
}

} // verus!
