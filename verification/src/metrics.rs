//! Metrics Engine: derives CPU and memory percentages from raw counters taken
//! at two consecutive sampling instants.
//!
//! All percentages are integer hundredths of a percent. CPU time counters and
//! the elapsed interval must be given in the same time unit; the unit itself
//! cancels out of the ratio.

use vstd::prelude::*;

verus! {

/// Hundredths of a percent in one hundred percent.
pub const FULL_SCALE: u64 = 10000;

/// CPU percentage (in hundredths of a percent) derived from two cumulative
/// CPU-time counters of the same process and the elapsed interval between
/// them, clamped to `100% * core_count`.
///
/// A missing previous counter (first sighting), a counter that went backward
/// (identifier reuse after a restart), and a zero elapsed interval all yield
/// `0` rather than an undefined or negative value: the pair is treated as a
/// fresh baseline.
pub open spec fn spec_cpu_centipercent(
    prev: Option<u64>,
    curr: u64,
    elapsed: u64,
    core_count: u32,
) -> int {
    match prev {
        Option::None => 0,
        Option::Some(p) => if curr < p || elapsed == 0 {
            0
        } else {
            let raw = (curr - p) * (FULL_SCALE as int) / (elapsed as int);
            let cap = (FULL_SCALE as int) * (core_count as int);
            if raw > cap {
                cap
            } else {
                raw
            }
        },
    }
}

/// Memory percentage (in hundredths of a percent) of `part` out of `total`
/// bytes, clamped to `100%`. A zero `total` is a defined edge case: the result
/// is `0`, never a fault.
pub open spec fn spec_memory_centipercent(part: u64, total: u64) -> int {
    if total == 0 {
        0
    } else {
        let raw = (part as int) * (FULL_SCALE as int) / (total as int);
        if raw > FULL_SCALE as int {
            FULL_SCALE as int
        } else {
            raw
        }
    }
}

/// The bytes in use on a system with `total` bytes of which `available` can
/// still be handed out; counters momentarily reporting more available than
/// total count as nothing in use.
pub open spec fn spec_used_memory(total: u64, available: u64) -> u64 {
    if available <= total {
        (total - available) as u64
    } else {
        0
    }
}

/// Derives a process's CPU percentage for one sampling pass.
pub fn cpu_centipercent(prev: Option<u64>, curr: u64, elapsed: u64, core_count: u32) -> (r: u64)
    ensures
        r == spec_cpu_centipercent(prev, curr, elapsed, core_count),
        r <= FULL_SCALE * (core_count as u64),
{
    let cap: u64 = FULL_SCALE * (core_count as u64);
    match prev {
        Option::None => 0,
        Option::Some(p) => {
            if curr < p || elapsed == 0 {
                0
            } else {
                let d: u64 = curr - p;
                proof {
                    vstd::arithmetic::mul::lemma_mul_inequality(
                        d as int,
                        u64::MAX as int,
                        FULL_SCALE as int,
                    );
                }
                let raw: u128 = d as u128 * FULL_SCALE as u128 / elapsed as u128;
                if raw > cap as u128 {
                    cap
                } else {
                    raw as u64
                }
            }
        },
    }
}

/// Derives a memory percentage (process resident share or system usage).
pub fn memory_centipercent(part: u64, total: u64) -> (r: u64)
    ensures
        r == spec_memory_centipercent(part, total),
        r <= FULL_SCALE,
{
    if total == 0 {
        0
    } else {
        proof {
            vstd::arithmetic::mul::lemma_mul_inequality(
                part as int,
                u64::MAX as int,
                FULL_SCALE as int,
            );
        }
        let raw: u128 = part as u128 * FULL_SCALE as u128 / total as u128;
        if raw > FULL_SCALE as u128 {
            FULL_SCALE
        } else {
            raw as u64
        }
    }
}

/// System-wide memory usage percentage from the raw total and available byte
/// counters of one sampling pass.
pub fn system_memory_centipercent(total: u64, available: u64) -> (r: u64)
    ensures
        r == spec_memory_centipercent(spec_used_memory(total, available), total),
        r <= FULL_SCALE,
{
    let used: u64 = if available <= total {
        total - available
    } else {
        0
    };
    memory_centipercent(used, total)
}

/// For every pair of temporally ordered counters of one process, with a
/// positive elapsed interval, the derived CPU percentage is a single defined
/// value within `[0, 100% * core_count]`.
pub proof fn lemma_cpu_centipercent_range(prev: u64, curr: u64, elapsed: u64, core_count: u32)
    requires
        prev <= curr,
        elapsed > 0,
    ensures
        0 <= spec_cpu_centipercent(Some(prev), curr, elapsed, core_count),
        spec_cpu_centipercent(Some(prev), curr, elapsed, core_count) <= (FULL_SCALE as int) * (
        core_count as int),
{
}

/// A counter that went backward (identifier reuse) yields exactly `0`, never
/// a negative value and never a fault.
pub proof fn lemma_cpu_centipercent_rollback(prev: u64, curr: u64, elapsed: u64, core_count: u32)
    requires
        curr < prev,
    ensures
        spec_cpu_centipercent(Some(prev), curr, elapsed, core_count) == 0,
{
}

/// A memory percentage always lies in `[0, 100%]`, and a zero total is defined
/// as `0`.
pub proof fn lemma_memory_centipercent_range(part: u64, total: u64)
    ensures
        0 <= spec_memory_centipercent(part, total) <= FULL_SCALE as int,
        total == 0 ==> spec_memory_centipercent(part, total) == 0,
{
}

} // verus!
