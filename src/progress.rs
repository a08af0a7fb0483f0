//! Advisory progress reporting during a measured phase.
use vstd::prelude::*;

verus! {

/// Receives the progress of a running phase as a percentage. Reports are
/// advisory: they never influence what is measured.
pub trait ProgressSink {
    fn set_position(&mut self, percent: u64);
}

/// A sink that ignores every report.
pub struct NoProgress;

impl ProgressSink for NoProgress {
    fn set_position(&mut self, percent: u64) {
    }
}

/// `done / total` as a whole percentage, rounded down, at most 100.
pub open spec fn percent_spec(done: int, total: int) -> int {
    if done >= total { 100 } else { done * 100 / total }
}

/// Whole percentage of `done` out of `total`, at most 100.
pub fn percent(done: u64, total: u64) -> (r: u64)
    requires
        total > 0,
    ensures
        r == percent_spec(done as int, total as int),
        r <= 100,
{
    if done >= total {
        100
    } else {
        assert((done as int) * 100 / (total as int) < 100) by (nonlinear_arith)
            requires done < total, total > 0;
        let r: u128 = ((done as u128) * 100) / (total as u128);
        r as u64
    }
}

} // verus!
