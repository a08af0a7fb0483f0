//! CPU runner: the decisions of the timed compute loop. The caller performs
//! one unit of floating-point work whenever a step says so and hands back the
//! clock; the run counts operations and stops once the test duration is over.
use vstd::prelude::*;
use crate::metrics::{rate, rate_spec};

verus! {

/// Length of the CPU test in nanoseconds (5 seconds).
pub const CPU_TEST_NANOS: u64 = 5_000_000_000;

/// Transformation steps in one operation of the workload.
pub const INNER_ITERATIONS: u64 = 1000;

/// Progress is reported once every this many operations.
pub const PROGRESS_EVERY: u64 = 100;

/// What the caller does next.
#[derive(Clone, Copy, Debug, PartialEq, Eq, Structural)]
pub enum CpuStep {
    /// Perform one operation of the workload; report progress first when
    /// `report_progress` is set.
    Work { report_progress: bool },
    /// The run is over.
    Done,
}

/// State of a CPU run: the operations counted so far, the last clock
/// reading (nanoseconds since the run started) and whether it is over.
pub struct CpuRun {
    pub operations: u64,
    pub elapsed_nanos: u64,
    pub finished: bool,
}

impl CpuRun {
    /// A run that has counted nothing yet.
    pub fn new() -> (r: CpuRun)
        ensures
            r.operations == 0,
            r.elapsed_nanos == 0,
            !r.finished,
    {
        CpuRun { operations: 0, elapsed_nanos: 0, finished: false }
    }

    /// Advances the run given the time elapsed since it started. While the
    /// test duration is not over one more operation is counted and ordered;
    /// once it is (or the counter is full) the run ends, keeping that
    /// reading as its elapsed time.
    pub fn step(&mut self, elapsed_nanos: u64) -> (r: CpuStep)
        ensures
            old(self).finished ==> r == CpuStep::Done && *final(self) == *old(self),
            !old(self).finished && elapsed_nanos < CPU_TEST_NANOS && old(self).operations < u64::MAX ==> {
                &&& r == (CpuStep::Work { report_progress: (old(self).operations + 1) % (PROGRESS_EVERY as int) == 0 })
                &&& final(self).operations == old(self).operations + 1
                &&& final(self).elapsed_nanos == elapsed_nanos
                &&& !final(self).finished
            },
            !old(self).finished && !(elapsed_nanos < CPU_TEST_NANOS && old(self).operations < u64::MAX) ==> {
                &&& r == CpuStep::Done
                &&& final(self).operations == old(self).operations
                &&& final(self).elapsed_nanos == elapsed_nanos
                &&& final(self).finished
            },
    {
        if self.finished {
            CpuStep::Done
        } else if elapsed_nanos < CPU_TEST_NANOS && self.operations < u64::MAX {
            self.operations = self.operations + 1;
            self.elapsed_nanos = elapsed_nanos;
            CpuStep::Work { report_progress: self.operations % PROGRESS_EVERY == 0 }
        } else {
            self.elapsed_nanos = elapsed_nanos;
            self.finished = true;
            CpuStep::Done
        }
    }

    /// Operations per second over the elapsed time, in thousandths.
    pub fn score(&self) -> (r: u128)
        ensures
            r == rate_spec(self.operations as int, 1, self.elapsed_nanos as int),
    {
        rate(self.operations, 1, self.elapsed_nanos)
    }
}

} // verus!
