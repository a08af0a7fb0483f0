//! Disk runner: the decisions of the disk benchmark. The run is a fixed plan
//! of file operations on a scratch file; the caller performs each action,
//! reports whether it succeeded and reads the clock, and the run moves on.
//! A failure after the file was created moves the run straight to removing
//! it, so no run ends with the scratch file left behind unless its removal
//! itself failed.
use vstd::prelude::*;
use crate::metrics::{rate, rate_spec, BYTES_PER_MB};
use crate::platform::draw_below;

verus! {

/// Bytes written and read back sequentially (512 MiB).
pub const DISK_TEST_SIZE: u64 = 536_870_912;

/// Size of one disk operation (1 MiB).
pub const DISK_CHUNK_SIZE: u64 = 1_048_576;

/// Chunks in the sequential phases.
pub const DISK_CHUNKS: u64 = 512;

/// Operations in the random-access phase.
pub const RANDOM_OPS: u64 = 1000;

/// Random offsets are drawn below this bound.
pub const RANDOM_OFFSET_BOUND: u64 = 535_822_336;

/// Name of the scratch file, relative to the working directory.
pub const SCRATCH_FILE: &'static str = "disk_benchmark_test.tmp";

/// Plan positions where each part of the run begins.
pub const WRITE_BASE: u64 = 1;
pub const SYNC_POS: u64 = 513;
pub const REWIND_POS: u64 = 514;
pub const READ_BASE: u64 = 515;
pub const RANDOM_BASE: u64 = 1027;
pub const REMOVE_POS: u64 = 2027;
pub const FINISHED_POS: u64 = 2028;

/// One step of the disk benchmark, to be performed by the caller.
#[derive(Clone, Copy, Debug, PartialEq, Eq, Structural)]
pub enum DiskAction {
    /// Create the scratch file, truncating any earlier one, for reading and
    /// writing.
    Create,
    /// Write one chunk of fresh random bytes at the current position, which
    /// is `offset`.
    WriteChunk { offset: u64 },
    /// Flush the file durably to storage.
    Sync,
    /// Reposition to the start of the file.
    Rewind,
    /// Read one chunk at the current position, which is `offset`.
    ReadChunk { offset: u64 },
    /// Seek to `offset` and read one chunk.
    RandomRead { offset: u64 },
    /// Seek to `offset` and write one chunk of fresh random bytes.
    RandomWrite { offset: u64 },
    /// Close and delete the scratch file.
    Remove,
    /// Nothing is left to do.
    Finished,
}

/// Offsets for the random-access phase: one per operation, each below the
/// bound so that a whole chunk fits inside the written file.
pub open spec fn valid_offsets(offsets: Seq<u64>) -> bool {
    &&& offsets.len() == RANDOM_OPS
    &&& forall|i: int| 0 <= i < offsets.len() ==> offsets[i] < RANDOM_OFFSET_BOUND
}

/// The action at position `k` of the plan of a run that meets no failure.
pub open spec fn planned_action(offsets: Seq<u64>, k: int) -> DiskAction {
    if k <= 0 {
        DiskAction::Create
    } else if k < SYNC_POS {
        DiskAction::WriteChunk { offset: ((k - WRITE_BASE) * DISK_CHUNK_SIZE) as u64 }
    } else if k == SYNC_POS {
        DiskAction::Sync
    } else if k == REWIND_POS {
        DiskAction::Rewind
    } else if k < RANDOM_BASE {
        DiskAction::ReadChunk { offset: ((k - READ_BASE) * DISK_CHUNK_SIZE) as u64 }
    } else if k < REMOVE_POS {
        let i = k - RANDOM_BASE;
        if i % 2 == 0 {
            DiskAction::RandomRead { offset: offsets[i] }
        } else {
            DiskAction::RandomWrite { offset: offsets[i] }
        }
    } else if k == REMOVE_POS {
        DiskAction::Remove
    } else {
        DiskAction::Finished
    }
}

/// Elapsed nanoseconds between two clock readings, zero if they run
/// backwards.
pub open spec fn span(from: u64, to: u64) -> int {
    if to >= from { to - from } else { 0 }
}

/// Results of a disk run: sequential speeds in thousandths of a megabyte per
/// second and random operations per second in thousandths.
#[derive(Clone, Copy, Debug, PartialEq, Eq, Structural)]
pub struct DiskMetrics {
    pub write_speed: u128,
    pub read_speed: u128,
    pub iops: u128,
}

/// State of a disk run. `pos` is the position in the plan whose action comes
/// next; a failure moves it to the removal of the file, or to the end when
/// there is no file to remove. The clock readings (nanoseconds on one
/// monotonic clock) mark where the timed phases begin and end.
pub struct DiskRun {
    pub pos: u64,
    pub offsets: Vec<u64>,
    pub failed: bool,
    pub created: bool,
    pub removed: bool,
    pub remove_failed: bool,
    pub write_start: u64,
    pub write_end: u64,
    pub read_start: u64,
    pub read_end: u64,
    pub random_start: u64,
    pub random_end: u64,
}

impl DiskRun {
    /// The run's own invariant: its position is in the plan, its offsets
    /// are valid, and the file exists between its creation and its removal.
    pub open spec fn wf(&self) -> bool {
        &&& self.pos <= FINISHED_POS
        &&& valid_offsets(self.offsets@)
        &&& (self.pos == 0 ==> !self.created && !self.removed && !self.failed)
        &&& (1 <= self.pos <= REMOVE_POS ==> self.created && !self.removed)
        &&& (self.pos == FINISHED_POS && self.created ==> (self.removed || self.remove_failed))
        &&& (self.removed ==> !self.remove_failed)
        &&& (self.remove_failed ==> self.failed && self.pos == FINISHED_POS)
        &&& (!self.failed ==> !self.remove_failed && (self.pos == FINISHED_POS ==> self.removed))
    }

    /// Whether the run is over.
    pub open spec fn is_finished(&self) -> bool {
        self.pos == FINISHED_POS
    }

    /// Whether the scratch file may still exist on disk.
    pub open spec fn file_may_exist(&self) -> bool {
        self.created && !self.removed
    }

    /// A run at the start of the plan, with the given random offsets.
    pub fn new(offsets: Vec<u64>) -> (r: DiskRun)
        requires
            valid_offsets(offsets@),
        ensures
            r.wf(),
            r.pos == 0,
            r.offsets@ == offsets@,
            !r.failed,
            !r.created,
    {
        DiskRun {
            pos: 0,
            offsets,
            failed: false,
            created: false,
            removed: false,
            remove_failed: false,
            write_start: 0,
            write_end: 0,
            read_start: 0,
            read_end: 0,
            random_start: 0,
            random_end: 0,
        }
    }

    /// A run at the start of the plan, with offsets drawn uniformly below
    /// `RANDOM_OFFSET_BOUND`.
    pub fn with_random_offsets(rng: &mut rand::rngs::ThreadRng) -> (r: DiskRun)
        ensures
            r.wf(),
            r.pos == 0,
            !r.failed,
            !r.created,
    {
        let offsets = random_offsets(rng);
        DiskRun::new(offsets)
    }

    /// The action the caller performs next.
    pub fn next_action(&self) -> (r: DiskAction)
        requires
            self.wf(),
        ensures
            r == planned_action(self.offsets@, self.pos as int),
    {
        let k = self.pos;
        if k == 0 {
            DiskAction::Create
        } else if k < SYNC_POS {
            DiskAction::WriteChunk { offset: (k - WRITE_BASE) * DISK_CHUNK_SIZE }
        } else if k == SYNC_POS {
            DiskAction::Sync
        } else if k == REWIND_POS {
            DiskAction::Rewind
        } else if k < RANDOM_BASE {
            DiskAction::ReadChunk { offset: (k - READ_BASE) * DISK_CHUNK_SIZE }
        } else if k < REMOVE_POS {
            let i = k - RANDOM_BASE;
            let offset = self.offsets[i as usize];
            if i % 2 == 0 {
                DiskAction::RandomRead { offset }
            } else {
                DiskAction::RandomWrite { offset }
            }
        } else if k == REMOVE_POS {
            DiskAction::Remove
        } else {
            DiskAction::Finished
        }
    }

    /// Records the outcome of the action just performed and the clock
    /// reading taken right after it. On success the run moves to the next
    /// position of the plan. On failure it is marked failed and moves to the
    /// removal of the file, or to the end when the file was never created or
    /// its removal is what failed. A finished run stays as it is.
    pub fn complete(&mut self, ok: bool, clock: u64)
        requires
            old(self).wf(),
        ensures
            final(self).wf(),
            final(self).offsets@ == old(self).offsets@,
            old(self).is_finished() ==> *final(self) == *old(self),
            !old(self).is_finished() ==> final(self).pos > old(self).pos,
            !old(self).is_finished() && ok ==> {
                &&& final(self).pos == old(self).pos + 1
                &&& final(self).failed == old(self).failed
            },
            !old(self).is_finished() && !ok ==> {
                &&& final(self).failed
                &&& final(self).pos == (if old(self).pos == 0 || old(self).pos == REMOVE_POS {
                    FINISHED_POS
                } else {
                    REMOVE_POS
                })
                &&& final(self).remove_failed == (old(self).pos == REMOVE_POS)
            },
            final(self).write_start == (if !old(self).is_finished() && ok && old(self).pos == 0 {
                clock
            } else {
                old(self).write_start
            }),
            final(self).write_end == (if !old(self).is_finished() && ok && old(self).pos == SYNC_POS {
                clock
            } else {
                old(self).write_end
            }),
            final(self).read_start == (if !old(self).is_finished() && ok && old(self).pos == REWIND_POS {
                clock
            } else {
                old(self).read_start
            }),
            final(self).read_end == (if !old(self).is_finished() && ok && old(self).pos == RANDOM_BASE - 1 {
                clock
            } else {
                old(self).read_end
            }),
            final(self).random_start == (if !old(self).is_finished() && ok && old(self).pos == RANDOM_BASE - 1 {
                clock
            } else {
                old(self).random_start
            }),
            final(self).random_end == (if !old(self).is_finished() && ok && old(self).pos == REMOVE_POS - 1 {
                clock
            } else {
                old(self).random_end
            }),
    {
        let k = self.pos;
        if k == FINISHED_POS {
            return;
        }
        if ok {
            if k == 0 {
                self.created = true;
                self.write_start = clock;
            } else if k == SYNC_POS {
                self.write_end = clock;
            } else if k == REWIND_POS {
                self.read_start = clock;
            } else if k == RANDOM_BASE - 1 {
                self.read_end = clock;
                self.random_start = clock;
            } else if k == REMOVE_POS - 1 {
                self.random_end = clock;
            } else if k == REMOVE_POS {
                self.removed = true;
            }
            self.pos = k + 1;
        } else {
            self.failed = true;
            if k == 0 {
                self.pos = FINISHED_POS;
            } else if k == REMOVE_POS {
                self.remove_failed = true;
                self.pos = FINISHED_POS;
            } else {
                self.pos = REMOVE_POS;
            }
        }
    }

    /// Speeds of a run, from the lengths of its timed phases.
    pub fn metrics(&self) -> (r: DiskMetrics)
        ensures
            r.write_speed == rate_spec(DISK_TEST_SIZE as int, BYTES_PER_MB as int, span(self.write_start, self.write_end)),
            r.read_speed == rate_spec(DISK_TEST_SIZE as int, BYTES_PER_MB as int, span(self.read_start, self.read_end)),
            r.iops == rate_spec(RANDOM_OPS as int, 1, span(self.random_start, self.random_end)),
    {
        DiskMetrics {
            write_speed: rate(DISK_TEST_SIZE, BYTES_PER_MB, elapsed(self.write_start, self.write_end)),
            read_speed: rate(DISK_TEST_SIZE, BYTES_PER_MB, elapsed(self.read_start, self.read_end)),
            iops: rate(RANDOM_OPS, 1, elapsed(self.random_start, self.random_end)),
        }
    }

    /// The metrics of a run that finished without failure; `None` while it
    /// runs and after a failure.
    pub fn outcome(&self) -> (r: Option<DiskMetrics>)
        ensures
            r.is_some() <==> self.is_finished() && !self.failed,
            r.is_some() ==> r.unwrap() == (DiskMetrics {
                write_speed: rate_spec(DISK_TEST_SIZE as int, BYTES_PER_MB as int, span(self.write_start, self.write_end)) as u128,
                read_speed: rate_spec(DISK_TEST_SIZE as int, BYTES_PER_MB as int, span(self.read_start, self.read_end)) as u128,
                iops: rate_spec(RANDOM_OPS as int, 1, span(self.random_start, self.random_end)) as u128,
            }),
    {
        if self.pos == FINISHED_POS && !self.failed {
            Some(self.metrics())
        } else {
            None
        }
    }
}

/// Nanoseconds from one clock reading to a later one, zero if they run
/// backwards.
fn elapsed(from: u64, to: u64) -> (r: u64)
    ensures
        r == span(from, to),
{
    if to >= from { to - from } else { 0 }
}

/// Draws one offset per random operation, each uniformly below
/// `RANDOM_OFFSET_BOUND`.
pub fn random_offsets(rng: &mut rand::rngs::ThreadRng) -> (r: Vec<u64>)
    ensures
        valid_offsets(r@),
{
    let mut offsets: Vec<u64> = Vec::new();
    let mut i: u64 = 0;
    while i < RANDOM_OPS
        invariant
            i <= RANDOM_OPS,
            offsets@.len() == i,
            forall|j: int| 0 <= j < offsets@.len() ==> offsets@[j] < RANDOM_OFFSET_BOUND,
        decreases RANDOM_OPS - i,
    {
        let o = draw_below(rng, RANDOM_OFFSET_BOUND);
        offsets.push(o);
        i = i + 1;
    }
    offsets
}

/// The sequential write phase is `DISK_CHUNKS` writes of one chunk each, at
/// the consecutive offsets `0, DISK_CHUNK_SIZE, 2 * DISK_CHUNK_SIZE, ...`, so
/// it writes exactly `DISK_TEST_SIZE` bytes; no other step of the plan writes
/// sequentially, and the flush comes right after the last chunk.
pub proof fn lemma_sequential_write_plan(offsets: Seq<u64>)
    ensures
        DISK_CHUNKS * DISK_CHUNK_SIZE == DISK_TEST_SIZE,
        forall|i: int|
            0 <= i < DISK_CHUNKS ==> #[trigger] planned_action(offsets, WRITE_BASE + i)
                == (DiskAction::WriteChunk { offset: (i * DISK_CHUNK_SIZE) as u64 })
                && i * DISK_CHUNK_SIZE + DISK_CHUNK_SIZE <= DISK_TEST_SIZE,
        forall|k: int|
            #[trigger] planned_action(offsets, k) is WriteChunk ==> WRITE_BASE <= k < WRITE_BASE
                + DISK_CHUNKS,
        planned_action(offsets, WRITE_BASE + DISK_CHUNKS) == DiskAction::Sync,
{
    assert forall|i: int| 0 <= i < DISK_CHUNKS implies #[trigger] planned_action(offsets, WRITE_BASE + i)
        == (DiskAction::WriteChunk { offset: (i * DISK_CHUNK_SIZE) as u64 })
        && i * DISK_CHUNK_SIZE + DISK_CHUNK_SIZE <= DISK_TEST_SIZE by {
        assert(i * DISK_CHUNK_SIZE + DISK_CHUNK_SIZE <= DISK_TEST_SIZE) by (nonlinear_arith)
            requires 0 <= i < 512, DISK_CHUNK_SIZE == 1_048_576, DISK_TEST_SIZE == 536_870_912;
    }
}

/// The sequential read phase reads the same chunks back in the same order,
/// after the file was flushed and rewound.
pub proof fn lemma_sequential_read_plan(offsets: Seq<u64>)
    ensures
        planned_action(offsets, REWIND_POS as int) == DiskAction::Rewind,
        forall|i: int|
            0 <= i < DISK_CHUNKS ==> #[trigger] planned_action(offsets, READ_BASE + i)
                == (DiskAction::ReadChunk { offset: (i * DISK_CHUNK_SIZE) as u64 }),
        forall|k: int|
            #[trigger] planned_action(offsets, k) is ReadChunk ==> READ_BASE <= k < READ_BASE
                + DISK_CHUNKS,
        READ_BASE + DISK_CHUNKS == RANDOM_BASE,
{
}

/// The random-access phase is exactly `RANDOM_OPS` operations: the one of
/// even index reads a chunk and the one of odd index writes one, each at its
/// own offset, which lies in `[0, DISK_TEST_SIZE - DISK_CHUNK_SIZE)`. It comes
/// after every sequential write, and the removal of the file follows it.
pub proof fn lemma_random_phase_plan(offsets: Seq<u64>)
    requires
        valid_offsets(offsets),
    ensures
        RANDOM_OFFSET_BOUND == DISK_TEST_SIZE - DISK_CHUNK_SIZE,
        forall|i: int|
            0 <= i < RANDOM_OPS ==> #[trigger] planned_action(offsets, RANDOM_BASE + i) == (if i
                % 2 == 0 {
                DiskAction::RandomRead { offset: offsets[i] }
            } else {
                DiskAction::RandomWrite { offset: offsets[i] }
            }) && offsets[i] < DISK_TEST_SIZE - DISK_CHUNK_SIZE,
        forall|k: int|
            (#[trigger] planned_action(offsets, k) is RandomRead || planned_action(offsets, k) is RandomWrite)
                ==> RANDOM_BASE <= k < RANDOM_BASE + RANDOM_OPS,
        forall|j: int, k: int|
            #[trigger] planned_action(offsets, j) is WriteChunk && #[trigger] planned_action(offsets, k) is RandomWrite
                ==> j < k,
        planned_action(offsets, RANDOM_BASE + RANDOM_OPS) == DiskAction::Remove,
{
}

/// A finished run that created the scratch file attempted to remove it, so
/// unless that removal failed no file is left behind.
pub proof fn lemma_finished_run_leaves_no_file(run: DiskRun)
    requires
        run.wf(),
        run.is_finished(),
    ensures
        run.created ==> run.removed || run.remove_failed,
        !run.remove_failed ==> !run.file_may_exist(),
{
}

} // verus!
