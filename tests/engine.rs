use benchmark_tool::cpu::{CpuRun, CpuStep, CPU_TEST_NANOS};
use benchmark_tool::disk::{
    random_offsets, DiskAction, DiskRun, DISK_CHUNK_SIZE, DISK_TEST_SIZE, RANDOM_OFFSET_BOUND,
    RANDOM_OPS,
};
use benchmark_tool::memory::{
    checksum_in_chunks, fill_in_chunks, pointer_chase, run_memory_benchmark_sized,
    LATENCY_ITERATIONS,
};
use benchmark_tool::metrics::{per_op, rate, saturate_nanos, BYTES_PER_MB};
use benchmark_tool::progress::{percent, NoProgress, ProgressSink};
use benchmark_tool::rating::{rate_average, rate_overall, rate_score, Domain, Rating};
use benchmark_tool::results::{average, BenchmarkResults};
use benchmark_tool::disk::DiskMetrics;

struct Recorder {
    positions: Vec<u64>,
}

impl ProgressSink for Recorder {
    fn set_position(&mut self, percent: u64) {
        self.positions.push(percent);
    }
}

#[test]
fn cpu_score_of_mock_clock_is_exact() {
    let mut run = CpuRun::new();
    for _ in 0..2_500_000u64 {
        assert!(matches!(run.step(0), CpuStep::Work { .. }));
    }
    assert_eq!(run.step(5_000_000_000), CpuStep::Done);
    assert_eq!(run.operations, 2_500_000);
    assert_eq!(run.score(), 500_000_000);
    // exactly on the threshold of Good, which must be exceeded
    assert_eq!(rate_score(Domain::Cpu, run.score()), Rating::Fair);
    assert_eq!(rate_overall(run.score(), 0, 0, 0, 0), Rating::NeedsImprovement);
}

#[test]
fn cpu_run_reports_progress_every_hundred_operations() {
    let mut run = CpuRun::new();
    for i in 1..=250u64 {
        let step = run.step(i);
        assert_eq!(step, CpuStep::Work { report_progress: i % 100 == 0 });
    }
    assert_eq!(run.step(CPU_TEST_NANOS - 1), CpuStep::Work { report_progress: false });
    assert_eq!(run.step(CPU_TEST_NANOS), CpuStep::Done);
    assert_eq!(run.step(0), CpuStep::Done);
    assert_eq!(run.operations, 251);
    assert_eq!(run.elapsed_nanos, CPU_TEST_NANOS);
}

#[test]
fn memory_write_speed_of_tenth_second() {
    assert_eq!(rate(268_435_456, BYTES_PER_MB, 100_000_000), 2_560_000);
}

#[test]
fn rate_clamps_zero_elapsed() {
    assert_eq!(rate(7, 1, 0), rate(7, 1, 1));
    assert_eq!(rate(7, 1, 0), 7_000_000_000_000);
    assert_eq!(rate(u64::MAX, 1, 0), (u64::MAX as u128) * 1_000_000_000_000);
    assert_eq!(rate(0, 1, 0), 0);
    assert_eq!(rate(3, 1, 2_000_000_000), 1_500);
}

#[test]
fn latency_per_access() {
    assert_eq!(per_op(5_000_000, LATENCY_ITERATIONS), 5_000);
    assert_eq!(per_op(1, 3), 333);
}

#[test]
fn saturating_clock_reading() {
    assert_eq!(saturate_nanos(42), 42);
    assert_eq!(saturate_nanos(u128::MAX), u64::MAX);
}

#[test]
fn cpu_thresholds() {
    assert_eq!(rate_score(Domain::Cpu, 1_000_000_001), Rating::Excellent);
    assert_eq!(rate_score(Domain::Cpu, 1_000_000_000), Rating::VeryGood);
    assert_eq!(rate_score(Domain::Cpu, 750_000_000), Rating::Good);
    assert_eq!(rate_score(Domain::Cpu, 500_000_001), Rating::Good);
    assert_eq!(rate_score(Domain::Cpu, 500_000_000), Rating::Fair);
    assert_eq!(rate_score(Domain::Cpu, 250_000_000), Rating::NeedsImprovement);
    assert_eq!(rate_score(Domain::Cpu, 0), Rating::NeedsImprovement);
}

#[test]
fn memory_thresholds_on_average() {
    assert_eq!(rate_average(Domain::Memory, 12_000_000, 9_000_000), Rating::Excellent);
    assert_eq!(rate_average(Domain::Memory, 10_000_000, 10_000_000), Rating::VeryGood);
    assert_eq!(rate_average(Domain::Memory, 10_000_000, 10_000_001), Rating::Excellent);
    assert_eq!(rate_average(Domain::Memory, 5_000_000, 5_000_000), Rating::Fair);
    assert_eq!(rate_average(Domain::Memory, 0, 10_000_001), Rating::Good);
    assert_eq!(rate_average(Domain::Memory, 2_500_000, 2_500_000), Rating::NeedsImprovement);
    assert_eq!(rate_average(Domain::Memory, u128::MAX, u128::MAX), Rating::Excellent);
}

#[test]
fn disk_thresholds_on_average() {
    assert_eq!(rate_average(Domain::Disk, 1_500_000, 600_000), Rating::Excellent);
    assert_eq!(rate_average(Domain::Disk, 600_000, 500_000), Rating::VeryGood);
    assert_eq!(rate_average(Domain::Disk, 300_000, 250_000), Rating::Good);
    assert_eq!(rate_average(Domain::Disk, 100_000, 100_002), Rating::Fair);
    assert_eq!(rate_average(Domain::Disk, 100_000, 100_000), Rating::NeedsImprovement);
}

#[test]
fn overall_rating_counts_passing_dimensions() {
    assert_eq!(rate_overall(500_000_001, 5_000_001, 5_000_000, 250_001, 250_000), Rating::Excellent);
    assert_eq!(rate_overall(500_000_001, 5_000_001, 5_000_000, 250_000, 250_000), Rating::VeryGood);
    assert_eq!(rate_overall(500_000_000, 9_000_000, 9_000_000, 900_000, 900_000), Rating::VeryGood);
    assert_eq!(rate_overall(0, 0, 0, 600_000, 0), Rating::Good);
    assert_eq!(rate_overall(500_000_000, 5_000_000, 5_000_000, 250_000, 250_000), Rating::NeedsImprovement);
}

#[test]
fn rating_labels() {
    assert_eq!(Rating::Excellent.label(), "Excellent");
    assert_eq!(Rating::VeryGood.label(), "Very Good");
    assert_eq!(Rating::Good.label(), "Good");
    assert_eq!(Rating::Fair.label(), "Fair");
    assert_eq!(Rating::NeedsImprovement.label(), "Needs Improvement");
}

#[test]
fn results_start_at_zero_and_fill_in() {
    let mut r = BenchmarkResults::default();
    assert_eq!(r.cpu_score, 0);
    assert_eq!(r.disk_iops, 0);
    assert_eq!(r.overall_rating(), Rating::NeedsImprovement);
    r.record_cpu(800_000_000);
    r.record_disk(&DiskMetrics { write_speed: 400_000, read_speed: 700_000, iops: 9_000 });
    assert_eq!(r.cpu_score, 800_000_000);
    assert_eq!(r.disk_read_speed, 700_000);
    assert_eq!(r.disk_write_speed, 400_000);
    assert_eq!(r.disk_iops, 9_000);
    assert_eq!(r.memory_read_speed, 0);
    assert_eq!(r.cpu_rating(), Rating::VeryGood);
    assert_eq!(r.disk_rating(), Rating::VeryGood);
    assert_eq!(r.memory_rating(), Rating::NeedsImprovement);
    assert_eq!(r.overall_rating(), Rating::VeryGood);
}

#[test]
fn average_rounds_down_without_overflow() {
    assert_eq!(average(3, 4), 3);
    assert_eq!(average(u128::MAX, u128::MAX), u128::MAX);
    assert_eq!(average(u128::MAX, u128::MAX - 1), u128::MAX - 1);
}

#[test]
fn percent_is_capped() {
    assert_eq!(percent(0, 512), 0);
    assert_eq!(percent(256, 512), 50);
    assert_eq!(percent(2_500_000_000, CPU_TEST_NANOS), 50);
    assert_eq!(percent(9, 5), 100);
}

#[test]
fn checksum_wraps_and_reports_chunks() {
    let data: Vec<u8> = (0..10u32).map(|i| (i * 30) as u8).collect();
    let expected: u64 = data.iter().map(|&b| b as u64).sum();
    let mut rec = Recorder { positions: Vec::new() };
    assert_eq!(checksum_in_chunks(&data, 4, &mut rec), expected);
    assert_eq!(rec.positions, vec![40, 80, 100]);
    assert_eq!(checksum_in_chunks(&[], 4, &mut NoProgress), 0);
}

#[test]
fn pointer_chase_follows_byte_values() {
    let data: Vec<u8> = vec![3, 0, 1, 2, 9];
    // 0 -> 3 -> 2 -> 1 -> 0
    assert_eq!(pointer_chase(&data, 0), 0);
    assert_eq!(pointer_chase(&data, 1), 3);
    assert_eq!(pointer_chase(&data, 2), 2);
    assert_eq!(pointer_chase(&data, 4), 0);
    let wide: Vec<u8> = vec![200, 7];
    assert_eq!(pointer_chase(&wide, 1), 0);
}

#[test]
fn fill_keeps_length_and_changes_bytes() {
    let mut rng = rand::thread_rng();
    let mut data = vec![0u8; 4096];
    let mut rec = Recorder { positions: Vec::new() };
    fill_in_chunks(&mut data, 1024, &mut rng, &mut rec);
    assert_eq!(data.len(), 4096);
    assert!(data.iter().any(|&b| b != 0));
    assert_eq!(rec.positions, vec![25, 50, 75, 100]);
}

#[test]
fn small_memory_run_is_consistent() {
    let mut rng = rand::thread_rng();
    let size = 1usize << 20;
    let m = run_memory_benchmark_sized(size, &mut rng, &mut NoProgress);
    assert_eq!(m.write_speed, rate(size as u64, BYTES_PER_MB, m.write_nanos));
    assert_eq!(m.read_speed, rate(size as u64, BYTES_PER_MB, m.read_nanos));
    assert_eq!(m.latency, per_op(m.latency_nanos, LATENCY_ITERATIONS));
    assert!(m.chase_end < size);
}

#[test]
fn random_offsets_stay_in_range() {
    let mut rng = rand::thread_rng();
    let offsets = random_offsets(&mut rng);
    assert_eq!(offsets.len() as u64, RANDOM_OPS);
    assert!(offsets.iter().all(|&o| o < DISK_TEST_SIZE - DISK_CHUNK_SIZE));
    assert_eq!(RANDOM_OFFSET_BOUND, DISK_TEST_SIZE - DISK_CHUNK_SIZE);
    assert!(offsets.iter().any(|&o| o != offsets[0]));
}

fn fixed_offsets() -> Vec<u64> {
    (0..RANDOM_OPS).map(|i| i * 4096).collect()
}

#[test]
fn disk_plan_of_successful_run() {
    let offsets = fixed_offsets();
    let mut run = DiskRun::new(offsets.clone());
    let mut actions = Vec::new();
    let mut clock = 0u64;
    loop {
        let a = run.next_action();
        if a == DiskAction::Finished {
            break;
        }
        actions.push(a);
        clock += 1_000;
        run.complete(true, clock);
    }
    assert_eq!(actions[0], DiskAction::Create);
    let writes: Vec<u64> = actions
        .iter()
        .filter_map(|a| match a {
            DiskAction::WriteChunk { offset } => Some(*offset),
            _ => None,
        })
        .collect();
    assert_eq!(writes.len(), 512);
    assert_eq!(writes.len() as u64 * DISK_CHUNK_SIZE, DISK_TEST_SIZE);
    for (i, w) in writes.iter().enumerate() {
        assert_eq!(*w, i as u64 * DISK_CHUNK_SIZE);
    }
    assert_eq!(actions[513], DiskAction::Sync);
    assert_eq!(actions[514], DiskAction::Rewind);
    let reads = actions.iter().filter(|a| matches!(a, DiskAction::ReadChunk { .. })).count();
    assert_eq!(reads, 512);
    let random: Vec<DiskAction> = actions
        .iter()
        .copied()
        .filter(|a| matches!(a, DiskAction::RandomRead { .. } | DiskAction::RandomWrite { .. }))
        .collect();
    assert_eq!(random.len(), 1000);
    for (i, a) in random.iter().enumerate() {
        if i % 2 == 0 {
            assert_eq!(*a, DiskAction::RandomRead { offset: offsets[i] });
        } else {
            assert_eq!(*a, DiskAction::RandomWrite { offset: offsets[i] });
        }
    }
    assert_eq!(*actions.last().unwrap(), DiskAction::Remove);
    assert_eq!(actions.len(), 2028);
    assert!(run.removed);
    assert!(!run.failed);
    // write phase: created at 1_000, synced at 514_000
    let m = run.outcome().unwrap();
    assert_eq!(m, run.metrics());
    assert_eq!(run.write_start, 1_000);
    assert_eq!(run.write_end, 514_000);
    assert_eq!(m.write_speed, rate(DISK_TEST_SIZE, BYTES_PER_MB, 513_000));
    assert_eq!(m.read_speed, rate(DISK_TEST_SIZE, BYTES_PER_MB, 512_000));
    assert_eq!(m.iops, rate(RANDOM_OPS, 1, 1_000_000));
}

#[test]
fn disk_failure_after_create_goes_to_removal() {
    let mut run = DiskRun::new(fixed_offsets());
    run.complete(true, 10);
    for _ in 0..10 {
        assert!(matches!(run.next_action(), DiskAction::WriteChunk { .. }));
        run.complete(true, 20);
    }
    run.complete(false, 30);
    assert!(run.failed);
    assert_eq!(run.next_action(), DiskAction::Remove);
    assert!(run.outcome().is_none());
    run.complete(true, 40);
    assert_eq!(run.next_action(), DiskAction::Finished);
    assert!(run.removed);
    assert!(run.outcome().is_none());
}

#[test]
fn disk_failure_to_create_ends_run() {
    let mut run = DiskRun::new(fixed_offsets());
    run.complete(false, 0);
    assert_eq!(run.next_action(), DiskAction::Finished);
    assert!(!run.created);
    assert!(run.outcome().is_none());
}

#[test]
fn disk_failure_to_remove_is_recorded() {
    let mut run = DiskRun::new(fixed_offsets());
    run.complete(true, 0);
    run.complete(false, 0);
    assert_eq!(run.next_action(), DiskAction::Remove);
    run.complete(false, 0);
    assert_eq!(run.next_action(), DiskAction::Finished);
    assert!(run.remove_failed);
    assert!(!run.removed);
    let before = run.pos;
    run.complete(true, 5);
    assert_eq!(run.pos, before);
}
