//! Memory runner: fills a buffer with random bytes, reads it back through a
//! checksum, and follows a chain of byte values through it to measure
//! latency.
use vstd::prelude::*;
use crate::metrics::{per_op, per_op_spec, rate, rate_spec, saturate_nanos, BYTES_PER_MB};
use crate::platform::random_byte;
use crate::progress::{percent, ProgressSink};

verus! {

/// Size of the memory test buffer in bytes (256 MiB).
pub const MEMORY_TEST_SIZE: usize = 268_435_456;

/// Size of the chunks the buffer is walked in (1 MiB).
pub const CHUNK_SIZE: usize = 1_048_576;

/// Number of steps of the latency chase.
pub const LATENCY_ITERATIONS: u64 = 1_000_000;

/// Sum of all bytes, as a mathematical integer.
pub open spec fn byte_sum(s: Seq<u8>) -> int
    decreases s.len(),
{
    if s.len() == 0 { 0 } else { byte_sum(s.drop_last()) + s.last() as int }
}

/// Index reached after `n` steps of the chase that starts at index 0 and
/// moves from index `i` to `s[i] mod s.len()`.
pub open spec fn chase(s: Seq<u8>, n: nat) -> int
    decreases n,
{
    if n == 0 {
        0
    } else {
        let i = chase(s, (n - 1) as nat);
        (s[i] as int) % (s.len() as int)
    }
}

/// Results of one memory run: speeds in thousandths of a megabyte per
/// second, latency in thousandths of a nanosecond per access, the measured
/// durations in nanoseconds, and the checksum and chase end that make the
/// reads observable.
pub struct MemoryMetrics {
    pub write_speed: u128,
    pub read_speed: u128,
    pub latency: u128,
    pub write_nanos: u64,
    pub read_nanos: u64,
    pub latency_nanos: u64,
    pub checksum: u64,
    pub chase_end: usize,
}

proof fn lemma_chase_in_range(s: Seq<u8>, n: nat)
    requires
        s.len() > 0,
    ensures
        0 <= chase(s, n) < s.len(),
    decreases n,
{
    if n > 0 {
        lemma_chase_in_range(s, (n - 1) as nat);
    }
}

/// Wrapping sum of all bytes of `data`, walked in chunks of `chunk` bytes;
/// after each chunk the share of chunks done is reported to `progress`.
pub fn checksum_in_chunks<P: ProgressSink>(data: &[u8], chunk: usize, progress: &mut P) -> (r: u64)
    requires
        chunk > 0,
    ensures
        r == byte_sum(data@) % 0x1_0000_0000_0000_0000,
{
    let n: usize = data.len();
    let mut sum: u64 = 0;
    let mut i: usize = 0;
    proof {
        assert(data@.subrange(0, 0) =~= Seq::<u8>::empty());
    }
    while i < n
        invariant
            n == data@.len(),
            chunk > 0,
            i <= n,
            sum == byte_sum(data@.subrange(0, i as int)) % 0x1_0000_0000_0000_0000,
        decreases n - i,
    {
        let end: usize = if n - i > chunk { i + chunk } else { n };
        while i < end
            invariant
                n == data@.len(),
                i <= end <= n,
                sum == byte_sum(data@.subrange(0, i as int)) % 0x1_0000_0000_0000_0000,
            decreases end - i,
        {
            proof {
                let next = data@.subrange(0, i + 1);
                assert(next.drop_last() =~= data@.subrange(0, i as int));
                assert(byte_sum(next) == byte_sum(data@.subrange(0, i as int)) + data@[i as int]);
                vstd::arithmetic::div_mod::lemma_add_mod_noop(
                    byte_sum(data@.subrange(0, i as int)),
                    data@[i as int] as int,
                    0x1_0000_0000_0000_0000,
                );
                vstd::arithmetic::div_mod::lemma_mod_twice(data@[i as int] as int, 0x1_0000_0000_0000_0000);
            }
            sum = sum.wrapping_add(data[i] as u64);
            i = i + 1;
        }
        progress.set_position(percent(i as u64, n as u64));
    }
    assert(data@.subrange(0, n as int) =~= data@);
    sum
}

/// Overwrites every byte of `data` with a fresh random byte, in chunks of
/// `chunk` bytes; after each chunk the share done is reported to `progress`.
pub fn fill_in_chunks<P: ProgressSink>(
    data: &mut Vec<u8>,
    chunk: usize,
    rng: &mut rand::rngs::ThreadRng,
    progress: &mut P,
)
    requires
        chunk > 0,
    ensures
        final(data)@.len() == old(data)@.len(),
{
    let n: usize = data.len();
    let mut i: usize = 0;
    while i < n
        invariant
            n == data@.len(),
            chunk > 0,
            i <= n,
        decreases n - i,
    {
        let end: usize = if n - i > chunk { i + chunk } else { n };
        while i < end
            invariant
                n == data@.len(),
                i <= end <= n,
            decreases end - i,
        {
            let b = random_byte(rng);
            data.set(i, b);
            i = i + 1;
        }
        progress.set_position(percent(i as u64, n as u64));
    }
}

/// Follows `iterations` steps of the chase through `data` from index 0,
/// each step moving to the byte value found there modulo the length.
pub fn pointer_chase(data: &[u8], iterations: u64) -> (r: usize)
    requires
        data@.len() > 0,
    ensures
        r == chase(data@, iterations as nat),
        r < data@.len(),
{
    let mut p: usize = 0;
    let mut k: u64 = 0;
    while k < iterations
        invariant
            data@.len() > 0,
            k <= iterations,
            p == chase(data@, k as nat),
        decreases iterations - k,
    {
        proof {
            lemma_chase_in_range(data@, k as nat);
        }
        p = (data[p] as usize) % data.len();
        k = k + 1;
    }
    proof {
        lemma_chase_in_range(data@, iterations as nat);
    }
    p
}

/// Nanoseconds since `start` on the monotonic clock, saturated to `u64`.
pub(crate) fn nanos_since(start: &std::time::Instant) -> u64 {
    let d = start.elapsed();
    saturate_nanos(d.as_nanos())
}

/// Runs the memory benchmark on a zeroed buffer of `size` bytes: a timed
/// write pass of random bytes, a timed checksum read pass, and a timed
/// chase of `LATENCY_ITERATIONS` steps. Speeds and latency are computed from
/// the measured durations, which are returned with them.
pub fn run_memory_benchmark_sized<P: ProgressSink>(
    size: usize,
    rng: &mut rand::rngs::ThreadRng,
    progress: &mut P,
) -> (r: MemoryMetrics)
    requires
        size > 0,
        size <= u64::MAX,
    ensures
        r.write_speed == rate_spec(size as int, BYTES_PER_MB as int, r.write_nanos as int),
        r.read_speed == rate_spec(size as int, BYTES_PER_MB as int, r.read_nanos as int),
        r.latency == per_op_spec(r.latency_nanos as int, LATENCY_ITERATIONS as int),
        r.chase_end < size,
{
    let mut data: Vec<u8> = vec![0u8; size];

    let write_start = std::time::Instant::now();
    fill_in_chunks(&mut data, CHUNK_SIZE, rng, progress);
    let write_nanos = nanos_since(&write_start);

    progress.set_position(0);
    let read_start = std::time::Instant::now();
    let checksum = checksum_in_chunks(data.as_slice(), CHUNK_SIZE, progress);
    let read_nanos = nanos_since(&read_start);

    let latency_start = std::time::Instant::now();
    let chase_end = pointer_chase(data.as_slice(), LATENCY_ITERATIONS);
    let latency_nanos = nanos_since(&latency_start);

    MemoryMetrics {
        write_speed: rate(size as u64, BYTES_PER_MB, write_nanos),
        read_speed: rate(size as u64, BYTES_PER_MB, read_nanos),
        latency: per_op(latency_nanos, LATENCY_ITERATIONS),
        write_nanos,
        read_nanos,
        latency_nanos,
        checksum,
        chase_end,
    }
}

/// Runs the memory benchmark on a buffer of `MEMORY_TEST_SIZE` bytes.
pub fn run_memory_benchmark<P: ProgressSink>(
    rng: &mut rand::rngs::ThreadRng,
    progress: &mut P,
) -> (r: MemoryMetrics)
    ensures
        r.write_speed == rate_spec(MEMORY_TEST_SIZE as int, BYTES_PER_MB as int, r.write_nanos as int),
        r.read_speed == rate_spec(MEMORY_TEST_SIZE as int, BYTES_PER_MB as int, r.read_nanos as int),
        r.latency == per_op_spec(r.latency_nanos as int, LATENCY_ITERATIONS as int),
        r.chase_end < MEMORY_TEST_SIZE,
{
    run_memory_benchmark_sized(MEMORY_TEST_SIZE, rng, progress)
}

/// For a buffer of whole megabytes the speed is that number of megabytes
/// over the elapsed seconds, as if counted in megabytes from the start.
pub proof fn lemma_speed_in_megabytes(megabytes: nat, nanos: nat)
    ensures
        rate_spec(megabytes * BYTES_PER_MB, BYTES_PER_MB as int, nanos as int)
            == rate_spec(megabytes as int, 1, nanos as int),
{
    let c = crate::metrics::clamped_nanos(nanos as int);
    let sc = crate::metrics::SCALE as int;
    let ns = crate::metrics::NANOS_PER_SEC as int;
    let m = BYTES_PER_MB as int;
    let w = megabytes * sc * ns;
    assert((megabytes * m) * sc * ns == m * w) by (nonlinear_arith)
        requires w == megabytes * sc * ns;
    assert(c >= 1);
    vstd::arithmetic::div_mod::lemma_div_multiples_vanish_quotient(m, w, c);
    assert(w / c == (m * w) / (m * c));
    assert(1 * c == c);
}

} // verus!
