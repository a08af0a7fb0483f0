//! Score arithmetic: work done over elapsed time, in thousandths of a unit.
use vstd::prelude::*;

verus! {

/// Nanoseconds in one second.
pub const NANOS_PER_SEC: u64 = 1_000_000_000;

/// Scores are held in thousandths of their unit.
pub const SCALE: u64 = 1000;

/// Bytes in one megabyte, as speeds are reported (a binary megabyte).
pub const BYTES_PER_MB: u64 = 1_048_576;

/// The shortest elapsed time a measurement is credited with, in nanoseconds.
/// A phase that reads as zero nanoseconds counts as this long.
pub const MIN_ELAPSED_NANOS: u64 = 1;

/// Elapsed time clamped from below by the minimal measurable duration.
pub open spec fn clamped_nanos(nanos: int) -> int {
    if nanos < MIN_ELAPSED_NANOS as int { MIN_ELAPSED_NANOS as int } else { nanos }
}

/// `work / unit` per second over `nanos` nanoseconds, in thousandths,
/// rounded down.
pub open spec fn rate_spec(work: int, unit: int, nanos: int) -> int {
    (work * (SCALE as int) * (NANOS_PER_SEC as int)) / (unit * clamped_nanos(nanos))
}

/// Average time of one of `count` operations that took `nanos` nanoseconds in
/// all, in thousandths of a nanosecond, rounded down.
pub open spec fn per_op_spec(nanos: int, count: int) -> int {
    (nanos * (SCALE as int)) / count
}

/// Throughput of `work` units of `unit` each over `nanos` nanoseconds, as
/// thousandths of a unit per second.
pub fn rate(work: u64, unit: u64, nanos: u64) -> (r: u128)
    requires
        unit > 0,
    ensures
        r == rate_spec(work as int, unit as int, nanos as int),
{
    let elapsed: u64 = if nanos < MIN_ELAPSED_NANOS { MIN_ELAPSED_NANOS } else { nanos };
    let factor: u128 = (SCALE as u128) * (NANOS_PER_SEC as u128);
    assert(factor == 1_000_000_000_000int) by (nonlinear_arith)
        requires factor == SCALE * NANOS_PER_SEC, SCALE == 1000, NANOS_PER_SEC == 1_000_000_000;
    assert(work * factor <= u64::MAX * 1_000_000_000_000) by (nonlinear_arith)
        requires work <= u64::MAX, factor == 1_000_000_000_000int;
    let num: u128 = (work as u128) * factor;
    assert(unit * elapsed <= u64::MAX * u64::MAX) by (nonlinear_arith)
        requires unit <= u64::MAX, elapsed <= u64::MAX;
    assert(unit * elapsed > 0) by (nonlinear_arith)
        requires unit > 0, elapsed > 0;
    let den: u128 = (unit as u128) * (elapsed as u128);
    num / den
}

/// Average nanoseconds per operation, in thousandths of a nanosecond.
pub fn per_op(nanos: u64, count: u64) -> (r: u128)
    requires
        count > 0,
    ensures
        r == per_op_spec(nanos as int, count as int),
{
    ((nanos as u128) * (SCALE as u128)) / (count as u128)
}

/// A clock reading in nanoseconds, saturated to the range of `u64`.
pub fn saturate_nanos(n: u128) -> (r: u64)
    ensures
        n <= u64::MAX ==> r == n,
        n > u64::MAX ==> r == u64::MAX,
{
    if n > u64::MAX as u128 { u64::MAX } else { n as u64 }
}

/// Every score is `work / max(elapsed, MIN_ELAPSED_NANOS)` per second, exact
/// to the thousandth: it is non-negative, lies within one thousandth below the
/// true quotient, and a phase measured as zero nanoseconds scores as one of
/// the minimal duration instead of growing without bound.
pub proof fn lemma_rate_is_clamped_quotient(work: nat, unit: nat, nanos: nat)
    requires
        unit > 0,
    ensures
        rate_spec(work as int, unit as int, nanos as int) >= 0,
        rate_spec(work as int, unit as int, nanos as int) * unit * clamped_nanos(nanos as int)
            <= work * (SCALE as int) * (NANOS_PER_SEC as int),
        work * (SCALE as int) * (NANOS_PER_SEC as int)
            < (rate_spec(work as int, unit as int, nanos as int) + 1) * unit * clamped_nanos(nanos as int),
        rate_spec(work as int, unit as int, 0) == rate_spec(work as int, unit as int, MIN_ELAPSED_NANOS as int),
        rate_spec(work as int, unit as int, nanos as int) <= work * (SCALE as int) * (NANOS_PER_SEC as int),
{
    let c = clamped_nanos(nanos as int);
    let num = work * (SCALE as int) * (NANOS_PER_SEC as int);
    let den = unit * c;
    assert(den > 0) by (nonlinear_arith)
        requires unit > 0, c >= 1, den == unit * c;
    let q = num / den;
    vstd::arithmetic::div_mod::lemma_fundamental_div_mod(num, den);
    assert(0 <= num % den < den) by {
        vstd::arithmetic::div_mod::lemma_mod_bound(num, den);
    }
    assert(num >= 0) by (nonlinear_arith)
        requires num == work * (SCALE as int) * (NANOS_PER_SEC as int), work >= 0;
    assert(q >= 0) by {
        vstd::arithmetic::div_mod::lemma_div_pos_is_pos(num, den);
    }
    assert(q * unit * c == q * den) by (nonlinear_arith)
        requires den == unit * c;
    assert((q + 1) * unit * c == q * den + den) by (nonlinear_arith)
        requires den == unit * c;
    assert(q <= num) by (nonlinear_arith)
        requires q * den <= num, den >= 1, q >= 0;
}

} // verus!
