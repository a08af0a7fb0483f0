//! Qualitative ratings of scores, per domain and overall.
use vstd::prelude::*;

verus! {

/// One of five ordered qualitative tiers.
#[derive(Clone, Copy, Debug, PartialEq, Eq, Structural)]
pub enum Rating {
    Excellent,
    VeryGood,
    Good,
    Fair,
    NeedsImprovement,
}

/// The measured dimension a score belongs to; each has its own thresholds.
#[derive(Clone, Copy, Debug, PartialEq, Eq, Structural)]
pub enum Domain {
    /// Operations per second.
    Cpu,
    /// Megabytes per second, the average of read and write speed.
    Memory,
    /// Megabytes per second, the average of sequential read and write speed.
    Disk,
}

/// Position of a tier in the order, `NeedsImprovement` lowest.
pub open spec fn rank(r: Rating) -> int {
    match r {
        Rating::Excellent => 4,
        Rating::VeryGood => 3,
        Rating::Good => 2,
        Rating::Fair => 1,
        Rating::NeedsImprovement => 0,
    }
}

/// Lower bound, in whole units, that a score must exceed to reach tier
/// `level` (4 for `Excellent` down to 1 for `Fair`).
pub open spec fn threshold(d: Domain, level: int) -> int {
    match d {
        Domain::Cpu => if level == 4 { 1_000_000 } else if level == 3 { 750_000 } else if level == 2 { 500_000 } else { 250_000 },
        Domain::Memory => if level == 4 { 10_000 } else if level == 3 { 7_500 } else if level == 2 { 5_000 } else { 2_500 },
        Domain::Disk => if level == 4 { 1_000 } else if level == 3 { 500 } else if level == 2 { 250 } else { 100 },
    }
}

/// Tier reached by a quantity, given whether it is above the threshold of
/// each level from `Excellent` (`e4`) down to `Fair` (`e1`). The first tier
/// from the top whose threshold is exceeded wins.
pub open spec fn tier(e4: bool, e3: bool, e2: bool, e1: bool) -> Rating {
    if e4 {
        Rating::Excellent
    } else if e3 {
        Rating::VeryGood
    } else if e2 {
        Rating::Good
    } else if e1 {
        Rating::Fair
    } else {
        Rating::NeedsImprovement
    }
}

/// Rating of a score held in thousandths of the domain's unit: the score is
/// compared strictly against each threshold.
pub open spec fn rating_of(d: Domain, score: int) -> Rating {
    tier(
        score > 1000 * threshold(d, 4),
        score > 1000 * threshold(d, 3),
        score > 1000 * threshold(d, 2),
        score > 1000 * threshold(d, 1),
    )
}

/// Rating of the average of two scores in thousandths: the exact average
/// `(a + b) / 2` is compared strictly against each threshold.
pub open spec fn rating_of_average(d: Domain, a: int, b: int) -> Rating {
    tier(
        a + b > 2000 * threshold(d, 4),
        a + b > 2000 * threshold(d, 3),
        a + b > 2000 * threshold(d, 2),
        a + b > 2000 * threshold(d, 1),
    )
}

/// A dimension passes when its score exceeds the threshold of `Good`.
pub open spec fn passes(d: Domain, score: int) -> bool {
    score > 1000 * threshold(d, 2)
}

/// A dimension measured by two speeds passes when their average exceeds the
/// threshold of `Good`.
pub open spec fn average_passes(d: Domain, a: int, b: int) -> bool {
    a + b > 2000 * threshold(d, 2)
}

/// Number of true flags among three.
pub open spec fn count_true(x: bool, y: bool, z: bool) -> int {
    (if x { 1int } else { 0int }) + (if y { 1int } else { 0int }) + (if z { 1int } else { 0int })
}

/// Overall tier from the number of passing dimensions.
pub open spec fn overall_of_count(n: int) -> Rating {
    if n >= 3 {
        Rating::Excellent
    } else if n == 2 {
        Rating::VeryGood
    } else if n == 1 {
        Rating::Good
    } else {
        Rating::NeedsImprovement
    }
}

/// Overall rating from a CPU score and the memory and disk speed pairs, all
/// in thousandths.
pub open spec fn overall_spec(cpu: int, mem_read: int, mem_write: int, disk_read: int, disk_write: int) -> Rating {
    overall_of_count(
        count_true(
            passes(Domain::Cpu, cpu),
            average_passes(Domain::Memory, mem_read, mem_write),
            average_passes(Domain::Disk, disk_read, disk_write),
        ),
    )
}

impl Rating {
    /// The label shown for the tier.
    pub open spec fn label_spec(self) -> Seq<char> {
        match self {
            Rating::Excellent => "Excellent"@,
            Rating::VeryGood => "Very Good"@,
            Rating::Good => "Good"@,
            Rating::Fair => "Fair"@,
            Rating::NeedsImprovement => "Needs Improvement"@,
        }
    }

    /// The label shown for the tier.
    pub fn label(&self) -> (r: &'static str)
        ensures
            r@ == self.label_spec(),
    {
        match self {
            Rating::Excellent => "Excellent",
            Rating::VeryGood => "Very Good",
            Rating::Good => "Good",
            Rating::Fair => "Fair",
            Rating::NeedsImprovement => "Needs Improvement",
        }
    }
}

/// Threshold of tier `level` in the domain, in thousandths of its unit.
fn threshold_milli(d: Domain, level: u8) -> (r: u128)
    requires
        1 <= level <= 4,
    ensures
        r == 1000 * threshold(d, level as int),
{
    match d {
        Domain::Cpu => {
            if level == 4 {
                1_000_000_000
            } else if level == 3 {
                750_000_000
            } else if level == 2 {
                500_000_000
            } else {
                250_000_000
            }
        },
        Domain::Memory => {
            if level == 4 {
                10_000_000
            } else if level == 3 {
                7_500_000
            } else if level == 2 {
                5_000_000
            } else {
                2_500_000
            }
        },
        Domain::Disk => {
            if level == 4 {
                1_000_000
            } else if level == 3 {
                500_000
            } else if level == 2 {
                250_000
            } else {
                100_000
            }
        },
    }
}

/// Whether `a + b > t`, computed without overflow.
fn sum_exceeds(a: u128, b: u128, t: u128) -> (r: bool)
    ensures
        r == (a + b > t),
{
    if a > t {
        true
    } else {
        b > t - a
    }
}

/// Rating of a score given in thousandths of the domain's unit.
pub fn rate_score(d: Domain, score: u128) -> (r: Rating)
    ensures
        r == rating_of(d, score as int),
{
    if score > threshold_milli(d, 4) {
        Rating::Excellent
    } else if score > threshold_milli(d, 3) {
        Rating::VeryGood
    } else if score > threshold_milli(d, 2) {
        Rating::Good
    } else if score > threshold_milli(d, 1) {
        Rating::Fair
    } else {
        Rating::NeedsImprovement
    }
}

/// Rating of the average of two scores given in thousandths of the domain's
/// unit (read and write speed).
pub fn rate_average(d: Domain, a: u128, b: u128) -> (r: Rating)
    ensures
        r == rating_of_average(d, a as int, b as int),
{
    if sum_exceeds(a, b, 2 * threshold_milli(d, 4)) {
        Rating::Excellent
    } else if sum_exceeds(a, b, 2 * threshold_milli(d, 3)) {
        Rating::VeryGood
    } else if sum_exceeds(a, b, 2 * threshold_milli(d, 2)) {
        Rating::Good
    } else if sum_exceeds(a, b, 2 * threshold_milli(d, 1)) {
        Rating::Fair
    } else {
        Rating::NeedsImprovement
    }
}

/// Overall rating: each dimension passes or not on its own threshold, and
/// the number of passing dimensions decides (3 `Excellent`, 2 `VeryGood`,
/// 1 `Good`, 0 `NeedsImprovement`).
pub fn rate_overall(cpu: u128, mem_read: u128, mem_write: u128, disk_read: u128, disk_write: u128) -> (r: Rating)
    ensures
        r == overall_spec(cpu as int, mem_read as int, mem_write as int, disk_read as int, disk_write as int),
{
    let cpu_pass = cpu > threshold_milli(Domain::Cpu, 2);
    let mem_pass = sum_exceeds(mem_read, mem_write, 2 * threshold_milli(Domain::Memory, 2));
    let disk_pass = sum_exceeds(disk_read, disk_write, 2 * threshold_milli(Domain::Disk, 2));
    let count: u8 = (if cpu_pass { 1u8 } else { 0u8 }) + (if mem_pass { 1u8 } else { 0u8 }) + (if disk_pass { 1u8 } else { 0u8 });
    if count == 3 {
        Rating::Excellent
    } else if count == 2 {
        Rating::VeryGood
    } else if count == 1 {
        Rating::Good
    } else {
        Rating::NeedsImprovement
    }
}

/// A dimension passes exactly when its own rating is `Good` or better.
pub proof fn lemma_pass_iff_at_least_good(d: Domain, score: int)
    ensures
        passes(d, score) <==> rank(rating_of(d, score)) >= 2,
{
}

/// Averaging two equal scores rates the same as the score alone.
pub proof fn lemma_average_of_equal(d: Domain, s: int)
    ensures
        rating_of_average(d, s, s) == rating_of(d, s),
{
}

/// Ratings are monotone: a higher score never gets a lower tier.
pub proof fn lemma_rating_monotone(d: Domain, s: int, t: int)
    requires
        s <= t,
    ensures
        rank(rating_of(d, s)) <= rank(rating_of(d, t)),
{
}

/// The overall rating counts the dimensions whose own rating is `Good` or
/// better: all three give `Excellent`, two `VeryGood`, one `Good`, none
/// `NeedsImprovement`.
pub proof fn lemma_overall_counts_good_dimensions(
    cpu: int,
    mem_read: int,
    mem_write: int,
    disk_read: int,
    disk_write: int,
)
    ensures
        overall_spec(cpu, mem_read, mem_write, disk_read, disk_write) == overall_of_count(
            count_true(
                rank(rating_of(Domain::Cpu, cpu)) >= 2,
                rank(rating_of_average(Domain::Memory, mem_read, mem_write)) >= 2,
                rank(rating_of_average(Domain::Disk, disk_read, disk_write)) >= 2,
            ),
        ),
        rank(overall_spec(cpu, mem_read, mem_write, disk_read, disk_write)) != 1,
{
}

} // verus!
