//! The record a full-system run fills, and the ratings read from it.
use vstd::prelude::*;
use crate::disk::DiskMetrics;
use crate::memory::MemoryMetrics;
use crate::rating::{overall_spec, rate_average, rate_overall, rate_score, rating_of, rating_of_average, Domain, Rating};

verus! {

/// One scalar per measured dimension, each in thousandths of its unit:
/// operations per second for the CPU, megabytes per second for speeds,
/// nanoseconds per access for latency, operations per second for disk IOPS.
#[derive(Clone, Copy, Debug, PartialEq, Eq, Structural)]
pub struct BenchmarkResults {
    pub cpu_score: u128,
    pub memory_read_speed: u128,
    pub memory_write_speed: u128,
    pub memory_latency: u128,
    pub disk_read_speed: u128,
    pub disk_write_speed: u128,
    pub disk_iops: u128,
}

impl Default for BenchmarkResults {
    /// A record with every field zero.
    fn default() -> (r: BenchmarkResults)
        ensures
            r.cpu_score == 0,
            r.memory_read_speed == 0,
            r.memory_write_speed == 0,
            r.memory_latency == 0,
            r.disk_read_speed == 0,
            r.disk_write_speed == 0,
            r.disk_iops == 0,
    {
        BenchmarkResults {
            cpu_score: 0,
            memory_read_speed: 0,
            memory_write_speed: 0,
            memory_latency: 0,
            disk_read_speed: 0,
            disk_write_speed: 0,
            disk_iops: 0,
        }
    }
}

/// Average of two values, rounded down.
pub fn average(a: u128, b: u128) -> (r: u128)
    ensures
        r == (a + b) / 2,
{
    a / 2 + b / 2 + (a % 2 + b % 2) / 2
}

impl BenchmarkResults {
    /// Stores the CPU score; the other fields stay.
    pub fn record_cpu(&mut self, score: u128)
        ensures
            *final(self) == (BenchmarkResults { cpu_score: score, ..*old(self) }),
    {
        self.cpu_score = score;
    }

    /// Stores the memory speeds and latency; the other fields stay.
    pub fn record_memory(&mut self, m: &MemoryMetrics)
        ensures
            *final(self) == (BenchmarkResults {
                memory_read_speed: m.read_speed,
                memory_write_speed: m.write_speed,
                memory_latency: m.latency,
                ..*old(self)
            }),
    {
        self.memory_read_speed = m.read_speed;
        self.memory_write_speed = m.write_speed;
        self.memory_latency = m.latency;
    }

    /// Stores the disk speeds and IOPS; the other fields stay.
    pub fn record_disk(&mut self, d: &DiskMetrics)
        ensures
            *final(self) == (BenchmarkResults {
                disk_read_speed: d.read_speed,
                disk_write_speed: d.write_speed,
                disk_iops: d.iops,
                ..*old(self)
            }),
    {
        self.disk_read_speed = d.read_speed;
        self.disk_write_speed = d.write_speed;
        self.disk_iops = d.iops;
    }

    /// Rating of the CPU score.
    pub fn cpu_rating(&self) -> (r: Rating)
        ensures
            r == rating_of(Domain::Cpu, self.cpu_score as int),
    {
        rate_score(Domain::Cpu, self.cpu_score)
    }

    /// Rating of the average memory speed.
    pub fn memory_rating(&self) -> (r: Rating)
        ensures
            r == rating_of_average(Domain::Memory, self.memory_read_speed as int, self.memory_write_speed as int),
    {
        rate_average(Domain::Memory, self.memory_read_speed, self.memory_write_speed)
    }

    /// Rating of the average sequential disk speed.
    pub fn disk_rating(&self) -> (r: Rating)
        ensures
            r == rating_of_average(Domain::Disk, self.disk_read_speed as int, self.disk_write_speed as int),
    {
        rate_average(Domain::Disk, self.disk_read_speed, self.disk_write_speed)
    }

    /// Overall rating from the number of dimensions that pass.
    pub fn overall_rating(&self) -> (r: Rating)
        ensures
            r == overall_spec(
                self.cpu_score as int,
                self.memory_read_speed as int,
                self.memory_write_speed as int,
                self.disk_read_speed as int,
                self.disk_write_speed as int,
            ),
    {
        rate_overall(
            self.cpu_score,
            self.memory_read_speed,
            self.memory_write_speed,
            self.disk_read_speed,
            self.disk_write_speed,
        )
    }
}

} // verus!
