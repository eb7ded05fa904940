//! Two-dimensional weights with saturating arithmetic, and the cost of
//! database accesses.

use vstd::prelude::*;

verus! {

/// `a + b` clamped at `u64::MAX`.
pub open spec fn sat_add(a: int, b: int) -> int {
    if a + b > u64::MAX { u64::MAX as int } else { a + b }
}

/// `a * b` clamped at `u64::MAX`.
pub open spec fn sat_mul(a: int, b: int) -> int {
    if a * b > u64::MAX { u64::MAX as int } else { a * b }
}

/// Computation time and proof size that a call may use.
#[derive(Clone, Copy, Debug, PartialEq, Eq, Structural)]
pub struct Weight {
    pub ref_time: u64,
    pub proof_size: u64,
}

pub(crate) fn u64_saturating_mul(a: u64, b: u64) -> (r: u64)
    ensures
        r == sat_mul(a as int, b as int),
{
    match a.checked_mul(b) {
        Some(x) => x,
        None => u64::MAX,
    }
}

fn u64_saturating_add(a: u64, b: u64) -> (r: u64)
    ensures
        r == sat_add(a as int, b as int),
{
    a.saturating_add(b)
}

impl Weight {
    pub fn from_parts(ref_time: u64, proof_size: u64) -> (w: Weight)
        ensures
            w.ref_time == ref_time,
            w.proof_size == proof_size,
    {
        Weight { ref_time, proof_size }
    }

    /// A weight of computation time alone.
    pub fn from_ref_time(ref_time: u64) -> (w: Weight)
        ensures
            w.ref_time == ref_time,
            w.proof_size == 0,
    {
        Weight { ref_time, proof_size: 0 }
    }

    pub fn zero() -> (w: Weight)
        ensures
            w.ref_time == 0,
            w.proof_size == 0,
    {
        Weight { ref_time: 0, proof_size: 0 }
    }

    /// Component-wise sum, each component clamped at `u64::MAX`.
    pub fn saturating_add(self, other: Weight) -> (w: Weight)
        ensures
            w.ref_time == sat_add(self.ref_time as int, other.ref_time as int),
            w.proof_size == sat_add(self.proof_size as int, other.proof_size as int),
    {
        Weight {
            ref_time: u64_saturating_add(self.ref_time, other.ref_time),
            proof_size: u64_saturating_add(self.proof_size, other.proof_size),
        }
    }

    /// Component-wise product with a scalar, each component clamped at `u64::MAX`.
    pub fn saturating_mul(self, b: u64) -> (w: Weight)
        ensures
            w.ref_time == sat_mul(self.ref_time as int, b as int),
            w.proof_size == sat_mul(self.proof_size as int, b as int),
    {
        Weight {
            ref_time: u64_saturating_mul(self.ref_time, b),
            proof_size: u64_saturating_mul(self.proof_size, b),
        }
    }
}

/// Cost of one read and of one write of the database.
#[derive(Clone, Copy, Debug, PartialEq, Eq, Structural)]
pub struct RuntimeDbWeight {
    pub read: u64,
    pub write: u64,
}

/// Cost of a RocksDB read, in picoseconds of computation time.
pub const ROCKS_DB_READ: u64 = 25_000_000;

/// Cost of a RocksDB write, in picoseconds of computation time.
pub const ROCKS_DB_WRITE: u64 = 100_000_000;

impl RuntimeDbWeight {
    /// The database costs of RocksDB.
    pub fn rocks_db() -> (d: RuntimeDbWeight)
        ensures
            d.read == ROCKS_DB_READ,
            d.write == ROCKS_DB_WRITE,
    {
        RuntimeDbWeight { read: ROCKS_DB_READ, write: ROCKS_DB_WRITE }
    }

    /// Weight of `r` reads.
    pub fn reads(self, r: u64) -> (w: Weight)
        ensures
            w.ref_time == sat_mul(self.read as int, r as int),
            w.proof_size == 0,
    {
        Weight::from_ref_time(u64_saturating_mul(self.read, r))
    }

    /// Weight of `w` writes.
    pub fn writes(self, n: u64) -> (w: Weight)
        ensures
            w.ref_time == sat_mul(self.write as int, n as int),
            w.proof_size == 0,
    {
        Weight::from_ref_time(u64_saturating_mul(self.write, n))
    }
}

/// `sat_mul` does not decrease in either non-negative argument.
pub proof fn lemma_sat_mul_monotone(a1: int, a2: int, b1: int, b2: int)
    requires
        0 <= a1 <= a2,
        0 <= b1 <= b2,
    ensures
        sat_mul(a1, b1) <= sat_mul(a2, b2),
{
    assert(a1 * b1 <= a2 * b2) by (nonlinear_arith)
        requires
            0 <= a1 <= a2,
            0 <= b1 <= b2,
    ;
}

} // verus!
