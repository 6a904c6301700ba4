//! The cost of the raffle's operations, in execution time and proof size.

use vstd::prelude::*;

verus! {

/// `x`, or the largest `u64` where `x` does not fit.
pub open spec fn saturate(x: int) -> u64 {
    if x > u64::MAX {
        u64::MAX
    } else {
        x as u64
    }
}

/// The cost of an operation: execution time in picoseconds and proof size
/// in bytes.
#[derive(Clone, Copy, Debug, PartialEq, Eq, Default)]
pub struct Weight {
    pub ref_time: u64,
    pub proof_size: u64,
}

/// The product of `a` and `b`, or the largest `u64` where it does not fit.
fn saturating_mul(a: u64, b: u64) -> (r: u64)
    ensures
        r == saturate(a * b),
{
    match a.checked_mul(b) {
        Some(p) => p,
        None => u64::MAX,
    }
}

impl Weight {
    /// The weight of the given time and proof size.
    pub fn from_parts(ref_time: u64, proof_size: u64) -> (r: Weight)
        ensures
            r == (Weight { ref_time, proof_size }),
    {
        Weight { ref_time, proof_size }
    }

    /// The sum of two weights, part by part, each saturating at the largest
    /// `u64`.
    pub fn saturating_add(self, rhs: Weight) -> (r: Weight)
        ensures
            r.ref_time == saturate(self.ref_time + rhs.ref_time),
            r.proof_size == saturate(self.proof_size + rhs.proof_size),
    {
        Weight {
            ref_time: self.ref_time.saturating_add(rhs.ref_time),
            proof_size: self.proof_size.saturating_add(rhs.proof_size),
        }
    }

    /// The weight scaled by `n`, part by part, each saturating at the largest
    /// `u64`.
    pub fn saturating_mul(self, n: u64) -> (r: Weight)
        ensures
            r.ref_time == saturate(self.ref_time * n),
            r.proof_size == saturate(self.proof_size * n),
    {
        Weight {
            ref_time: saturating_mul(self.ref_time, n),
            proof_size: saturating_mul(self.proof_size, n),
        }
    }
}

/// The time that one read and one write of storage take.
#[derive(Clone, Copy, Debug, PartialEq, Eq, Default)]
pub struct RuntimeDbWeight {
    pub read: u64,
    pub write: u64,
}

impl RuntimeDbWeight {
    /// The weight of `r` reads.
    pub fn reads(self, r: u64) -> (w: Weight)
        ensures
            w == (Weight { ref_time: saturate(self.read * r), proof_size: 0 }),
    {
        Weight::from_parts(saturating_mul(self.read, r), 0)
    }

    /// The weight of `w` writes.
    pub fn writes(self, w: u64) -> (r: Weight)
        ensures
            r == (Weight { ref_time: saturate(self.write * w), proof_size: 0 }),
    {
        Weight::from_parts(saturating_mul(self.write, w), 0)
    }
}

/// The time of one read of a RocksDB backend: 25 µs.
pub const ROCKS_DB_READ: u64 = 25_000_000;

/// The time of one write of a RocksDB backend: 100 µs.
pub const ROCKS_DB_WRITE: u64 = 100_000_000;

/// The storage costs of a RocksDB backend.
pub open spec fn rocks_db() -> RuntimeDbWeight {
    RuntimeDbWeight { read: ROCKS_DB_READ, write: ROCKS_DB_WRITE }
}

/// The storage costs of a RocksDB backend.
pub fn rocks_db_weight() -> (r: RuntimeDbWeight)
    ensures
        r == rocks_db(),
{
    RuntimeDbWeight { read: ROCKS_DB_READ, write: ROCKS_DB_WRITE }
}

/// A measured base weight with the cost of `reads` reads and `writes`
/// writes added.
pub open spec fn measured(
    ref_time: u64,
    proof_size: u64,
    db: RuntimeDbWeight,
    reads: u64,
    writes: u64,
) -> Weight {
    Weight {
        ref_time: saturate(saturate(ref_time + saturate(db.read * reads)) + saturate(db.write * writes)),
        proof_size,
    }
}

/// The weight of replacing the allowed calls with `n` calls.
pub open spec fn set_calls_weight(db: RuntimeDbWeight, n: u32) -> Weight {
    Weight {
        ref_time: saturate(saturate(8_178_186 + saturate(330_871 * n)) + saturate(db.write * 1)),
        proof_size: 0,
    }
}

/// `base` with `reads` reads and `writes` writes of `db` added.
fn with_storage(base: Weight, db: RuntimeDbWeight, reads: u64, writes: u64) -> (r: Weight)
    ensures
        r == measured(base.ref_time, base.proof_size, db, reads, writes),
{
    base.saturating_add(db.reads(reads)).saturating_add(db.writes(writes))
}

/// The weight of each operation of the raffle.
pub trait WeightInfo {
    fn play(&self) -> Weight;

    fn set_calls(&self, n: u32) -> Weight;

    fn start_raffle(&self) -> Weight;

    fn on_initialize_end(&self) -> Weight;

    fn on_initialize_repeat(&self) -> Weight;
}

/// Weights measured on reference hardware, with the runtime's storage
/// costs.
#[derive(Clone, Copy, Debug, PartialEq, Eq, Default)]
pub struct SubstrateWeight {
    pub db: RuntimeDbWeight,
}

/// The weight of replacing the allowed calls with `n` calls.
fn set_calls_cost(db: RuntimeDbWeight, n: u32) -> (r: Weight)
    ensures
        r == set_calls_weight(db, n),
{
    Weight::from_parts(8_178_186, 0).saturating_add(
        Weight::from_parts(330_871, 0).saturating_mul(n as u64),
    ).saturating_add(db.writes(1))
}

impl WeightInfo for SubstrateWeight {
    fn play(&self) -> (r: Weight)
        ensures
            r == measured(62_058_000, 3593, self.db, 6, 4),
    {
        with_storage(Weight::from_parts(62_058_000, 3593), self.db, 6, 4)
    }

    fn set_calls(&self, n: u32) -> (r: Weight)
        ensures
            r == set_calls_weight(self.db, n),
    {
        set_calls_cost(self.db, n)
    }

    fn start_raffle(&self) -> (r: Weight)
        ensures
            r == measured(38_288_000, 3593, self.db, 3, 3),
    {
        with_storage(Weight::from_parts(38_288_000, 3593), self.db, 3, 3)
    }

    fn on_initialize_end(&self) -> (r: Weight)
        ensures
            r == measured(78_107_000, 6196, self.db, 6, 4),
    {
        with_storage(Weight::from_parts(78_107_000, 6196), self.db, 6, 4)
    }

    fn on_initialize_repeat(&self) -> (r: Weight)
        ensures
            r == measured(80_248_000, 6196, self.db, 7, 5),
    {
        with_storage(Weight::from_parts(80_248_000, 6196), self.db, 7, 5)
    }
}

/// The same weights with the storage costs of a RocksDB backend.
impl WeightInfo for () {
    fn play(&self) -> (r: Weight)
        ensures
            r == measured(62_058_000, 3593, rocks_db(), 6, 4),
    {
        with_storage(Weight::from_parts(62_058_000, 3593), rocks_db_weight(), 6, 4)
    }

    fn set_calls(&self, n: u32) -> (r: Weight)
        ensures
            r == set_calls_weight(rocks_db(), n),
    {
        set_calls_cost(rocks_db_weight(), n)
    }

    fn start_raffle(&self) -> (r: Weight)
        ensures
            r == measured(38_288_000, 3593, rocks_db(), 3, 3),
    {
        with_storage(Weight::from_parts(38_288_000, 3593), rocks_db_weight(), 3, 3)
    }

    fn on_initialize_end(&self) -> (r: Weight)
        ensures
            r == measured(78_107_000, 6196, rocks_db(), 6, 4),
    {
        with_storage(Weight::from_parts(78_107_000, 6196), rocks_db_weight(), 6, 4)
    }

    fn on_initialize_repeat(&self) -> (r: Weight)
        ensures
            r == measured(80_248_000, 6196, rocks_db(), 7, 5),
    {
        with_storage(Weight::from_parts(80_248_000, 6196), rocks_db_weight(), 7, 5)
    }
}

} // verus!
