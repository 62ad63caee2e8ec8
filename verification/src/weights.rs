//! Dispatch weights of the auto-id pallet, computed from benchmark results and
//! the runtime's database read/write costs.

use frame_support::traits::Get;
use vstd::prelude::*;

verus! {

/// Two-dimensional weight: reference execution time and storage proof size.
#[derive(Clone, Copy, Debug, PartialEq, Eq, Structural)]
pub struct Weight {
    pub ref_time: u64,
    pub proof_size: u64,
}

/// Cost of one database read and of one database write, in reference time.
#[derive(Clone, Copy, Debug, PartialEq, Eq, Structural)]
pub struct DbWeight {
    pub read: u64,
    pub write: u64,
}

/// `a + b`, saturating at `u64::MAX`.
pub open spec fn saturating_add_u64(a: u64, b: u64) -> u64 {
    if a + b > u64::MAX {
        u64::MAX
    } else {
        (a + b) as u64
    }
}

/// `a * b`, saturating at `u64::MAX`.
pub open spec fn saturating_mul_u64(a: u64, b: u64) -> u64 {
    if a * b > u64::MAX {
        u64::MAX
    } else {
        (a * b) as u64
    }
}

/// The weight of an extrinsic whose benchmark measured `ref_time` and `proof_size`
/// and which performs `reads` database reads and `writes` database writes.
pub open spec fn benchmarked_weight_spec(
    ref_time: u64,
    proof_size: u64,
    reads: u64,
    writes: u64,
    db: DbWeight,
) -> Weight {
    Weight {
        ref_time: saturating_add_u64(
            saturating_add_u64(ref_time, saturating_mul_u64(db.read, reads)),
            saturating_mul_u64(db.write, writes),
        ),
        proof_size: proof_size,
    }
}

/// The database costs of ParityDB: 8 µs per read, 50 µs per write.
pub open spec fn parity_db_weight_spec() -> DbWeight {
    DbWeight { read: 8_000_000, write: 50_000_000 }
}

impl Weight {
    /// A weight with the given components.
    pub fn from_parts(ref_time: u64, proof_size: u64) -> (w: Weight)
        ensures
            w.ref_time == ref_time,
            w.proof_size == proof_size,
    {
        Weight { ref_time, proof_size }
    }
}

/// `frame_support::weights::Weight::saturating_add`: adds component-wise, each
/// component saturating at `u64::MAX`.
#[verifier::external_body]
fn weight_saturating_add(a: Weight, b: Weight) -> (r: Weight)
    ensures
        r.ref_time == saturating_add_u64(a.ref_time, b.ref_time),
        r.proof_size == saturating_add_u64(a.proof_size, b.proof_size),
{
    let sum = frame_support::weights::Weight::from_parts(a.ref_time, a.proof_size)
        .saturating_add(frame_support::weights::Weight::from_parts(b.ref_time, b.proof_size));
    Weight { ref_time: sum.ref_time(), proof_size: sum.proof_size() }
}

/// `frame_support::weights::RuntimeDbWeight::reads`: `r` reads cost
/// `read * r` reference time (saturating) and no proof size.
#[verifier::external_body]
fn db_reads(db: DbWeight, r: u64) -> (w: Weight)
    ensures
        w.ref_time == saturating_mul_u64(db.read, r),
        w.proof_size == 0,
{
    let w = frame_support::weights::RuntimeDbWeight { read: db.read, write: db.write }.reads(r);
    Weight { ref_time: w.ref_time(), proof_size: w.proof_size() }
}

/// `frame_support::weights::RuntimeDbWeight::writes`: `w` writes cost
/// `write * w` reference time (saturating) and no proof size.
#[verifier::external_body]
fn db_writes(db: DbWeight, n: u64) -> (w: Weight)
    ensures
        w.ref_time == saturating_mul_u64(db.write, n),
        w.proof_size == 0,
{
    let w = frame_support::weights::RuntimeDbWeight { read: db.read, write: db.write }.writes(n);
    Weight { ref_time: w.ref_time(), proof_size: w.proof_size() }
}

/// `frame_support::weights::constants::ParityDbWeight::get()`: its source defines
/// the read cost as 8_000 ns and the write cost as 50_000 ns, in picoseconds.
#[verifier::external_body]
fn parity_db_weight() -> (db: DbWeight)
    ensures
        db == parity_db_weight_spec(),
{
    let w = frame_support::weights::constants::ParityDbWeight::get();
    DbWeight { read: w.read, write: w.write }
}

/// The proof size of a weight is the estimated proof size of its benchmark,
/// whatever the database costs are; its reference time is never below the
/// measured time.
pub proof fn law_weight_keeps_benchmark(ref_time: u64, proof_size: u64, reads: u64, writes: u64, db: DbWeight)
    ensures
        benchmarked_weight_spec(ref_time, proof_size, reads, writes, db).proof_size == proof_size,
        benchmarked_weight_spec(ref_time, proof_size, reads, writes, db).ref_time >= ref_time,
{
}

/// When nothing overflows, the reference time is the measured time plus the cost
/// of each read and each write.
pub proof fn law_weight_exact_without_overflow(ref_time: u64, proof_size: u64, reads: u64, writes: u64, db: DbWeight)
    requires
        ref_time + db.read * reads + db.write * writes <= u64::MAX,
    ensures
        benchmarked_weight_spec(ref_time, proof_size, reads, writes, db).ref_time == ref_time + db.read * reads + db.write
            * writes,
{
    assert(0 <= db.read * reads && 0 <= db.write * writes) by (nonlinear_arith);
}

/// Dearer database operations never make an extrinsic lighter.
pub proof fn law_weight_monotonic_in_db_costs(
    ref_time: u64,
    proof_size: u64,
    reads: u64,
    writes: u64,
    cheap: DbWeight,
    dear: DbWeight,
)
    requires
        cheap.read <= dear.read,
        cheap.write <= dear.write,
    ensures
        benchmarked_weight_spec(ref_time, proof_size, reads, writes, cheap).ref_time <= benchmarked_weight_spec(
            ref_time,
            proof_size,
            reads,
            writes,
            dear,
        ).ref_time,
{
    assert(cheap.read * reads <= dear.read * reads) by (nonlinear_arith)
        requires
            cheap.read <= dear.read,
    ;
    assert(cheap.write * writes <= dear.write * writes) by (nonlinear_arith)
        requires
            cheap.write <= dear.write,
    ;
}

/// More database operations never make an extrinsic lighter.
pub proof fn law_weight_monotonic_in_db_operations(
    ref_time: u64,
    proof_size: u64,
    reads: u64,
    writes: u64,
    more_reads: u64,
    more_writes: u64,
    db: DbWeight,
)
    requires
        reads <= more_reads,
        writes <= more_writes,
    ensures
        benchmarked_weight_spec(ref_time, proof_size, reads, writes, db).ref_time <= benchmarked_weight_spec(
            ref_time,
            proof_size,
            more_reads,
            more_writes,
            db,
        ).ref_time,
{
    assert(db.read * reads <= db.read * more_reads) by (nonlinear_arith)
        requires
            reads <= more_reads,
    ;
    assert(db.write * writes <= db.write * more_writes) by (nonlinear_arith)
        requires
            writes <= more_writes,
    ;
}

/// A runtime whose database costs are those of ParityDB gets from
/// [`SubstrateWeight`] the same weight for every extrinsic as from `()`: both
/// impls state their weights with this formula, at the runtime's costs and at
/// ParityDB's costs.
pub proof fn law_runtime_with_parity_costs_weighs_as_parity<T: DbWeightSource>(
    ref_time: u64,
    proof_size: u64,
    reads: u64,
    writes: u64,
)
    requires
        T::spec_db_weight() == parity_db_weight_spec(),
    ensures
        benchmarked_weight_spec(ref_time, proof_size, reads, writes, T::spec_db_weight())
            == benchmarked_weight_spec(ref_time, proof_size, reads, writes, parity_db_weight_spec()),
{
}

/// The weight of an extrinsic from its benchmark: the measured time and proof
/// size, plus the cost of its database reads and writes.
pub fn benchmarked_weight(ref_time: u64, proof_size: u64, reads: u64, writes: u64, db: DbWeight) -> (w: Weight)
    ensures
        w == benchmarked_weight_spec(ref_time, proof_size, reads, writes, db),
{
    let base = Weight::from_parts(ref_time, proof_size);
    let with_reads = weight_saturating_add(base, db_reads(db, reads));
    weight_saturating_add(with_reads, db_writes(db, writes))
}


/// Weight functions of the auto-id pallet's extrinsics.
pub trait WeightInfo {
    fn register_issuer_auto_id() -> Weight;
    fn register_leaf_auto_id() -> Weight;
    fn revoke_issuer_auto_id() -> Weight;
    fn revoke_leaf_auto_id() -> Weight;
    fn deactivate_auto_id() -> Weight;
    fn renew_issuer_auto_id() -> Weight;
    fn renew_leaf_auto_id() -> Weight;
}

/// The database read and write costs of a runtime, which the runtime's
/// configuration fixes (FRAME exports them as a constant of the system pallet).
pub trait DbWeightSource {
    /// The costs the runtime fixes.
    spec fn spec_db_weight() -> DbWeight;

    fn db_weight() -> (db: DbWeight)
        ensures
            db == Self::spec_db_weight(),
    ;
}

/// The database costs of ParityDB.
pub struct ParityDb;

impl DbWeightSource for ParityDb {
    open spec fn spec_db_weight() -> DbWeight {
        parity_db_weight_spec()
    }

    fn db_weight() -> (db: DbWeight) {
        parity_db_weight()
    }
}

/// Weights for the auto-id pallet using the Substrate node and recommended
/// hardware, with the database costs of the runtime `T`.
pub struct SubstrateWeight<T>(core::marker::PhantomData<T>);

impl<T: DbWeightSource> WeightInfo for SubstrateWeight<T> {
    /// Storage: `Timestamp::Now` (r:1 w:0), `AutoId::AutoIds` (r:1 w:1)
    fn register_issuer_auto_id() -> (w: Weight)
        ensures
            w == benchmarked_weight_spec(34_000_000, 3501, 2, 1, T::spec_db_weight()),
    {
        let db = T::db_weight();
        benchmarked_weight(34_000_000, 3501, 2, 1, db)
    }

    /// Storage: `Timestamp::Now` (r:1 w:0), `AutoId::AutoIds` (r:2 w:2), `AutoId::CertificateRevocationList` (r:1 w:0)
    fn register_leaf_auto_id() -> (w: Weight)
        ensures
            w == benchmarked_weight_spec(41_000_000, 7224, 4, 2, T::spec_db_weight()),
    {
        let db = T::db_weight();
        benchmarked_weight(41_000_000, 7224, 4, 2, db)
    }

    /// Storage: `AutoId::AutoIds` (r:1 w:1), `AutoId::CertificateRevocationList` (r:1 w:1)
    fn revoke_issuer_auto_id() -> (w: Weight)
        ensures
            w == benchmarked_weight_spec(34_000_000, 4713, 2, 2, T::spec_db_weight()),
    {
        let db = T::db_weight();
        benchmarked_weight(34_000_000, 4713, 2, 2, db)
    }

    /// Storage: `AutoId::AutoIds` (r:2 w:1), `AutoId::CertificateRevocationList` (r:1 w:1)
    fn revoke_leaf_auto_id() -> (w: Weight)
        ensures
            w == benchmarked_weight_spec(37_000_000, 8499, 3, 2, T::spec_db_weight()),
    {
        let db = T::db_weight();
        benchmarked_weight(37_000_000, 8499, 3, 2, db)
    }

    /// Storage: `AutoId::AutoIds` (r:1 w:1)
    fn deactivate_auto_id() -> (w: Weight)
        ensures
            w == benchmarked_weight_spec(29_000_000, 4713, 1, 1, T::spec_db_weight()),
    {
        let db = T::db_weight();
        benchmarked_weight(29_000_000, 4713, 1, 1, db)
    }

    /// Storage: `Timestamp::Now` (r:1 w:0), `AutoId::AutoIds` (r:1 w:1), `AutoId::CertificateRevocationList` (r:1 w:1)
    fn renew_issuer_auto_id() -> (w: Weight)
        ensures
            w == benchmarked_weight_spec(40_000_000, 4749, 3, 2, T::spec_db_weight()),
    {
        let db = T::db_weight();
        benchmarked_weight(40_000_000, 4749, 3, 2, db)
    }

    /// Storage: `Timestamp::Now` (r:1 w:0), `AutoId::AutoIds` (r:2 w:2), `AutoId::CertificateRevocationList` (r:1 w:1)
    fn renew_leaf_auto_id() -> (w: Weight)
        ensures
            w == benchmarked_weight_spec(47_000_000, 8535, 4, 3, T::spec_db_weight()),
    {
        let db = T::db_weight();
        benchmarked_weight(47_000_000, 8535, 4, 3, db)
    }

}

/// Weights with the database costs of ParityDB, for tests and backwards compatibility.
impl WeightInfo for () {
    /// Storage: `Timestamp::Now` (r:1 w:0), `AutoId::AutoIds` (r:1 w:1)
    fn register_issuer_auto_id() -> (w: Weight)
        ensures
            w == benchmarked_weight_spec(34_000_000, 3501, 2, 1, parity_db_weight_spec()),
    {
        benchmarked_weight(34_000_000, 3501, 2, 1, parity_db_weight())
    }

    /// Storage: `Timestamp::Now` (r:1 w:0), `AutoId::AutoIds` (r:2 w:2), `AutoId::CertificateRevocationList` (r:1 w:0)
    fn register_leaf_auto_id() -> (w: Weight)
        ensures
            w == benchmarked_weight_spec(41_000_000, 7224, 4, 2, parity_db_weight_spec()),
    {
        benchmarked_weight(41_000_000, 7224, 4, 2, parity_db_weight())
    }

    /// Storage: `AutoId::AutoIds` (r:1 w:1), `AutoId::CertificateRevocationList` (r:1 w:1)
    fn revoke_issuer_auto_id() -> (w: Weight)
        ensures
            w == benchmarked_weight_spec(34_000_000, 4713, 2, 2, parity_db_weight_spec()),
    {
        benchmarked_weight(34_000_000, 4713, 2, 2, parity_db_weight())
    }

    /// Storage: `AutoId::AutoIds` (r:2 w:1), `AutoId::CertificateRevocationList` (r:1 w:1)
    fn revoke_leaf_auto_id() -> (w: Weight)
        ensures
            w == benchmarked_weight_spec(37_000_000, 8499, 3, 2, parity_db_weight_spec()),
    {
        benchmarked_weight(37_000_000, 8499, 3, 2, parity_db_weight())
    }

    /// Storage: `AutoId::AutoIds` (r:1 w:1)
    fn deactivate_auto_id() -> (w: Weight)
        ensures
            w == benchmarked_weight_spec(29_000_000, 4713, 1, 1, parity_db_weight_spec()),
    {
        benchmarked_weight(29_000_000, 4713, 1, 1, parity_db_weight())
    }

    /// Storage: `Timestamp::Now` (r:1 w:0), `AutoId::AutoIds` (r:1 w:1), `AutoId::CertificateRevocationList` (r:1 w:1)
    fn renew_issuer_auto_id() -> (w: Weight)
        ensures
            w == benchmarked_weight_spec(40_000_000, 4749, 3, 2, parity_db_weight_spec()),
    {
        benchmarked_weight(40_000_000, 4749, 3, 2, parity_db_weight())
    }

    /// Storage: `Timestamp::Now` (r:1 w:0), `AutoId::AutoIds` (r:2 w:2), `AutoId::CertificateRevocationList` (r:1 w:1)
    fn renew_leaf_auto_id() -> (w: Weight)
        ensures
            w == benchmarked_weight_spec(47_000_000, 8535, 4, 3, parity_db_weight_spec()),
    {
        benchmarked_weight(47_000_000, 8535, 4, 3, parity_db_weight())
    }

}

} // verus!
