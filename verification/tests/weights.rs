use farmer_piece_getter::weights::{
    benchmarked_weight, DbWeight, DbWeightSource, ParityDb, SubstrateWeight, Weight, WeightInfo,
};

struct RocksDb;

impl DbWeightSource for RocksDb {
    fn spec_db_weight() -> DbWeight {
        DbWeight { read: 25_000_000, write: 100_000_000 }
    }

    fn db_weight() -> DbWeight {
        DbWeight { read: 25_000_000, write: 100_000_000 }
    }
}

struct Free;

impl DbWeightSource for Free {
    fn spec_db_weight() -> DbWeight {
        DbWeight { read: 0, write: 0 }
    }

    fn db_weight() -> DbWeight {
        DbWeight { read: 0, write: 0 }
    }
}

#[test]
fn parity_db_weights_of_every_extrinsic() {
    assert_eq!(<() as WeightInfo>::register_issuer_auto_id(), Weight::from_parts(100_000_000, 3501));
    assert_eq!(<() as WeightInfo>::register_leaf_auto_id(), Weight::from_parts(173_000_000, 7224));
    assert_eq!(<() as WeightInfo>::revoke_issuer_auto_id(), Weight::from_parts(150_000_000, 4713));
    assert_eq!(<() as WeightInfo>::revoke_leaf_auto_id(), Weight::from_parts(161_000_000, 8499));
    assert_eq!(<() as WeightInfo>::deactivate_auto_id(), Weight::from_parts(87_000_000, 4713));
    assert_eq!(<() as WeightInfo>::renew_issuer_auto_id(), Weight::from_parts(164_000_000, 4749));
    assert_eq!(<() as WeightInfo>::renew_leaf_auto_id(), Weight::from_parts(229_000_000, 8535));
}

#[test]
fn substrate_weights_use_the_runtime_db_costs() {
    assert_eq!(
        <SubstrateWeight<RocksDb> as WeightInfo>::register_issuer_auto_id(),
        Weight::from_parts(34_000_000 + 2 * 25_000_000 + 100_000_000, 3501)
    );
    assert_eq!(
        <SubstrateWeight<RocksDb> as WeightInfo>::renew_leaf_auto_id(),
        Weight::from_parts(47_000_000 + 4 * 25_000_000 + 3 * 100_000_000, 8535)
    );
    assert_eq!(
        <SubstrateWeight<RocksDb> as WeightInfo>::revoke_leaf_auto_id(),
        Weight::from_parts(37_000_000 + 3 * 25_000_000 + 2 * 100_000_000, 8499)
    );
}

#[test]
fn free_database_leaves_the_measured_time() {
    assert_eq!(<SubstrateWeight<Free> as WeightInfo>::deactivate_auto_id(), Weight::from_parts(29_000_000, 4713));
    assert_eq!(<SubstrateWeight<Free> as WeightInfo>::register_leaf_auto_id(), Weight::from_parts(41_000_000, 7224));
}

#[test]
fn benchmarked_weight_adds_reads_and_writes() {
    let db = DbWeight { read: 3, write: 7 };
    assert_eq!(benchmarked_weight(100, 9, 2, 5, db), Weight::from_parts(100 + 6 + 35, 9));
    assert_eq!(benchmarked_weight(0, 0, 0, 0, db), Weight::from_parts(0, 0));
}

#[test]
fn benchmarked_weight_saturates() {
    let db = DbWeight { read: u64::MAX, write: 1 };
    assert_eq!(benchmarked_weight(1, 2, 2, 0, db), Weight::from_parts(u64::MAX, 2));
    let db = DbWeight { read: 10, write: 10 };
    assert_eq!(benchmarked_weight(u64::MAX - 1, 5, 1, 1, db), Weight::from_parts(u64::MAX, 5));
}

#[test]
fn dearer_database_is_never_lighter() {
    let cheap = DbWeight { read: 8_000_000, write: 50_000_000 };
    let dear = DbWeight { read: 25_000_000, write: 100_000_000 };
    let a = benchmarked_weight(41_000_000, 7224, 4, 2, cheap);
    let b = benchmarked_weight(41_000_000, 7224, 4, 2, dear);
    assert!(a.ref_time <= b.ref_time);
    assert_eq!(a.proof_size, b.proof_size);
}

#[test]
fn more_database_operations_are_never_lighter() {
    let db = DbWeight { read: 8_000_000, write: 50_000_000 };
    let fewer = benchmarked_weight(37_000_000, 8499, 3, 2, db);
    let more = benchmarked_weight(37_000_000, 8499, 4, 3, db);
    assert!(fewer.ref_time < more.ref_time);
    assert_eq!(fewer.ref_time, 37_000_000 + 3 * 8_000_000 + 2 * 50_000_000);
}

#[test]
fn substrate_weights_with_parity_costs_equal_parity_weights() {
    assert_eq!(ParityDb::db_weight(), DbWeight { read: 8_000_000, write: 50_000_000 });
    assert_eq!(
        <SubstrateWeight<ParityDb> as WeightInfo>::register_issuer_auto_id(),
        <() as WeightInfo>::register_issuer_auto_id()
    );
    assert_eq!(
        <SubstrateWeight<ParityDb> as WeightInfo>::register_leaf_auto_id(),
        <() as WeightInfo>::register_leaf_auto_id()
    );
    assert_eq!(
        <SubstrateWeight<ParityDb> as WeightInfo>::revoke_issuer_auto_id(),
        <() as WeightInfo>::revoke_issuer_auto_id()
    );
    assert_eq!(
        <SubstrateWeight<ParityDb> as WeightInfo>::revoke_leaf_auto_id(),
        <() as WeightInfo>::revoke_leaf_auto_id()
    );
    assert_eq!(
        <SubstrateWeight<ParityDb> as WeightInfo>::deactivate_auto_id(),
        <() as WeightInfo>::deactivate_auto_id()
    );
    assert_eq!(
        <SubstrateWeight<ParityDb> as WeightInfo>::renew_issuer_auto_id(),
        <() as WeightInfo>::renew_issuer_auto_id()
    );
    assert_eq!(
        <SubstrateWeight<ParityDb> as WeightInfo>::renew_leaf_auto_id(),
        <() as WeightInfo>::renew_leaf_auto_id()
    );
}
