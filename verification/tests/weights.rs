use market::collective_weights::{execute_weight, DbWeightSource, ModuleWeight, WeightInfo};
use market::market_weights::WeightInfo as MarketWeightInfo;
use market::weight::{RuntimeDbWeight, Weight, ROCKS_DB_READ, ROCKS_DB_WRITE};

fn rt(w: Weight) -> u64 {
    assert_eq!(w.proof_size, 0);
    w.ref_time
}

#[test]
fn rocks_db_costs() {
    let db = RuntimeDbWeight::rocks_db();
    assert_eq!(db.read, 25_000_000);
    assert_eq!(db.write, 100_000_000);
    assert_eq!(ROCKS_DB_READ, 25_000_000);
    assert_eq!(ROCKS_DB_WRITE, 100_000_000);
    assert_eq!(db.reads(3), Weight::from_parts(75_000_000, 0));
    assert_eq!(db.writes(2), Weight::from_parts(200_000_000, 0));
}

#[test]
fn weight_arithmetic_saturates() {
    let w = Weight::from_parts(u64::MAX - 1, 5);
    assert_eq!(w.saturating_add(Weight::from_parts(10, 1)), Weight::from_parts(u64::MAX, 6));
    assert_eq!(Weight::from_parts(3, 4).saturating_mul(5), Weight::from_parts(15, 20));
    assert_eq!(Weight::from_parts(u64::MAX / 2 + 1, 1).saturating_mul(2), Weight::from_parts(u64::MAX, 2));
    assert_eq!(Weight::from_ref_time(9), Weight::from_parts(9, 0));
    assert_eq!(Weight::zero(), Weight::from_parts(0, 0));
}

#[test]
fn collective_weights_for_rocks_db() {
    assert_eq!(rt(<() as WeightInfo>::set_members(10, 3, 5)), 1_049_474_640);
    assert_eq!(rt(<() as WeightInfo>::execute(100, 10)), 60_141_782);
    assert_eq!(rt(<() as WeightInfo>::propose_execute(100, 10)), 88_252_804);
    assert_eq!(rt(<() as WeightInfo>::propose_proposed(100, 10, 5)), 651_095_251);
    assert_eq!(rt(<() as WeightInfo>::vote(10)), 203_649_845);
    assert_eq!(rt(<() as WeightInfo>::close_early_disapproved(10, 5)), 568_331_635);
    assert_eq!(rt(<() as WeightInfo>::close_early_approved(100, 10, 5)), 614_108_069);
    assert_eq!(rt(<() as WeightInfo>::close_disapproved(10, 5)), 597_085_779);
    assert_eq!(rt(<() as WeightInfo>::close_approved(100, 10, 5)), 643_207_261);
    assert_eq!(rt(<() as WeightInfo>::disapprove_proposal(5)), 467_512_458);
}

#[test]
fn collective_weights_at_zero_counts() {
    assert_eq!(rt(<() as WeightInfo>::vote(0)), 203_098_075);
    assert_eq!(rt(<() as WeightInfo>::set_members(0, 0, 0)), 338_200_000);
}

#[test]
fn set_members_ignores_the_new_member_count() {
    assert_eq!(<() as WeightInfo>::set_members(4, 0, 2), <() as WeightInfo>::set_members(4, 1000, 2));
}

#[test]
fn collective_weights_grow_with_counts() {
    assert!(rt(<() as WeightInfo>::set_members(1, 1, 1)) <= rt(<() as WeightInfo>::set_members(2, 1, 7)));
    assert!(rt(<() as WeightInfo>::close_approved(1, 2, 3)) < rt(<() as WeightInfo>::close_approved(1, 2, 4)));
    assert!(rt(<() as WeightInfo>::disapprove_proposal(0)) < rt(<() as WeightInfo>::disapprove_proposal(1)));
}

struct CheapDb;

impl DbWeightSource for CheapDb {
    fn spec_db_weight() -> RuntimeDbWeight {
        RuntimeDbWeight { read: 1_000, write: 7 }
    }

    fn db_weight() -> RuntimeDbWeight {
        RuntimeDbWeight { read: 1_000, write: 7 }
    }
}

struct HugeDb;

impl DbWeightSource for HugeDb {
    fn spec_db_weight() -> RuntimeDbWeight {
        RuntimeDbWeight { read: u64::MAX, write: u64::MAX }
    }

    fn db_weight() -> RuntimeDbWeight {
        RuntimeDbWeight { read: u64::MAX, write: u64::MAX }
    }
}

#[test]
fn module_weight_uses_runtime_db_costs() {
    assert_eq!(rt(<ModuleWeight<CheapDb> as WeightInfo>::execute(100, 10)), 35_142_782);
    assert_eq!(
        <ModuleWeight<CheapDb> as WeightInfo>::execute(100, 10),
        execute_weight(RuntimeDbWeight { read: 1_000, write: 7 }, 100, 10)
    );
}

#[test]
fn module_weight_saturates() {
    assert_eq!(rt(<ModuleWeight<HugeDb> as WeightInfo>::vote(1)), u64::MAX);
    assert_eq!(rt(<ModuleWeight<HugeDb> as WeightInfo>::set_members(0, 0, 0)), u64::MAX);
}

#[test]
fn market_test_weights_are_zero() {
    assert_eq!(<() as MarketWeightInfo>::create_pool(), Weight::from_parts(0, 0));
    assert_eq!(<() as MarketWeightInfo>::mint_liquidity(), Weight::from_parts(0, 0));
    assert_eq!(<() as MarketWeightInfo>::burn_liquidity(), Weight::from_parts(0, 0));
    assert_eq!(<() as MarketWeightInfo>::multiswap_sell_asset(3), Weight::from_parts(0, 0));
    assert_eq!(<() as MarketWeightInfo>::multiswap_buy_asset(3), Weight::from_parts(0, 0));
    assert_eq!(<() as MarketWeightInfo>::multiswap_asset(3), Weight::from_parts(0, 0));
}
