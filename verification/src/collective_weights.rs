//! Weight formulas of the council (collective) pallet, as benchmarked for
//! the Mangata node.

use vstd::prelude::*;

use crate::weight::{
    lemma_sat_mul_monotone, sat_add, sat_mul, u64_saturating_mul, RuntimeDbWeight, Weight,
};

verus! {

/// Source of the database costs of a runtime.
pub trait DbWeightSource {
    /// The database costs that the runtime declares.
    spec fn spec_db_weight() -> RuntimeDbWeight;

    /// Returns the database costs that the runtime declares; they are a
    /// constant of the runtime.
    fn db_weight() -> (d: RuntimeDbWeight)
        ensures
            d == Self::spec_db_weight(),
    ;
}

/// Weight functions needed by the council pallet.
pub trait WeightInfo {
    fn set_members(m: u32, n: u32, p: u32) -> Weight;
    fn execute(b: u32, m: u32) -> Weight;
    fn propose_execute(b: u32, m: u32) -> Weight;
    fn propose_proposed(b: u32, m: u32, p: u32) -> Weight;
    fn vote(m: u32) -> Weight;
    fn close_early_disapproved(m: u32, p: u32) -> Weight;
    fn close_early_approved(b: u32, m: u32, p: u32) -> Weight;
    fn close_disapproved(m: u32, p: u32) -> Weight;
    fn close_approved(b: u32, m: u32, p: u32) -> Weight;
    fn disapprove_proposal(p: u32) -> Weight;
}

/// Weights for the council pallet on the Mangata node, with the database
/// costs of the runtime `T`.
pub struct ModuleWeight<T>(core::marker::PhantomData<T>);

/// `coef * x` in computation time, clamped at `u64::MAX`.
fn term(coef: u64, x: u32) -> (w: Weight)
    ensures
        w.ref_time == sat_mul(coef as int, x as int),
        w.proof_size == 0,
{
    Weight::from_ref_time(coef).saturating_mul(x as u64)
}

/// Adds `w` to `acc`, both of zero proof size.
fn plus(acc: Weight, w: Weight) -> (r: Weight)
    requires
        acc.proof_size == 0,
        w.proof_size == 0,
    ensures
        r.ref_time == sat_add(acc.ref_time as int, w.ref_time as int),
        r.proof_size == 0,
{
    acc.saturating_add(w)
}

/// Computation time of `set_members`.
pub open spec fn spec_set_members(db: RuntimeDbWeight, m: u32, n: u32, p: u32) -> int {
    sat_add(sat_add(sat_add(sat_add(sat_add(sat_add(88_200_000, sat_mul(4_335_303, m as int)), sat_mul(8_584_322, p as int)), sat_mul(db.read as int, 2)), sat_mul(db.read as int, p as int)), sat_mul(db.write as int, 2)), sat_mul(db.write as int, p as int))
}

/// Weight of `set_members` for the database costs `db`.
pub fn set_members_weight(db: RuntimeDbWeight, m: u32, n: u32, p: u32) -> (w: Weight)
    ensures
        w.ref_time == spec_set_members(db, m, n, p),
        w.proof_size == 0,
{
    let mut w = Weight::from_ref_time(88_200_000);
    w = plus(w, term(4_335_303, m));
    w = plus(w, term(8_584_322, p));
    w = plus(w, db.reads(2u64));
    w = plus(w, db.reads(u64_saturating_mul(1, p as u64)));
    w = plus(w, db.writes(2u64));
    w = plus(w, db.writes(u64_saturating_mul(1, p as u64)));
    w
}

/// Computation time of `execute`.
pub open spec fn spec_execute(db: RuntimeDbWeight, b: u32, m: u32) -> int {
    sat_add(sat_add(sat_add(34_718_802, sat_mul(1_902, b as int)), sat_mul(23_278, m as int)), sat_mul(db.read as int, 1))
}

/// Weight of `execute` for the database costs `db`.
pub fn execute_weight(db: RuntimeDbWeight, b: u32, m: u32) -> (w: Weight)
    ensures
        w.ref_time == spec_execute(db, b, m),
        w.proof_size == 0,
{
    let mut w = Weight::from_ref_time(34_718_802);
    w = plus(w, term(1_902, b));
    w = plus(w, term(23_278, m));
    w = plus(w, db.reads(1u64));
    w
}

/// Computation time of `propose_execute`.
pub open spec fn spec_propose_execute(db: RuntimeDbWeight, b: u32, m: u32) -> int {
    sat_add(sat_add(sat_add(37_653_564, sat_mul(2_506, b as int)), sat_mul(34_864, m as int)), sat_mul(db.read as int, 2))
}

/// Weight of `propose_execute` for the database costs `db`.
pub fn propose_execute_weight(db: RuntimeDbWeight, b: u32, m: u32) -> (w: Weight)
    ensures
        w.ref_time == spec_propose_execute(db, b, m),
        w.proof_size == 0,
{
    let mut w = Weight::from_ref_time(37_653_564);
    w = plus(w, term(2_506, b));
    w = plus(w, term(34_864, m));
    w = plus(w, db.reads(2u64));
    w
}

/// Computation time of `propose_proposed`.
pub open spec fn spec_propose_proposed(db: RuntimeDbWeight, b: u32, m: u32, p: u32) -> int {
    sat_add(sat_add(sat_add(sat_add(sat_add(48_763_101, sat_mul(5_627, b as int)), sat_mul(38_909, m as int)), sat_mul(276_072, p as int)), sat_mul(db.read as int, 4)), sat_mul(db.write as int, 5))
}

/// Weight of `propose_proposed` for the database costs `db`.
pub fn propose_proposed_weight(db: RuntimeDbWeight, b: u32, m: u32, p: u32) -> (w: Weight)
    ensures
        w.ref_time == spec_propose_proposed(db, b, m, p),
        w.proof_size == 0,
{
    let mut w = Weight::from_ref_time(48_763_101);
    w = plus(w, term(5_627, b));
    w = plus(w, term(38_909, m));
    w = plus(w, term(276_072, p));
    w = plus(w, db.reads(4u64));
    w = plus(w, db.writes(5u64));
    w
}

/// Computation time of `vote`.
pub open spec fn spec_vote(db: RuntimeDbWeight, m: u32) -> int {
    sat_add(sat_add(sat_add(53_098_075, sat_mul(55_177, m as int)), sat_mul(db.read as int, 2)), sat_mul(db.write as int, 1))
}

/// Weight of `vote` for the database costs `db`.
pub fn vote_weight(db: RuntimeDbWeight, m: u32) -> (w: Weight)
    ensures
        w.ref_time == spec_vote(db, m),
        w.proof_size == 0,
{
    let mut w = Weight::from_ref_time(53_098_075);
    w = plus(w, term(55_177, m));
    w = plus(w, db.reads(2u64));
    w = plus(w, db.writes(1u64));
    w
}

/// Computation time of `close_early_disapproved`.
pub open spec fn spec_close_early_disapproved(db: RuntimeDbWeight, m: u32, p: u32) -> int {
    sat_add(sat_add(sat_add(sat_add(66_640_835, sat_mul(49_001, m as int)), sat_mul(240_158, p as int)), sat_mul(db.read as int, 4)), sat_mul(db.write as int, 4))
}

/// Weight of `close_early_disapproved` for the database costs `db`.
pub fn close_early_disapproved_weight(db: RuntimeDbWeight, m: u32, p: u32) -> (w: Weight)
    ensures
        w.ref_time == spec_close_early_disapproved(db, m, p),
        w.proof_size == 0,
{
    let mut w = Weight::from_ref_time(66_640_835);
    w = plus(w, term(49_001, m));
    w = plus(w, term(240_158, p));
    w = plus(w, db.reads(4u64));
    w = plus(w, db.writes(4u64));
    w
}

/// Computation time of `close_early_approved`.
pub open spec fn spec_close_early_approved(db: RuntimeDbWeight, b: u32, m: u32, p: u32) -> int {
    sat_add(sat_add(sat_add(sat_add(sat_add(86_880_904, sat_mul(3_349, b as int)), sat_mul(56_626, m as int)), sat_mul(265_201, p as int)), sat_mul(db.read as int, 5)), sat_mul(db.write as int, 4))
}

/// Weight of `close_early_approved` for the database costs `db`.
pub fn close_early_approved_weight(db: RuntimeDbWeight, b: u32, m: u32, p: u32) -> (w: Weight)
    ensures
        w.ref_time == spec_close_early_approved(db, b, m, p),
        w.proof_size == 0,
{
    let mut w = Weight::from_ref_time(86_880_904);
    w = plus(w, term(3_349, b));
    w = plus(w, term(56_626, m));
    w = plus(w, term(265_201, p));
    w = plus(w, db.reads(5u64));
    w = plus(w, db.writes(4u64));
    w
}

/// Computation time of `close_disapproved`.
pub open spec fn spec_close_disapproved(db: RuntimeDbWeight, m: u32, p: u32) -> int {
    sat_add(sat_add(sat_add(sat_add(70_370_119, sat_mul(50_837, m as int)), sat_mul(241_458, p as int)), sat_mul(db.read as int, 5)), sat_mul(db.write as int, 4))
}

/// Weight of `close_disapproved` for the database costs `db`.
pub fn close_disapproved_weight(db: RuntimeDbWeight, m: u32, p: u32) -> (w: Weight)
    ensures
        w.ref_time == spec_close_disapproved(db, m, p),
        w.proof_size == 0,
{
    let mut w = Weight::from_ref_time(70_370_119);
    w = plus(w, term(50_837, m));
    w = plus(w, term(241_458, p));
    w = plus(w, db.reads(5u64));
    w = plus(w, db.writes(4u64));
    w
}

/// Computation time of `close_approved`.
pub open spec fn spec_close_approved(db: RuntimeDbWeight, b: u32, m: u32, p: u32) -> int {
    sat_add(sat_add(sat_add(sat_add(sat_add(90_986_041, sat_mul(3_603, b as int)), sat_mul(54_870, m as int)), sat_mul(262_444, p as int)), sat_mul(db.read as int, 6)), sat_mul(db.write as int, 4))
}

/// Weight of `close_approved` for the database costs `db`.
pub fn close_approved_weight(db: RuntimeDbWeight, b: u32, m: u32, p: u32) -> (w: Weight)
    ensures
        w.ref_time == spec_close_approved(db, b, m, p),
        w.proof_size == 0,
{
    let mut w = Weight::from_ref_time(90_986_041);
    w = plus(w, term(3_603, b));
    w = plus(w, term(54_870, m));
    w = plus(w, term(262_444, p));
    w = plus(w, db.reads(6u64));
    w = plus(w, db.writes(4u64));
    w
}

/// Computation time of `disapprove_proposal`.
pub open spec fn spec_disapprove_proposal(db: RuntimeDbWeight, p: u32) -> int {
    sat_add(sat_add(sat_add(41_286_428, sat_mul(245_206, p as int)), sat_mul(db.read as int, 1)), sat_mul(db.write as int, 4))
}

/// Weight of `disapprove_proposal` for the database costs `db`.
pub fn disapprove_proposal_weight(db: RuntimeDbWeight, p: u32) -> (w: Weight)
    ensures
        w.ref_time == spec_disapprove_proposal(db, p),
        w.proof_size == 0,
{
    let mut w = Weight::from_ref_time(41_286_428);
    w = plus(w, term(245_206, p));
    w = plus(w, db.reads(1u64));
    w = plus(w, db.writes(4u64));
    w
}

impl<T: DbWeightSource> WeightInfo for ModuleWeight<T> {
    fn set_members(m: u32, n: u32, p: u32) -> (w: Weight)
        ensures
            w.ref_time == spec_set_members(T::spec_db_weight(), m, n, p),
            w.proof_size == 0,
    {
        set_members_weight(T::db_weight(), m, n, p)
    }

    fn execute(b: u32, m: u32) -> (w: Weight)
        ensures
            w.ref_time == spec_execute(T::spec_db_weight(), b, m),
            w.proof_size == 0,
    {
        execute_weight(T::db_weight(), b, m)
    }

    fn propose_execute(b: u32, m: u32) -> (w: Weight)
        ensures
            w.ref_time == spec_propose_execute(T::spec_db_weight(), b, m),
            w.proof_size == 0,
    {
        propose_execute_weight(T::db_weight(), b, m)
    }

    fn propose_proposed(b: u32, m: u32, p: u32) -> (w: Weight)
        ensures
            w.ref_time == spec_propose_proposed(T::spec_db_weight(), b, m, p),
            w.proof_size == 0,
    {
        propose_proposed_weight(T::db_weight(), b, m, p)
    }

    fn vote(m: u32) -> (w: Weight)
        ensures
            w.ref_time == spec_vote(T::spec_db_weight(), m),
            w.proof_size == 0,
    {
        vote_weight(T::db_weight(), m)
    }

    fn close_early_disapproved(m: u32, p: u32) -> (w: Weight)
        ensures
            w.ref_time == spec_close_early_disapproved(T::spec_db_weight(), m, p),
            w.proof_size == 0,
    {
        close_early_disapproved_weight(T::db_weight(), m, p)
    }

    fn close_early_approved(b: u32, m: u32, p: u32) -> (w: Weight)
        ensures
            w.ref_time == spec_close_early_approved(T::spec_db_weight(), b, m, p),
            w.proof_size == 0,
    {
        close_early_approved_weight(T::db_weight(), b, m, p)
    }

    fn close_disapproved(m: u32, p: u32) -> (w: Weight)
        ensures
            w.ref_time == spec_close_disapproved(T::spec_db_weight(), m, p),
            w.proof_size == 0,
    {
        close_disapproved_weight(T::db_weight(), m, p)
    }

    fn close_approved(b: u32, m: u32, p: u32) -> (w: Weight)
        ensures
            w.ref_time == spec_close_approved(T::spec_db_weight(), b, m, p),
            w.proof_size == 0,
    {
        close_approved_weight(T::db_weight(), b, m, p)
    }

    fn disapprove_proposal(p: u32) -> (w: Weight)
        ensures
            w.ref_time == spec_disapprove_proposal(T::spec_db_weight(), p),
            w.proof_size == 0,
    {
        disapprove_proposal_weight(T::db_weight(), p)
    }

}

impl WeightInfo for () {
    fn set_members(m: u32, n: u32, p: u32) -> (w: Weight)
        ensures
            w.ref_time == spec_set_members(RuntimeDbWeight { read: crate::weight::ROCKS_DB_READ, write: crate::weight::ROCKS_DB_WRITE }, m, n, p),
            w.proof_size == 0,
    {
        set_members_weight(RuntimeDbWeight::rocks_db(), m, n, p)
    }

    fn execute(b: u32, m: u32) -> (w: Weight)
        ensures
            w.ref_time == spec_execute(RuntimeDbWeight { read: crate::weight::ROCKS_DB_READ, write: crate::weight::ROCKS_DB_WRITE }, b, m),
            w.proof_size == 0,
    {
        execute_weight(RuntimeDbWeight::rocks_db(), b, m)
    }

    fn propose_execute(b: u32, m: u32) -> (w: Weight)
        ensures
            w.ref_time == spec_propose_execute(RuntimeDbWeight { read: crate::weight::ROCKS_DB_READ, write: crate::weight::ROCKS_DB_WRITE }, b, m),
            w.proof_size == 0,
    {
        propose_execute_weight(RuntimeDbWeight::rocks_db(), b, m)
    }

    fn propose_proposed(b: u32, m: u32, p: u32) -> (w: Weight)
        ensures
            w.ref_time == spec_propose_proposed(RuntimeDbWeight { read: crate::weight::ROCKS_DB_READ, write: crate::weight::ROCKS_DB_WRITE }, b, m, p),
            w.proof_size == 0,
    {
        propose_proposed_weight(RuntimeDbWeight::rocks_db(), b, m, p)
    }

    fn vote(m: u32) -> (w: Weight)
        ensures
            w.ref_time == spec_vote(RuntimeDbWeight { read: crate::weight::ROCKS_DB_READ, write: crate::weight::ROCKS_DB_WRITE }, m),
            w.proof_size == 0,
    {
        vote_weight(RuntimeDbWeight::rocks_db(), m)
    }

    fn close_early_disapproved(m: u32, p: u32) -> (w: Weight)
        ensures
            w.ref_time == spec_close_early_disapproved(RuntimeDbWeight { read: crate::weight::ROCKS_DB_READ, write: crate::weight::ROCKS_DB_WRITE }, m, p),
            w.proof_size == 0,
    {
        close_early_disapproved_weight(RuntimeDbWeight::rocks_db(), m, p)
    }

    fn close_early_approved(b: u32, m: u32, p: u32) -> (w: Weight)
        ensures
            w.ref_time == spec_close_early_approved(RuntimeDbWeight { read: crate::weight::ROCKS_DB_READ, write: crate::weight::ROCKS_DB_WRITE }, b, m, p),
            w.proof_size == 0,
    {
        close_early_approved_weight(RuntimeDbWeight::rocks_db(), b, m, p)
    }

    fn close_disapproved(m: u32, p: u32) -> (w: Weight)
        ensures
            w.ref_time == spec_close_disapproved(RuntimeDbWeight { read: crate::weight::ROCKS_DB_READ, write: crate::weight::ROCKS_DB_WRITE }, m, p),
            w.proof_size == 0,
    {
        close_disapproved_weight(RuntimeDbWeight::rocks_db(), m, p)
    }

    fn close_approved(b: u32, m: u32, p: u32) -> (w: Weight)
        ensures
            w.ref_time == spec_close_approved(RuntimeDbWeight { read: crate::weight::ROCKS_DB_READ, write: crate::weight::ROCKS_DB_WRITE }, b, m, p),
            w.proof_size == 0,
    {
        close_approved_weight(RuntimeDbWeight::rocks_db(), b, m, p)
    }

    fn disapprove_proposal(p: u32) -> (w: Weight)
        ensures
            w.ref_time == spec_disapprove_proposal(RuntimeDbWeight { read: crate::weight::ROCKS_DB_READ, write: crate::weight::ROCKS_DB_WRITE }, p),
            w.proof_size == 0,
    {
        disapprove_proposal_weight(RuntimeDbWeight::rocks_db(), p)
    }

}

/// The weight of `set_members` does not decrease when any of its counts grows.
pub proof fn lemma_set_members_monotone(db: RuntimeDbWeight, m1: u32, n1: u32, p1: u32, m2: u32, n2: u32, p2: u32)
    requires
        m1 <= m2,
        n1 <= n2,
        p1 <= p2,
    ensures
        spec_set_members(db, m1, n1, p1) <= spec_set_members(db, m2, n2, p2),
{
    lemma_sat_mul_monotone(db.read as int, db.read as int, p1 as int, p2 as int);
    lemma_sat_mul_monotone(db.write as int, db.write as int, p1 as int, p2 as int);
}

/// The weight of `execute` does not decrease when any of its counts grows.
pub proof fn lemma_execute_monotone(db: RuntimeDbWeight, b1: u32, m1: u32, b2: u32, m2: u32)
    requires
        b1 <= b2,
        m1 <= m2,
    ensures
        spec_execute(db, b1, m1) <= spec_execute(db, b2, m2),
{

}

/// The weight of `propose_execute` does not decrease when any of its counts grows.
pub proof fn lemma_propose_execute_monotone(db: RuntimeDbWeight, b1: u32, m1: u32, b2: u32, m2: u32)
    requires
        b1 <= b2,
        m1 <= m2,
    ensures
        spec_propose_execute(db, b1, m1) <= spec_propose_execute(db, b2, m2),
{

}

/// The weight of `propose_proposed` does not decrease when any of its counts grows.
pub proof fn lemma_propose_proposed_monotone(db: RuntimeDbWeight, b1: u32, m1: u32, p1: u32, b2: u32, m2: u32, p2: u32)
    requires
        b1 <= b2,
        m1 <= m2,
        p1 <= p2,
    ensures
        spec_propose_proposed(db, b1, m1, p1) <= spec_propose_proposed(db, b2, m2, p2),
{

}

/// The weight of `vote` does not decrease when any of its counts grows.
pub proof fn lemma_vote_monotone(db: RuntimeDbWeight, m1: u32, m2: u32)
    requires
        m1 <= m2,
    ensures
        spec_vote(db, m1) <= spec_vote(db, m2),
{

}

/// The weight of `close_early_disapproved` does not decrease when any of its counts grows.
pub proof fn lemma_close_early_disapproved_monotone(db: RuntimeDbWeight, m1: u32, p1: u32, m2: u32, p2: u32)
    requires
        m1 <= m2,
        p1 <= p2,
    ensures
        spec_close_early_disapproved(db, m1, p1) <= spec_close_early_disapproved(db, m2, p2),
{

}

/// The weight of `close_early_approved` does not decrease when any of its counts grows.
pub proof fn lemma_close_early_approved_monotone(db: RuntimeDbWeight, b1: u32, m1: u32, p1: u32, b2: u32, m2: u32, p2: u32)
    requires
        b1 <= b2,
        m1 <= m2,
        p1 <= p2,
    ensures
        spec_close_early_approved(db, b1, m1, p1) <= spec_close_early_approved(db, b2, m2, p2),
{

}

/// The weight of `close_disapproved` does not decrease when any of its counts grows.
pub proof fn lemma_close_disapproved_monotone(db: RuntimeDbWeight, m1: u32, p1: u32, m2: u32, p2: u32)
    requires
        m1 <= m2,
        p1 <= p2,
    ensures
        spec_close_disapproved(db, m1, p1) <= spec_close_disapproved(db, m2, p2),
{

}

/// The weight of `close_approved` does not decrease when any of its counts grows.
pub proof fn lemma_close_approved_monotone(db: RuntimeDbWeight, b1: u32, m1: u32, p1: u32, b2: u32, m2: u32, p2: u32)
    requires
        b1 <= b2,
        m1 <= m2,
        p1 <= p2,
    ensures
        spec_close_approved(db, b1, m1, p1) <= spec_close_approved(db, b2, m2, p2),
{

}

/// The weight of `disapprove_proposal` does not decrease when any of its counts grows.
pub proof fn lemma_disapprove_proposal_monotone(db: RuntimeDbWeight, p1: u32, p2: u32)
    requires
        p1 <= p2,
    ensures
        spec_disapprove_proposal(db, p1) <= spec_disapprove_proposal(db, p2),
{

}

} // verus!
