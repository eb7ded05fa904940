//! Weight functions of the Market pallet.

use vstd::prelude::*;

use crate::weight::Weight;

verus! {

/// Weight functions needed by the Market pallet.
///
/// `multiswap_asset` is the weight of a multiswap over `x` pools; the pallet
/// reports it as the actual weight of a multiswap whose swaps failed. It
/// returns the value of `spec_multiswap_asset`.
pub trait WeightInfo {
    fn create_pool() -> Weight;
    fn mint_liquidity() -> Weight;
    fn burn_liquidity() -> Weight;
    fn multiswap_sell_asset(x: u32) -> Weight;
    fn multiswap_buy_asset(x: u32) -> Weight;

    /// Weight of a multiswap over `x` pools.
    spec fn spec_multiswap_asset(x: u32) -> Weight;

    fn multiswap_asset(x: u32) -> (w: Weight)
        ensures
            w == Self::spec_multiswap_asset(x),
    ;
}

/// Zero weights, for tests.
impl WeightInfo for () {
    fn create_pool() -> (w: Weight)
        ensures
            w == (Weight { ref_time: 0, proof_size: 0 }),
    {
        Weight::from_parts(0, 0)
    }

    fn mint_liquidity() -> (w: Weight)
        ensures
            w == (Weight { ref_time: 0, proof_size: 0 }),
    {
        Weight::from_parts(0, 0)
    }

    fn burn_liquidity() -> (w: Weight)
        ensures
            w == (Weight { ref_time: 0, proof_size: 0 }),
    {
        Weight::from_parts(0, 0)
    }

    fn multiswap_sell_asset(x: u32) -> (w: Weight)
        ensures
            w == (Weight { ref_time: 0, proof_size: 0 }),
    {
        Weight::from_parts(0, 0)
    }

    fn multiswap_buy_asset(x: u32) -> (w: Weight)
        ensures
            w == (Weight { ref_time: 0, proof_size: 0 }),
    {
        Weight::from_parts(0, 0)
    }

    open spec fn spec_multiswap_asset(x: u32) -> Weight {
        Weight { ref_time: 0, proof_size: 0 }
    }

    fn multiswap_asset(x: u32) -> (w: Weight)
        ensures
            w == (Weight { ref_time: 0, proof_size: 0 }),
    {
        Weight::from_parts(0, 0)
    }
}

} // verus!
