//! Verified core of the Market pallet: a router over Xyk and StableSwap pools,
//! together with the weight formulas that accompany it.

pub mod dispatch;
pub mod weight;
pub mod collective_weights;
pub mod market_weights;
pub mod market;
pub mod route;
pub mod plans;
pub mod effects;
pub mod pallet;
