//! The decisions of the Market pallet that do not need the runtime: which
//! call a step makes, with which arguments, and what a result of the runtime
//! leads to.

use vstd::prelude::*;

use crate::dispatch::{
    AccountId, Balance, CurrencyId, DispatchError, DispatchErrorWithPostInfo, Pays, PostDispatchInfo,
};
use crate::market::{spec_module_error, Error, Event};
use crate::route::AssetPair;
use crate::weight::Weight;

verus! {

/// The pool's pair of assets, turned round unless `asset_id` is its first asset.
pub open spec fn spec_ordered_pair(pool: AssetPair, asset_id: CurrencyId) -> AssetPair {
    if asset_id == pool.0 {
        pool
    } else {
        (pool.1, pool.0)
    }
}

/// The pool's pair of assets, turned round unless `asset_id` is its first asset.
pub fn ordered_pair(pool: AssetPair, asset_id: CurrencyId) -> (r: AssetPair)
    ensures
        r == spec_ordered_pair(pool, asset_id),
{
    if asset_id == pool.0 {
        pool
    } else {
        (pool.1, pool.0)
    }
}

/// For an Xyk pool, the asset and amount that a fixed-amounts mint provides:
/// only one of the two amounts may be non-zero; the first asset is taken when
/// the second amount is zero.
pub open spec fn spec_fixed_amounts_input(pool: AssetPair, amounts: (Balance, Balance)) -> Result<
    (CurrencyId, Balance),
    Error,
> {
    if amounts.0 != 0 && amounts.1 != 0 {
        Err(Error::FunctionNotAvailableForThisPoolKind)
    } else if amounts.1 == 0 {
        Ok((pool.0, amounts.0))
    } else {
        Ok((pool.1, amounts.1))
    }
}

/// For an Xyk pool, the asset and amount that a fixed-amounts mint provides.
pub fn fixed_amounts_input(pool: AssetPair, amounts: (Balance, Balance)) -> (r: Result<
    (CurrencyId, Balance),
    Error,
>)
    ensures
        r == spec_fixed_amounts_input(pool, amounts),
{
    if !(amounts.0 == 0 || amounts.1 == 0) {
        return Err(Error::FunctionNotAvailableForThisPoolKind);
    }
    if amounts.1 == 0 {
        Ok((pool.0, amounts.0))
    } else {
        Ok((pool.1, amounts.1))
    }
}

/// Accepts a mint whose LP amount meets the minimum asked for.
pub fn check_lp_minted(lp_amount: Balance, min_amount_lp_tokens: Balance) -> (r: Result<(), Error>)
    ensures
        r is Ok <==> lp_amount >= min_amount_lp_tokens,
        r is Err ==> r == Err::<(), Error>(Error::InsufficientOutputAmount),
{
    if lp_amount >= min_amount_lp_tokens {
        Ok(())
    } else {
        Err(Error::InsufficientOutputAmount)
    }
}

/// Whether the amounts paid out by a burn meet the minimums asked for.
pub open spec fn spec_paid_enough(paid: (Balance, Balance), min_amounts: (Balance, Balance)) -> bool {
    paid.0 >= min_amounts.0 && paid.1 >= min_amounts.1
}

/// Accepts a burn whose amounts paid out meet the minimums asked for.
pub fn check_burn_paid(paid: (Balance, Balance), min_amounts: (Balance, Balance)) -> (r: Result<(), Error>)
    ensures
        r is Ok <==> spec_paid_enough(paid, min_amounts),
        r is Ok <==> paid.0 >= min_amounts.0 && paid.1 >= min_amounts.1,
        r is Err ==> r == Err::<(), Error>(Error::InsufficientOutputAmount),
{
    if paid.0 >= min_amounts.0 && paid.1 >= min_amounts.1 {
        Ok(())
    } else {
        Err(Error::InsufficientOutputAmount)
    }
}

/// The LP amount to deactivate before burning `burn_amount` from a StableSwap
/// pool: what the available balance does not cover.
pub open spec fn spec_deactivation_amount(burn_amount: Balance, available: Balance) -> Balance {
    if burn_amount > available {
        (burn_amount - available) as Balance
    } else {
        0
    }
}

/// The LP amount to deactivate before burning `burn_amount` from a StableSwap pool.
pub fn deactivation_amount(burn_amount: Balance, available: Balance) -> (r: Balance)
    ensures
        r == spec_deactivation_amount(burn_amount, available),
        r <= burn_amount,
        r + available >= burn_amount,
        burn_amount <= available ==> r == 0,
        burn_amount > available ==> r + available == burn_amount,
{
    burn_amount.saturating_sub(available)
}

/// Accepts a pool for a mint from vested native tokens: it must hold the
/// native asset and be promoted for native rewards.
pub open spec fn spec_native_pool_check(
    native_id: CurrencyId,
    pool: AssetPair,
    rewards_enabled: bool,
) -> Result<(), Error> {
    if !(native_id == pool.0 || native_id == pool.1) {
        Err(Error::NotPairedWithNativeAsset)
    } else if !rewards_enabled {
        Err(Error::NotAPromotedPool)
    } else {
        Ok(())
    }
}

/// Accepts the output of a chain of swaps when it reaches the minimum.
pub fn check_min_out(amount_out: Balance, min_amount_out: Balance) -> (r: Result<Balance, Error>)
    ensures
        r is Ok <==> amount_out >= min_amount_out,
        r is Ok ==> r == Ok::<Balance, Error>(amount_out),
        r is Err ==> r == Err::<Balance, Error>(Error::InsufficientOutputAmount),
{
    if amount_out >= min_amount_out {
        Ok(amount_out)
    } else {
        Err(Error::InsufficientOutputAmount)
    }
}

/// What a multiswap reports once its swaps have run with result `swaps`: the
/// event it deposits, and its own result.
///
/// Swaps that succeed report `AssetsSwapped` and a free call. Swaps that fail
/// with an error of a pallet (a failed swap or a bad slippage) report
/// `MultiSwapAssetFailedOnAtomicSwap`, and the call succeeds while its fee is
/// charged for `failure_weight`. Any other failure reports no event and
/// fails with `UnexpectedFailure`, its fee charged for `failure_weight`.
pub open spec fn spec_multiswap_outcome_ok(
    who: AccountId,
    swap_pool_list: Seq<CurrencyId>,
    path: Seq<AssetPair>,
    amount_in: Balance,
    swaps: Result<Balance, DispatchError>,
    pallet_index: u8,
    failure_weight: Weight,
    event: Option<Event>,
    result: Result<PostDispatchInfo, DispatchErrorWithPostInfo>,
) -> bool {
    match swaps {
        Ok(amount_out) => {
            &&& (event matches Some(
                Event::AssetsSwapped { who: w, swap_pool_list: l, swap_assets_list: p, amount_in: i, amount_out: o },
            ) && w == who && l@ == swap_pool_list && p@ == path && i == amount_in && o == amount_out)
            &&& result == Ok::<PostDispatchInfo, DispatchErrorWithPostInfo>(
                PostDispatchInfo { actual_weight: None, pays_fee: Pays::No },
            )
        },
        Err(DispatchError::Module(module_err)) => {
            &&& (event matches Some(
                Event::MultiSwapAssetFailedOnAtomicSwap { who: w, swap_pool_list: l, swap_assets_list: p, module_err: m },
            ) && w == who && l@ == swap_pool_list && p@ == path && m == module_err)
            &&& result == Ok::<PostDispatchInfo, DispatchErrorWithPostInfo>(
                PostDispatchInfo { actual_weight: Some(failure_weight), pays_fee: Pays::Yes },
            )
        },
        Err(_) => {
            &&& event is None
            &&& result == Err::<PostDispatchInfo, DispatchErrorWithPostInfo>(
                DispatchErrorWithPostInfo {
                    post_info: PostDispatchInfo { actual_weight: Some(failure_weight), pays_fee: Pays::Yes },
                    error: spec_module_error(Error::UnexpectedFailure, pallet_index),
                },
            )
        },
    }
}

/// A copy of a list of pool ids.
pub fn copy_ids(ids: &Vec<CurrencyId>) -> (r: Vec<CurrencyId>)
    ensures
        r@ == ids@,
{
    let mut r: Vec<CurrencyId> = Vec::new();
    let mut i: usize = 0;
    while i < ids.len()
        invariant
            i <= ids.len(),
            r@ == ids@.subrange(0, i as int),
        decreases ids.len() - i,
    {
        r.push(ids[i]);
        i = i + 1;
    }
    r
}

/// What a multiswap reports once its swaps have run with result `swaps`.
pub fn multiswap_outcome(
    who: AccountId,
    swap_pool_list: &Vec<CurrencyId>,
    path: Vec<AssetPair>,
    amount_in: Balance,
    swaps: Result<Balance, DispatchError>,
    pallet_index: u8,
    failure_weight: Weight,
) -> (r: (Option<Event>, Result<PostDispatchInfo, DispatchErrorWithPostInfo>))
    ensures
        spec_multiswap_outcome_ok(
            who,
            swap_pool_list@,
            path@,
            amount_in,
            swaps,
            pallet_index,
            failure_weight,
            r.0,
            r.1,
        ),
{
    match swaps {
        Ok(amount_out) => {
            let event = Event::AssetsSwapped {
                who,
                swap_pool_list: copy_ids(swap_pool_list),
                swap_assets_list: path,
                amount_in,
                amount_out,
            };
            (Some(event), Ok(PostDispatchInfo { actual_weight: None, pays_fee: Pays::No }))
        },
        Err(DispatchError::Module(module_err)) => {
            let event = Event::MultiSwapAssetFailedOnAtomicSwap {
                who,
                swap_pool_list: copy_ids(swap_pool_list),
                swap_assets_list: path,
                module_err,
            };
            (
                Some(event),
                Ok(PostDispatchInfo { actual_weight: Some(failure_weight), pays_fee: Pays::Yes }),
            )
        },
        Err(_) => {
            let error = Error::UnexpectedFailure.into_dispatch_error(pallet_index);
            (
                None,
                Err(
                    DispatchErrorWithPostInfo {
                        post_info: PostDispatchInfo {
                            actual_weight: Some(failure_weight),
                            pays_fee: Pays::Yes,
                        },
                        error,
                    },
                ),
            )
        },
    }
}

} // verus!
