//! What the calls of the Market pallet do: the checks each makes before any
//! change, and the calls each then makes on the runtime, as records of its trace.

use vstd::prelude::*;

use crate::dispatch::{
    spec_ensure_signed, AccountId, Balance, BlockNumber, CurrencyId, DispatchError,
    DispatchErrorWithPostInfo, ModuleError, Origin, Pays, PostDispatchInfo,
};
use crate::market::{
    lemma_module_error_injective, rec, spec_assets_allowed, spec_module_error, spec_pool_info, ActivateKind, Config, Error, Event,
    Outcome, PoolInfo, PoolKind, Record, RuntimeCall, Trace,
};
use crate::plans::{
    spec_deactivation_amount, spec_paid_enough, spec_fixed_amounts_input, spec_multiswap_outcome_ok,
    spec_native_pool_check, spec_ordered_pair,
};
use crate::route::{spec_validate_multiswap, AssetPair};
use crate::weight::Weight;

verus! {

/// `e` reported by this pallet in the runtime `T`.
pub open spec fn spec_error<T: Config>(e: Error) -> DispatchError {
    spec_module_error(e, T::spec_pallet_index())
}

/// The checks of `create_pool` before any change: a signed origin, allowed
/// assets, an allowed pair, and, for a StableSwap pool, registered assets
/// (whose decimals are returned).
pub open spec fn spec_create_pool_check<T: Config>(
    t: T,
    origin: Origin,
    kind: PoolKind,
    first_asset_id: CurrencyId,
    second_asset_id: CurrencyId,
) -> Result<(AccountId, Option<(u32, u32)>), DispatchError> {
    match spec_ensure_signed(origin) {
        Err(e) => Err(e),
        Ok(who) => if !spec_assets_allowed(t, (first_asset_id, second_asset_id)) {
            Err(spec_error::<T>(Error::FunctionNotAvailableForThisToken))
        } else if t.spec_is_disallowed_pool((first_asset_id, second_asset_id)) {
            Err(spec_error::<T>(Error::DisallowedPool))
        } else {
            match kind {
                PoolKind::Xyk => Ok((who, None)),
                PoolKind::StableSwap => match (
                    t.spec_asset_decimals(first_asset_id),
                    t.spec_asset_decimals(second_asset_id),
                ) {
                    (Some(d1), Some(d2)) => Ok((who, Some((d1, d2)))),
                    _ => Err(spec_error::<T>(Error::AssetDoesNotExists)),
                },
            }
        },
    }
}

/// The checks of every call on an existing pool: a signed origin, a pool
/// that exists, and allowed assets.
pub open spec fn spec_pool_call_check<T: Config>(t: T, origin: Origin, pool_id: CurrencyId) -> Result<
    (AccountId, PoolInfo),
    DispatchError,
> {
    match spec_ensure_signed(origin) {
        Err(e) => Err(e),
        Ok(who) => match spec_pool_info(t, pool_id) {
            Err(e) => Err(spec_error::<T>(e)),
            Ok(info) => if spec_assets_allowed(t, info.pool) {
                Ok((who, info))
            } else {
                Err(spec_error::<T>(Error::FunctionNotAvailableForThisToken))
            },
        },
    }
}

/// The checks of `mint_liquidity_fixed_amounts` before any change.
pub open spec fn spec_fixed_amounts_check<T: Config>(
    t: T,
    origin: Origin,
    pool_id: CurrencyId,
    amounts: (Balance, Balance),
) -> Result<(AccountId, PoolInfo), DispatchError> {
    match spec_pool_call_check(t, origin, pool_id) {
        Err(e) => Err(e),
        Ok((who, info)) => match info.kind {
            PoolKind::Xyk => match spec_fixed_amounts_input(info.pool, amounts) {
                Err(e) => Err(spec_error::<T>(e)),
                Ok(_) => Ok((who, info)),
            },
            PoolKind::StableSwap => Ok((who, info)),
        },
    }
}

/// The checks of a mint from vested native tokens before any change: those
/// of a call on a pool, then a pool paired with the native asset and promoted.
pub open spec fn spec_vesting_mint_check<T: Config>(t: T, origin: Origin, pool_id: CurrencyId) -> Result<
    (AccountId, PoolInfo),
    DispatchError,
> {
    match spec_pool_call_check(t, origin, pool_id) {
        Err(e) => Err(e),
        Ok((who, info)) => match spec_native_pool_check(
            T::spec_native_currency_id(),
            info.pool,
            t.spec_native_rewards_enabled(pool_id),
        ) {
            Err(e) => Err(spec_error::<T>(e)),
            Ok(()) => Ok((who, info)),
        },
    }
}

/// The checks of `multiswap_asset` before any swap.
pub open spec fn spec_multiswap_check<T: Config>(
    t: T,
    origin: Origin,
    swap_pool_list: Seq<CurrencyId>,
    asset_id_in: CurrencyId,
    asset_id_out: CurrencyId,
) -> Result<(AccountId, Seq<PoolInfo>, Seq<AssetPair>), DispatchError> {
    match spec_ensure_signed(origin) {
        Err(e) => Err(e),
        Ok(who) => match spec_validate_multiswap(t, swap_pool_list, asset_id_in, asset_id_out) {
            Err(e) => Err(spec_error::<T>(e)),
            Ok((pools, path)) => Ok((who, pools, path)),
        },
    }
}

/// Whether the trace `t1` is the trace `t0` followed by more records.
pub open spec fn extends(t0: Trace, t1: Trace) -> bool {
    &&& t0.len() <= t1.len()
    &&& forall|i: int| 0 <= i < t0.len() ==> #[trigger] t1[i] == t0[i]
}

/// The records that follow `t0` in `t1`.
pub open spec fn added(t0: Trace, t1: Trace) -> Trace {
    t1.skip(t0.len() as int)
}

/// Whether, from `(t0, l0)` to `(t1, l1)`, the log grew and the trace grew
/// by exactly the records that the log grew by.
pub open spec fn moves_with(t0: Trace, t1: Trace, l0: Trace, l1: Trace) -> bool {
    &&& extends(l0, l1)
    &&& t1 == t0 + added(l0, l1)
}

/// Whether one more storage layer can be opened in the state `t`.
pub open spec fn spec_layer_available<T: Config>(t: T) -> bool {
    t.spec_layers().len() < T::spec_max_layers()
}

/// A call that runs in a storage layer of its own: the layers are as they
/// were, the log records all it did, and the trace keeps those records when
/// the call succeeds and is as it was when the call fails.
pub open spec fn spec_layered<T: Config>(before: T, after: T, ok: bool) -> bool {
    &&& after.spec_layers() == before.spec_layers()
    &&& extends(before.spec_log(), after.spec_log())
    &&& if ok {
        moves_with(before.spec_trace(), after.spec_trace(), before.spec_log(), after.spec_log())
    } else {
        after.spec_trace() == before.spec_trace()
    }
}

/// Nothing has happened yet.
pub(crate) proof fn lemma_moves_with_start(t: Trace, l: Trace)
    ensures
        moves_with(t, t, l, l),
        added(l, l) == Seq::<Record>::empty(),
{
    assert(added(l, l) =~= Seq::<Record>::empty());
    assert(t + added(l, l) =~= t);
}

/// One more record, added to both the trace and the log.
pub(crate) proof fn lemma_moves_with_push(t0: Trace, t1: Trace, l0: Trace, l1: Trace, x: Record)
    requires
        moves_with(t0, t1, l0, l1),
    ensures
        moves_with(t0, t1.push(x), l0, l1.push(x)),
        added(l0, l1.push(x)) == added(l0, l1).push(x),
{
    assert(added(l0, l1.push(x)) =~= added(l0, l1).push(x));
    assert(t1.push(x) =~= t0 + added(l0, l1).push(x));
}

/// Two steps in a row.
pub(crate) proof fn lemma_moves_with_then(t0: Trace, t1: Trace, t2: Trace, l0: Trace, l1: Trace, l2: Trace)
    requires
        moves_with(t0, t1, l0, l1),
        moves_with(t1, t2, l1, l2),
    ensures
        moves_with(t0, t2, l0, l2),
        added(l0, l2) == added(l0, l1) + added(l1, l2),
{
    assert(added(l0, l2) =~= added(l0, l1) + added(l1, l2));
    assert(t2 =~= t0 + added(l0, l2));
}

/// A result without its value.
pub open spec fn unit_of<A>(res: Result<A, DispatchError>) -> Result<(), DispatchError> {
    match res {
        Ok(_) => Ok(()),
        Err(e) => Err(e),
    }
}

/// The calls of `create_pool` once its checks pass: for an Xyk pool, the
/// creation of the pool; for a StableSwap pool, the creation of the pool with
/// the decimals of the assets, the first liquidity into the new LP asset,
/// and the registration of that asset, up to the first that fails.
pub open spec fn spec_create_pool_effects(
    who: AccountId,
    kind: PoolKind,
    first_asset_id: CurrencyId,
    first_asset_amount: Balance,
    second_asset_id: CurrencyId,
    second_asset_amount: Balance,
    decimals: Option<(u32, u32)>,
    s: Trace,
    r: Result<(), DispatchError>,
) -> bool {
    match kind {
        PoolKind::Xyk => s.len() == 1 && s[0] == rec(
            (RuntimeCall::XykCreatePool {
                sender: who,
                first_asset_id,
                first_asset_amount,
                second_asset_id,
                second_asset_amount,
            }),
            Outcome::Done(r),
        ),
        PoolKind::StableSwap => {
            &&& decimals is Some
            &&& s.len() >= 1
            &&& s[0].call == (RuntimeCall::StableCreatePool {
                sender: who,
                first_asset_id,
                first_asset_decimals: decimals->Some_0.0,
                second_asset_id,
                second_asset_decimals: decimals->Some_0.1,
            })
            &&& match s[0].outcome {
                Outcome::Asset(Err(e)) => s.len() == 1 && r == Err::<(), DispatchError>(e),
                Outcome::Asset(Ok(lp_token)) => {
                    &&& s.len() >= 2
                    &&& s[1].call == (RuntimeCall::StableAddLiquidity {
                        sender: who,
                        pool_id: lp_token,
                        amounts: (first_asset_amount, second_asset_amount),
                        min_amount_lp_tokens: 0,
                    })
                    &&& match s[1].outcome {
                        Outcome::Amount(Err(e)) => s.len() == 2 && r == Err::<(), DispatchError>(e),
                        Outcome::Amount(Ok(_)) => s.len() == 3 && s[2] == rec(
                            (RuntimeCall::CreatePoolAsset { lp_token, first_asset_id, second_asset_id }),
                            Outcome::Done(r),
                        ),
                        _ => false,
                    }
                },
                _ => false,
            }
        },
    }
}

/// The LP amount that a mint reports in its records `s`, or its error.
pub open spec fn spec_mint_result(info: PoolInfo, s: Trace) -> Result<Balance, DispatchError> {
    match info.kind {
        PoolKind::Xyk => match s[0].outcome {
            Outcome::Amounts(Ok((_, lp))) => Ok(lp),
            Outcome::Amounts(Err(e)) => Err(e),
            _ => Err(DispatchError::Other),
        },
        PoolKind::StableSwap => match s[0].outcome {
            Outcome::Amount(Ok(lp)) => if s.len() == 2 {
                match s[1].outcome {
                    Outcome::Done(Err(e)) => Err(e),
                    _ => Ok(lp),
                }
            } else {
                Ok(lp)
            },
            Outcome::Amount(Err(e)) => Err(e),
            _ => Err(DispatchError::Other),
        },
    }
}

/// The calls of a mint of `amount` of `asset_id` into the pool `info`: on an
/// Xyk pool with the given asset first; on a StableSwap pool the same amount
/// of both assets (a rate of 1:1), then, exactly when `activate` asks for it
/// and the pool is `promoted`, the activation of the LP tokens minted.
pub open spec fn spec_mint_effects(
    who: AccountId,
    info: PoolInfo,
    asset_id: CurrencyId,
    amount: Balance,
    max_amount: Balance,
    activate: bool,
    promoted: bool,
    s: Trace,
) -> bool {
    match info.kind {
        PoolKind::Xyk => {
            &&& s.len() == 1
            &&& s[0].call == (RuntimeCall::XykMintLiquidity {
                sender: who,
                asset_with_amount: spec_ordered_pair(info.pool, asset_id).0,
                asset_other: spec_ordered_pair(info.pool, asset_id).1,
                amount,
                max_amount,
                activate,
            })
            &&& s[0].outcome is Amounts
        },
        PoolKind::StableSwap => {
            &&& s.len() >= 1
            &&& s[0].call == (RuntimeCall::StableAddLiquidity {
                sender: who,
                pool_id: info.pool_id,
                amounts: (amount, amount),
                min_amount_lp_tokens: 0,
            })
            &&& match s[0].outcome {
                Outcome::Amount(Err(_)) => s.len() == 1,
                Outcome::Amount(Ok(lp)) => if activate && promoted {
                    &&& s.len() == 2
                    &&& s[1].call == (RuntimeCall::ActivateLiquidity {
                        sender: who,
                        pool_id: info.pool_id,
                        amount: lp,
                        use_balance_from: Some(ActivateKind::AvailableBalance),
                    })
                    &&& s[1].outcome is Done
                } else {
                    s.len() == 1
                },
                _ => false,
            }
        },
    }
}

/// The calls of `mint_liquidity_fixed_amounts` once its checks pass: on an
/// Xyk pool, the single amount given, converted to the rate of the pool,
/// whose LP amount must reach `min_amount_lp_tokens`; on a StableSwap pool,
/// both amounts, then the activation of the LP tokens minted.
pub open spec fn spec_fixed_amounts_effects(
    who: AccountId,
    info: PoolInfo,
    amounts: (Balance, Balance),
    min_amount_lp_tokens: Balance,
    pallet_index: u8,
    s: Trace,
    r: Result<(), DispatchError>,
) -> bool {
    match info.kind {
        PoolKind::Xyk => {
            let input = spec_fixed_amounts_input(info.pool, amounts)->Ok_0;
            &&& s.len() == 1
            &&& s[0].call == (RuntimeCall::XykProvideLiquidityWithConversion {
                sender: who,
                first_asset_id: info.pool.0,
                second_asset_id: info.pool.1,
                provided_asset_id: input.0,
                provided_asset_amount: input.1,
                activate: true,
            })
            &&& match s[0].outcome {
                Outcome::Amounts(Ok((_, lp))) => r == (if lp >= min_amount_lp_tokens {
                    Ok::<(), DispatchError>(())
                } else {
                    Err::<(), DispatchError>(spec_module_error(Error::InsufficientOutputAmount, pallet_index))
                }),
                Outcome::Amounts(Err(e)) => r == Err::<(), DispatchError>(e),
                _ => false,
            }
        },
        PoolKind::StableSwap => {
            &&& s.len() >= 1
            &&& s[0].call == (RuntimeCall::StableAddLiquidity {
                sender: who,
                pool_id: info.pool_id,
                amounts,
                min_amount_lp_tokens,
            })
            &&& match s[0].outcome {
                Outcome::Amount(Err(e)) => s.len() == 1 && r == Err::<(), DispatchError>(e),
                Outcome::Amount(Ok(lp)) => s.len() == 2 && s[1] == rec(
                    (RuntimeCall::ActivateLiquidity {
                        sender: who,
                        pool_id: info.pool_id,
                        amount: lp,
                        use_balance_from: Some(ActivateKind::AvailableBalance),
                    }),
                    Outcome::Done(r),
                ),
                _ => false,
            }
        },
    }
}

/// After vested tokens are unlocked (`unlocked` holds the amount, the
/// starting block and the ending block), the mint of that amount without
/// activation, then the lock of the LP tokens minted under the same schedule.
pub open spec fn spec_vested_mint_effects(
    who: AccountId,
    info: PoolInfo,
    native_id: CurrencyId,
    unlocked: (Balance, BlockNumber, Balance),
    max_other_asset_amount: Balance,
    s: Trace,
    r: Result<(), DispatchError>,
) -> bool {
    &&& s.len() >= 1
    &&& spec_mint_effects(who, info, native_id, unlocked.0, max_other_asset_amount, false, false, s.take(1))
    &&& match spec_mint_result(info, s.take(1)) {
        Err(e) => s.len() == 1 && r == Err::<(), DispatchError>(e),
        Ok(lp_amount) => s.len() == 2 && s[1] == rec(
            (RuntimeCall::LockTokens {
                sender: who,
                token_id: info.pool_id,
                lock_amount: lp_amount,
                starting_block: Some(unlocked.1),
                ending_block_as_balance: unlocked.2,
            }),
            Outcome::Done(r),
        ),
    }
}

/// The calls of `mint_liquidity_using_vesting_native_tokens_by_vesting_index`
/// once its checks pass.
pub open spec fn spec_vesting_index_effects(
    who: AccountId,
    info: PoolInfo,
    native_id: CurrencyId,
    vesting_index: u32,
    unlock_some_amount_or_all: Option<Balance>,
    max_other_asset_amount: Balance,
    s: Trace,
    r: Result<(), DispatchError>,
) -> bool {
    &&& s.len() >= 1
    &&& s[0].call == (RuntimeCall::UnlockTokensByVestingIndex {
        sender: who,
        token_id: native_id,
        vesting_index,
        unlock_some_amount_or_all,
    })
    &&& match s[0].outcome {
        Outcome::Unlocked(Err(e)) => s.len() == 1 && r == Err::<(), DispatchError>(e),
        Outcome::Unlocked(Ok(unlocked)) => spec_vested_mint_effects(
            who,
            info,
            native_id,
            unlocked,
            max_other_asset_amount,
            s.skip(1),
            r,
        ),
        _ => false,
    }
}

/// The calls of `mint_liquidity_using_vesting_native_tokens` once its checks pass.
pub open spec fn spec_vesting_amount_effects(
    who: AccountId,
    info: PoolInfo,
    native_id: CurrencyId,
    amount: Balance,
    max_other_asset_amount: Balance,
    s: Trace,
    r: Result<(), DispatchError>,
) -> bool {
    &&& s.len() >= 1
    &&& s[0].call == (RuntimeCall::UnlockTokens { sender: who, token_id: native_id, unlock_amount: amount })
    &&& match s[0].outcome {
        Outcome::Schedule(Err(e)) => s.len() == 1 && r == Err::<(), DispatchError>(e),
        Outcome::Schedule(Ok((start, end))) => spec_vested_mint_effects(
            who,
            info,
            native_id,
            (amount, start, end),
            max_other_asset_amount,
            s.skip(1),
            r,
        ),
        _ => false,
    }
}

/// The calls of `burn_liquidity` once its checks pass: on an Xyk pool the
/// burn, whose amounts paid out must reach `min_amounts`; on a StableSwap
/// pool, the deactivation of what the available balance `available` does not
/// cover, then the removal of the liquidity.
pub open spec fn spec_burn_effects(
    who: AccountId,
    info: PoolInfo,
    liquidity_burn_amount: Balance,
    min_amounts: (Balance, Balance),
    available: Balance,
    pallet_index: u8,
    s: Trace,
    r: Result<(), DispatchError>,
) -> bool {
    match info.kind {
        PoolKind::Xyk => {
            &&& s.len() == 1
            &&& s[0].call == (RuntimeCall::XykBurnLiquidity {
                sender: who,
                first_asset_id: info.pool.0,
                second_asset_id: info.pool.1,
                liquidity_asset_amount: liquidity_burn_amount,
            })
            &&& match s[0].outcome {
                Outcome::Amounts(Ok(paid)) => r == (if spec_paid_enough(paid, min_amounts) {
                    Ok::<(), DispatchError>(())
                } else {
                    Err::<(), DispatchError>(spec_module_error(Error::InsufficientOutputAmount, pallet_index))
                }),
                Outcome::Amounts(Err(e)) => r == Err::<(), DispatchError>(e),
                _ => false,
            }
        },
        PoolKind::StableSwap => {
            &&& s.len() >= 1
            &&& s[0].call == (RuntimeCall::DeactivateLiquidity {
                sender: who,
                pool_id: info.pool_id,
                amount: spec_deactivation_amount(liquidity_burn_amount, available),
            })
            &&& match s[0].outcome {
                Outcome::Done(Err(e)) => s.len() == 1 && r == Err::<(), DispatchError>(e),
                Outcome::Done(Ok(())) => {
                    &&& s.len() == 2
                    &&& s[1].call == (RuntimeCall::StableRemoveLiquidity {
                        sender: who,
                        pool_id: info.pool_id,
                        burn_amount: liquidity_burn_amount,
                        min_amounts,
                    })
                    &&& (s[1].outcome matches Outcome::Amounts(res) && r == unit_of(res))
                },
                _ => false,
            }
        },
    }
}

/// The call that swaps `amount` along `swap` on the pool `info`: each swap
/// accepts any output, the minimum is checked once at the end.
pub open spec fn spec_swap_call(who: AccountId, info: PoolInfo, swap: AssetPair, amount: Balance) -> RuntimeCall {
    match info.kind {
        PoolKind::StableSwap => RuntimeCall::StableSwap {
            sender: who,
            pool_id: info.pool_id,
            asset_in: swap.0,
            asset_out: swap.1,
            amount_in: amount,
            min_amount_out: 0,
        },
        PoolKind::Xyk => RuntimeCall::XykSellAsset {
            sender: who,
            sold_asset_id: swap.0,
            bought_asset_id: swap.1,
            sold_asset_amount: amount,
            min_amount_out: 0,
            err_upon_bad_slippage: true,
        },
    }
}

/// What the records `s` of a chain of swaps along `path` on `pools` report:
/// the first swap sells `amount`, each next one sells what the previous one
/// bought, up to the first that fails; the result is the amount finally
/// bought or the error, and `None` when the records are not such a chain.
pub open spec fn spec_chain_result(
    who: AccountId,
    pools: Seq<PoolInfo>,
    path: Seq<AssetPair>,
    amount: Balance,
    s: Trace,
) -> Option<Result<Balance, DispatchError>>
    decreases s.len(),
{
    if pools.len() == 0 || path.len() == 0 {
        if s.len() == 0 {
            Some(Ok(amount))
        } else {
            None
        }
    } else if s.len() == 0 {
        None
    } else if s[0].call != spec_swap_call(who, pools[0], path[0], amount) {
        None
    } else {
        match s[0].outcome {
            Outcome::Amount(Ok(out)) => spec_chain_result(
                who,
                pools.drop_first(),
                path.drop_first(),
                out,
                s.drop_first(),
            ),
            Outcome::Amount(Err(e)) => if s.len() == 1 {
                Some(Err(e))
            } else {
                None
            },
            _ => None,
        }
    }
}

/// Whether `s` are the records of a chain of swaps whose result is `res`.
pub open spec fn spec_swap_chain(
    who: AccountId,
    pools: Seq<PoolInfo>,
    path: Seq<AssetPair>,
    amount: Balance,
    s: Trace,
    res: Result<Balance, DispatchError>,
) -> bool {
    spec_chain_result(who, pools, path, amount, s) == Some(res)
}

/// The result of a chain of swaps once the minimum `min_amount_out` is checked.
pub open spec fn spec_min_checked(
    chain: Result<Balance, DispatchError>,
    min_amount_out: Balance,
    pallet_index: u8,
) -> Result<Balance, DispatchError> {
    match chain {
        Ok(amount_out) => if amount_out >= min_amount_out {
            Ok(amount_out)
        } else {
            Err(spec_module_error(Error::InsufficientOutputAmount, pallet_index))
        },
        Err(e) => Err(e),
    }
}

/// Whether the records `s` end with a deposited event.
pub open spec fn ends_with_event(s: Trace) -> bool {
    s.len() > 0 && s.last().call is DepositEvent
}

/// The event at the end of the records `s`, if any.
pub open spec fn spec_final_event(s: Trace) -> Option<Event> {
    if ends_with_event(s) {
        Some(s.last().call->DepositEvent_event)
    } else {
        None
    }
}

/// The records of the swaps among the records `s` of a multiswap.
pub open spec fn spec_swap_records(s: Trace) -> Trace {
    if ends_with_event(s) {
        s.drop_last()
    } else {
        s
    }
}

/// What the swaps of a multiswap returned, read from the records `s` it
/// added to the log: the result of the chain of swaps after the minimum is
/// checked, or `Transactional` when no storage layer could be opened for
/// them (`layers_open` layers being open, `max_layers` at most); `None`
/// when the records are not those of such swaps.
pub open spec fn spec_swaps_result(
    who: AccountId,
    pools: Seq<PoolInfo>,
    path: Seq<AssetPair>,
    amount_in: Balance,
    min_amount_out: Balance,
    pallet_index: u8,
    layers_open: nat,
    max_layers: u32,
    s: Trace,
) -> Option<Result<Balance, DispatchError>> {
    if layers_open + 1 < max_layers {
        match spec_chain_result(who, pools, path, amount_in, spec_swap_records(s)) {
            Some(chain) => Some(spec_min_checked(chain, min_amount_out, pallet_index)),
            None => None,
        }
    } else if spec_swap_records(s).len() == 0 {
        Some(Err(DispatchError::Transactional))
    } else {
        None
    }
}

/// What a multiswap that passed its checks did, from the trace `t0` and the
/// log `l0` to the trace `t1` and the log `l1`, with the result `r`: its swaps
/// ran in a storage layer of their own, each selling what the previous one
/// bought; what they returned decides the event and the result (see
/// `spec_multiswap_outcome_ok`); swaps that reach `min_amount_out` stay in
/// the trace, followed by the event; swaps that fail are reverted, and only
/// the event of the failure, if any, stays.
pub open spec fn spec_multiswap_effects(
    who: AccountId,
    swap_pool_list: Seq<CurrencyId>,
    pools: Seq<PoolInfo>,
    path: Seq<AssetPair>,
    amount_in: Balance,
    min_amount_out: Balance,
    pallet_index: u8,
    layers_open: nat,
    max_layers: u32,
    failure_weight: Weight,
    t0: Trace,
    t1: Trace,
    l0: Trace,
    l1: Trace,
    r: Result<PostDispatchInfo, DispatchErrorWithPostInfo>,
) -> bool {
    let s = added(l0, l1);
    let swaps = spec_swaps_result(
        who,
        pools,
        path,
        amount_in,
        min_amount_out,
        pallet_index,
        layers_open,
        max_layers,
        s,
    );
    &&& extends(l0, l1)
    &&& swaps is Some
    &&& spec_multiswap_outcome_ok(
        who,
        swap_pool_list,
        path,
        amount_in,
        swaps->Some_0,
        pallet_index,
        failure_weight,
        spec_final_event(s),
        r,
    )
    &&& match swaps->Some_0 {
        Ok(_) => moves_with(t0, t1, l0, l1),
        Err(DispatchError::Module(_)) => extends(t0, t1) && added(t0, t1) == seq![s.last()],
        Err(_) => t1 == t0,
    }
}

/// A multiswap that succeeds as a free call sold `amount_in` along its route
/// and bought at least `min_amount_out`: its swaps stay in the trace,
/// followed by `AssetsSwapped` with the amount bought.
pub proof fn lemma_multiswap_success_meets_minimum(
    who: AccountId,
    swap_pool_list: Seq<CurrencyId>,
    pools: Seq<PoolInfo>,
    path: Seq<AssetPair>,
    amount_in: Balance,
    min_amount_out: Balance,
    pallet_index: u8,
    layers_open: nat,
    max_layers: u32,
    failure_weight: Weight,
    t0: Trace,
    t1: Trace,
    l0: Trace,
    l1: Trace,
    r: Result<PostDispatchInfo, DispatchErrorWithPostInfo>,
)
    requires
        spec_multiswap_effects(
            who,
            swap_pool_list,
            pools,
            path,
            amount_in,
            min_amount_out,
            pallet_index,
            layers_open,
            max_layers,
            failure_weight,
            t0,
            t1,
            l0,
            l1,
            r,
        ),
        r is Ok,
        r->Ok_0.pays_fee == Pays::No,
    ensures
        ({
            let s = added(l0, l1);
            &&& spec_chain_result(who, pools, path, amount_in, spec_swap_records(s)) matches Some(
                Ok(amount_out),
            )
            &&& amount_out >= min_amount_out
            &&& spec_final_event(s) matches Some(Event::AssetsSwapped { amount_out: o, .. })
            &&& o == amount_out
            &&& moves_with(t0, t1, l0, l1)
        }),
{
}

/// A multiswap whose swaps fail, or end below `min_amount_out`, reverts all
/// its swaps and charges its fee. When a swap failed with a pallet error, or
/// the minimum was missed, the call succeeds and reports that error in
/// `MultiSwapAssetFailedOnAtomicSwap`, which alone stays in the trace;
/// otherwise the call fails and the trace is as it was.
pub proof fn lemma_multiswap_failure_reverts_swaps(
    who: AccountId,
    swap_pool_list: Seq<CurrencyId>,
    pools: Seq<PoolInfo>,
    path: Seq<AssetPair>,
    amount_in: Balance,
    min_amount_out: Balance,
    pallet_index: u8,
    layers_open: nat,
    max_layers: u32,
    failure_weight: Weight,
    t0: Trace,
    t1: Trace,
    l0: Trace,
    l1: Trace,
    r: Result<PostDispatchInfo, DispatchErrorWithPostInfo>,
)
    requires
        spec_multiswap_effects(
            who,
            swap_pool_list,
            pools,
            path,
            amount_in,
            min_amount_out,
            pallet_index,
            layers_open,
            max_layers,
            failure_weight,
            t0,
            t1,
            l0,
            l1,
            r,
        ),
        r is Err || r->Ok_0.pays_fee == Pays::Yes,
    ensures
        ({
            let s = added(l0, l1);
            let swaps = spec_swaps_result(
                who,
                pools,
                path,
                amount_in,
                min_amount_out,
                pallet_index,
                layers_open,
                max_layers,
                s,
            )->Some_0;
            &&& swaps is Err
            &&& match r {
                Ok(info) => {
                    &&& info == (PostDispatchInfo { actual_weight: Some(failure_weight), pays_fee: Pays::Yes })
                    &&& spec_final_event(s) matches Some(
                        Event::MultiSwapAssetFailedOnAtomicSwap { module_err, .. },
                    )
                    &&& swaps == Err::<Balance, DispatchError>(DispatchError::Module(module_err))
                    &&& extends(t0, t1) && added(t0, t1) == seq![s.last()]
                },
                Err(e) => {
                    &&& e.post_info == (PostDispatchInfo { actual_weight: Some(failure_weight), pays_fee: Pays::Yes })
                    &&& spec_final_event(s) is None
                    &&& t1 == t0
                },
            }
        }),
{
}

/// Adding one more swap to a chain of swaps that all succeeded.
pub(crate) proof fn lemma_swap_chain_push(
    who: AccountId,
    pools: Seq<PoolInfo>,
    path: Seq<AssetPair>,
    amount: Balance,
    s: Trace,
    x: Balance,
    info: PoolInfo,
    pair: AssetPair,
    r: Record,
)
    requires
        pools.len() == path.len(),
        spec_swap_chain(who, pools, path, amount, s, Ok(x)),
        r.call == spec_swap_call(who, info, pair, x),
        r.outcome is Amount,
    ensures
        spec_swap_chain(who, pools.push(info), path.push(pair), amount, s.push(r), r.outcome->Amount_0),
    decreases s.len(),
{
    reveal_with_fuel(spec_chain_result, 2);
    if pools.len() == 0 {
        assert(pools.push(info).drop_first() =~= Seq::<PoolInfo>::empty());
        assert(path.push(pair).drop_first() =~= Seq::<AssetPair>::empty());
        assert(s.push(r).drop_first() =~= Seq::<Record>::empty());
    } else {
        let out = s[0].outcome->Amount_0->Ok_0;
        lemma_swap_chain_push(who, pools.drop_first(), path.drop_first(), out, s.drop_first(), x, info, pair, r);
        assert(pools.push(info).drop_first() =~= pools.drop_first().push(info));
        assert(path.push(pair).drop_first() =~= path.drop_first().push(pair));
        assert(s.push(r).drop_first() =~= s.drop_first().push(r));
    }
}

/// A chain of swaps that fails within the first `k` pools fails in the same
/// way on all the pools.
pub(crate) proof fn lemma_swap_chain_err_prefix(
    who: AccountId,
    pools: Seq<PoolInfo>,
    path: Seq<AssetPair>,
    amount: Balance,
    s: Trace,
    e: DispatchError,
    k: int,
)
    requires
        0 <= k <= pools.len(),
        pools.len() == path.len(),
        spec_swap_chain(who, pools.take(k), path.take(k), amount, s, Err(e)),
    ensures
        spec_swap_chain(who, pools, path, amount, s, Err(e)),
    decreases s.len(),
{
    assert(k > 0);
    let out = s[0].outcome->Amount_0;
    assert(pools.take(k)[0] == pools[0]);
    assert(path.take(k)[0] == path[0]);
    if out is Ok {
        assert(pools.take(k).drop_first() =~= pools.drop_first().take(k - 1));
        assert(path.take(k).drop_first() =~= path.drop_first().take(k - 1));
        lemma_swap_chain_err_prefix(who, pools.drop_first(), path.drop_first(), out->Ok_0, s.drop_first(), e, k - 1);
    }
}

/// The records of a chain of swaps hold no event.
pub(crate) proof fn lemma_swap_chain_has_no_event(
    who: AccountId,
    pools: Seq<PoolInfo>,
    path: Seq<AssetPair>,
    amount: Balance,
    s: Trace,
)
    requires
        spec_chain_result(who, pools, path, amount, s) is Some,
    ensures
        !ends_with_event(s),
    decreases s.len(),
{
    if s.len() > 1 {
        let out = s[0].outcome->Amount_0->Ok_0;
        lemma_swap_chain_has_no_event(who, pools.drop_first(), path.drop_first(), out, s.drop_first());
        assert(s.drop_first().last() == s.last());
    }
}

/// A mint on an Xyk pool provides the amount of the asset asked for, and at
/// most `max_amount` of the pool's other asset, whichever of its two assets
/// the pool lists first.
pub proof fn lemma_xyk_mint_provides_the_asset_asked_for(
    who: AccountId,
    info: PoolInfo,
    asset_id: CurrencyId,
    amount: Balance,
    max_amount: Balance,
    activate: bool,
    promoted: bool,
    s: Trace,
)
    requires
        info.kind is Xyk,
        asset_id == info.pool.0 || asset_id == info.pool.1,
        spec_mint_effects(who, info, asset_id, amount, max_amount, activate, promoted, s),
    ensures
        s.len() == 1,
        s[0].call == (RuntimeCall::XykMintLiquidity {
            sender: who,
            asset_with_amount: asset_id,
            asset_other: if asset_id == info.pool.0 {
                info.pool.1
            } else {
                info.pool.0
            },
            amount,
            max_amount,
            activate,
        }),
{
}

/// On an Xyk pool, a fixed-amounts mint is refused with
/// `FunctionNotAvailableForThisPoolKind` when both amounts are non-zero, and
/// passes its checks otherwise; it then provides the non-zero amount (the
/// first one when both are zero) of its own asset.
pub proof fn lemma_xyk_fixed_amounts_take_one_amount<T: Config>(
    t: T,
    origin: Origin,
    pool_id: CurrencyId,
    amounts: (Balance, Balance),
    min_amount_lp_tokens: Balance,
    s: Trace,
    r: Result<(), DispatchError>,
)
    requires
        spec_pool_call_check(t, origin, pool_id) is Ok,
        spec_pool_call_check(t, origin, pool_id)->Ok_0.1.kind is Xyk,
    ensures
        amounts.0 != 0 && amounts.1 != 0 ==> spec_fixed_amounts_check(t, origin, pool_id, amounts)
            == Err::<(AccountId, PoolInfo), DispatchError>(
            spec_error::<T>(Error::FunctionNotAvailableForThisPoolKind),
        ),
        amounts.0 == 0 || amounts.1 == 0 ==> spec_fixed_amounts_check(t, origin, pool_id, amounts)
            == spec_pool_call_check(t, origin, pool_id),
        ({
            let (who, info) = spec_pool_call_check(t, origin, pool_id)->Ok_0;
            (amounts.0 == 0 || amounts.1 == 0) && spec_fixed_amounts_effects(
                who,
                info,
                amounts,
                min_amount_lp_tokens,
                T::spec_pallet_index(),
                s,
                r,
            ) ==> s[0].call == (RuntimeCall::XykProvideLiquidityWithConversion {
                sender: who,
                first_asset_id: info.pool.0,
                second_asset_id: info.pool.1,
                provided_asset_id: if amounts.1 == 0 {
                    info.pool.0
                } else {
                    info.pool.1
                },
                provided_asset_amount: if amounts.1 == 0 {
                    amounts.0
                } else {
                    amounts.1
                },
                activate: true,
            })
        }),
{
}

/// A mint from vested native tokens is refused with `NotPairedWithNativeAsset`
/// exactly when neither asset of the pool is the native currency, whichever
/// of the two it lists first; a pool that holds the native currency and is
/// promoted passes the checks.
pub proof fn lemma_vested_mint_needs_native_pair<T: Config>(t: T, origin: Origin, pool_id: CurrencyId)
    requires
        spec_pool_call_check(t, origin, pool_id) is Ok,
    ensures
        ({
            let (who, info) = spec_pool_call_check(t, origin, pool_id)->Ok_0;
            let native = T::spec_native_currency_id();
            &&& (spec_vesting_mint_check(t, origin, pool_id) == Err::<(AccountId, PoolInfo), DispatchError>(
                spec_error::<T>(Error::NotPairedWithNativeAsset),
            ) <==> info.pool.0 != native && info.pool.1 != native)
            &&& (info.pool.0 == native || info.pool.1 == native) && t.spec_native_rewards_enabled(pool_id)
                ==> spec_vesting_mint_check(t, origin, pool_id) == Ok::<(AccountId, PoolInfo), DispatchError>(
                (who, info),
            )
        }),
{
    lemma_module_error_injective(Error::NotAPromotedPool, Error::NotPairedWithNativeAsset, T::spec_pallet_index());
}

/// A pool of a pair that the runtime disallows is never created, of either
/// kind: when the origin is signed and the assets are allowed, the call is
/// refused with `DisallowedPool`; a pool that passes the checks is of a
/// pair that is not disallowed.
pub proof fn lemma_disallowed_pair_is_refused<T: Config>(
    t: T,
    origin: Origin,
    kind: PoolKind,
    first_asset_id: CurrencyId,
    second_asset_id: CurrencyId,
)
    ensures
        origin is Signed && spec_assets_allowed(t, (first_asset_id, second_asset_id))
            && t.spec_is_disallowed_pool((first_asset_id, second_asset_id))
            ==> spec_create_pool_check(t, origin, kind, first_asset_id, second_asset_id)
            == Err::<(AccountId, Option<(u32, u32)>), DispatchError>(spec_error::<T>(Error::DisallowedPool)),
        spec_create_pool_check(t, origin, kind, first_asset_id, second_asset_id) is Ok
            ==> origin is Signed && spec_assets_allowed(t, (first_asset_id, second_asset_id))
            && !t.spec_is_disallowed_pool((first_asset_id, second_asset_id)),
{
}

/// A burn on an Xyk pool succeeds exactly when both amounts paid out meet
/// their minimums; otherwise it fails with `InsufficientOutputAmount`.
pub proof fn lemma_xyk_burn_meets_minimums(
    who: AccountId,
    info: PoolInfo,
    liquidity_burn_amount: Balance,
    min_amounts: (Balance, Balance),
    available: Balance,
    pallet_index: u8,
    s: Trace,
    r: Result<(), DispatchError>,
    paid: (Balance, Balance),
)
    requires
        info.kind is Xyk,
        spec_burn_effects(who, info, liquidity_burn_amount, min_amounts, available, pallet_index, s, r),
        s[0].outcome == Outcome::Amounts(Ok::<(Balance, Balance), DispatchError>(paid)),
    ensures
        r is Ok <==> paid.0 >= min_amounts.0 && paid.1 >= min_amounts.1,
        r is Err ==> r == Err::<(), DispatchError>(spec_module_error(Error::InsufficientOutputAmount, pallet_index)),
{
}

/// A burn on a StableSwap pool first deactivates the part of the LP amount
/// that the available balance does not cover (nothing when it covers it
/// all), then removes the whole LP amount with the minimums asked for.
pub proof fn lemma_stable_burn_deactivates_the_shortfall(
    who: AccountId,
    info: PoolInfo,
    liquidity_burn_amount: Balance,
    min_amounts: (Balance, Balance),
    available: Balance,
    pallet_index: u8,
    s: Trace,
    r: Result<(), DispatchError>,
)
    requires
        info.kind is StableSwap,
        spec_burn_effects(who, info, liquidity_burn_amount, min_amounts, available, pallet_index, s, r),
    ensures
        s[0].call is DeactivateLiquidity,
        s[0].call->DeactivateLiquidity_sender == who,
        s[0].call->DeactivateLiquidity_pool_id == info.pool_id,
        liquidity_burn_amount <= available ==> s[0].call->DeactivateLiquidity_amount == 0,
        liquidity_burn_amount > available ==> s[0].call->DeactivateLiquidity_amount + available
            == liquidity_burn_amount,
        s.len() == 2 ==> s[1].call == (RuntimeCall::StableRemoveLiquidity {
            sender: who,
            pool_id: info.pool_id,
            burn_amount: liquidity_burn_amount,
            min_amounts,
        }),
{
}

/// A mint on a StableSwap pool adds the same amount of both assets, and
/// activates the LP tokens minted exactly when the mint asks for activation
/// and the pool is promoted.
pub proof fn lemma_stable_mint_one_to_one(
    who: AccountId,
    info: PoolInfo,
    asset_id: CurrencyId,
    amount: Balance,
    max_amount: Balance,
    activate: bool,
    promoted: bool,
    s: Trace,
    lp: Balance,
)
    requires
        info.kind is StableSwap,
        spec_mint_effects(who, info, asset_id, amount, max_amount, activate, promoted, s),
    ensures
        s[0].call == (RuntimeCall::StableAddLiquidity {
            sender: who,
            pool_id: info.pool_id,
            amounts: (amount, amount),
            min_amount_lp_tokens: 0,
        }),
        s[0].outcome == Outcome::Amount(Ok::<Balance, DispatchError>(lp)) ==> (s.len() == 2 <==> activate
            && promoted),
        s[0].outcome == Outcome::Amount(Ok::<Balance, DispatchError>(lp)) && s.len() == 2 ==> s[1].call == (
        RuntimeCall::ActivateLiquidity {
            sender: who,
            pool_id: info.pool_id,
            amount: lp,
            use_balance_from: Some(ActivateKind::AvailableBalance),
        }),
{
}

/// A StableSwap pool needs both of its assets registered, an Xyk pool needs
/// neither: once the origin is signed, the assets allowed and the pair not
/// disallowed, a StableSwap pool passes its checks exactly when both assets
/// have decimals (which it is created with), and fails with
/// `AssetDoesNotExists` otherwise; an Xyk pool always passes them.
pub proof fn lemma_stable_pool_needs_registered_assets<T: Config>(
    t: T,
    who: AccountId,
    kind: PoolKind,
    first_asset_id: CurrencyId,
    second_asset_id: CurrencyId,
)
    requires
        spec_assets_allowed(t, (first_asset_id, second_asset_id)),
        !t.spec_is_disallowed_pool((first_asset_id, second_asset_id)),
    ensures
        kind is Xyk ==> spec_create_pool_check(t, Origin::Signed(who), kind, first_asset_id, second_asset_id)
            == Ok::<(AccountId, Option<(u32, u32)>), DispatchError>((who, None)),
        (t.spec_asset_decimals(first_asset_id), t.spec_asset_decimals(second_asset_id)) matches (
            Some(d1),
            Some(d2),
        ) ==> (kind is StableSwap ==> spec_create_pool_check(
            t,
            Origin::Signed(who),
            kind,
            first_asset_id,
            second_asset_id,
        ) == Ok::<(AccountId, Option<(u32, u32)>), DispatchError>((who, Some((d1, d2))))),
        kind is StableSwap && (t.spec_asset_decimals(first_asset_id) is None
            || t.spec_asset_decimals(second_asset_id) is None) ==> spec_create_pool_check(
            t,
            Origin::Signed(who),
            kind,
            first_asset_id,
            second_asset_id,
        ) == Err::<(AccountId, Option<(u32, u32)>), DispatchError>(spec_error::<T>(Error::AssetDoesNotExists)),
{
}

/// The records of a chain of swaps: the i-th swap is made on the i-th pool
/// along the i-th pair, and sells `amount` when it is the first, else what
/// the swap before it bought, accepting any output; every swap but the last
/// succeeded; the chain gives what the last swap bought (`amount` when there
/// is none), or the error of the swap that failed, which is the last.
pub proof fn lemma_swap_chain_sells_what_it_bought(
    who: AccountId,
    pools: Seq<PoolInfo>,
    path: Seq<AssetPair>,
    amount: Balance,
    s: Trace,
    res: Result<Balance, DispatchError>,
)
    requires
        pools.len() == path.len(),
        spec_chain_result(who, pools, path, amount, s) == Some(res),
    ensures
        s.len() <= pools.len(),
        res is Ok ==> s.len() == pools.len(),
        forall|i: int| 0 <= i < s.len() - 1 ==> (#[trigger] s[i].outcome matches Outcome::Amount(Ok(_))),
        forall|i: int|
            0 <= i < s.len() ==> {
                let sold = if i == 0 {
                    amount
                } else {
                    s[i - 1].outcome->Amount_0->Ok_0
                };
                match pools[i].kind {
                    PoolKind::Xyk => #[trigger] s[i].call == (RuntimeCall::XykSellAsset {
                        sender: who,
                        sold_asset_id: path[i].0,
                        bought_asset_id: path[i].1,
                        sold_asset_amount: sold,
                        min_amount_out: 0,
                        err_upon_bad_slippage: true,
                    }),
                    PoolKind::StableSwap => s[i].call == (RuntimeCall::StableSwap {
                        sender: who,
                        pool_id: pools[i].pool_id,
                        asset_in: path[i].0,
                        asset_out: path[i].1,
                        amount_in: sold,
                        min_amount_out: 0,
                    }),
                }
            },
        res matches Ok(out) ==> out == (if s.len() == 0 {
            amount
        } else {
            s.last().outcome->Amount_0->Ok_0
        }),
        res matches Err(e) ==> s.len() > 0 && s.last().outcome == Outcome::Amount(
            Err::<Balance, DispatchError>(e),
        ),
    decreases s.len(),
{
    if pools.len() > 0 && s.len() > 0 {
        if let Outcome::Amount(Ok(out)) = s[0].outcome {
            let rest = s.drop_first();
            lemma_swap_chain_sells_what_it_bought(who, pools.drop_first(), path.drop_first(), out, rest, res);
            assert forall|i: int| 0 <= i < s.len() - 1 implies (#[trigger] s[i].outcome matches Outcome::Amount(Ok(_))) by {
                if i > 0 {
                    assert(s[i] == rest[i - 1]);
                }
            }
            assert forall|i: int| 0 < i < s.len() implies {
                let sold = if i == 0 {
                    amount
                } else {
                    s[i - 1].outcome->Amount_0->Ok_0
                };
                match pools[i].kind {
                    PoolKind::Xyk => #[trigger] s[i].call == (RuntimeCall::XykSellAsset {
                        sender: who,
                        sold_asset_id: path[i].0,
                        bought_asset_id: path[i].1,
                        sold_asset_amount: sold,
                        min_amount_out: 0,
                        err_upon_bad_slippage: true,
                    }),
                    PoolKind::StableSwap => s[i].call == (RuntimeCall::StableSwap {
                        sender: who,
                        pool_id: pools[i].pool_id,
                        asset_in: path[i].0,
                        asset_out: path[i].1,
                        amount_in: sold,
                        min_amount_out: 0,
                    }),
                }
            } by {
                assert(s[i] == rest[i - 1]);
                assert(pools[i] == pools.drop_first()[i - 1]);
                assert(path[i] == path.drop_first()[i - 1]);
                if i > 1 {
                    assert(s[i - 1] == rest[i - 2]);
                }
            }
            if rest.len() > 0 {
                assert(s.last() == rest.last());
            }
        }
    }
}

/// What a multiswap reports for what its swaps returned, when a layer could
/// be opened for them: swaps that buy at least `min_amount_out` make a free
/// call reporting `AssetsSwapped` with the amount bought; swaps that buy less
/// report `InsufficientOutputAmount` of this pallet in
/// `MultiSwapAssetFailedOnAtomicSwap`, and a swap that fails with a pallet
/// error reports that error there, both in a call that succeeds and pays
/// for `failure_weight`; any other failure of a swap makes the call fail
/// with `UnexpectedFailure`, paying for `failure_weight`, with no event.
pub proof fn lemma_multiswap_reports_what_its_swaps_returned(
    who: AccountId,
    swap_pool_list: Seq<CurrencyId>,
    pools: Seq<PoolInfo>,
    path: Seq<AssetPair>,
    amount_in: Balance,
    min_amount_out: Balance,
    pallet_index: u8,
    layers_open: nat,
    max_layers: u32,
    failure_weight: Weight,
    t0: Trace,
    t1: Trace,
    l0: Trace,
    l1: Trace,
    r: Result<PostDispatchInfo, DispatchErrorWithPostInfo>,
)
    requires
        spec_multiswap_effects(
            who,
            swap_pool_list,
            pools,
            path,
            amount_in,
            min_amount_out,
            pallet_index,
            layers_open,
            max_layers,
            failure_weight,
            t0,
            t1,
            l0,
            l1,
            r,
        ),
        layers_open + 1 < max_layers,
    ensures
        ({
            let s = added(l0, l1);
            let charged = PostDispatchInfo { actual_weight: Some(failure_weight), pays_fee: Pays::Yes };
            &&& spec_chain_result(who, pools, path, amount_in, spec_swap_records(s)) is Some
            &&& spec_chain_result(who, pools, path, amount_in, spec_swap_records(s)) matches Some(Ok(out)) ==> (
            out >= min_amount_out ==> {
                &&& r == Ok::<PostDispatchInfo, DispatchErrorWithPostInfo>(
                    PostDispatchInfo { actual_weight: None, pays_fee: Pays::No },
                )
                &&& spec_final_event(s) matches Some(
                    Event::AssetsSwapped { who: w, swap_pool_list: l, swap_assets_list: p, amount_in: a, amount_out: o },
                )
                &&& w == who && l@ == swap_pool_list && p@ == path && a == amount_in && o == out
            })
            &&& spec_chain_result(who, pools, path, amount_in, spec_swap_records(s)) matches Some(Ok(out)) ==> (
            out < min_amount_out ==> {
                &&& r == Ok::<PostDispatchInfo, DispatchErrorWithPostInfo>(charged)
                &&& spec_final_event(s) matches Some(
                    Event::MultiSwapAssetFailedOnAtomicSwap { who: w, swap_pool_list: l, swap_assets_list: p, module_err: m },
                )
                &&& w == who && l@ == swap_pool_list && p@ == path
                &&& m == (ModuleError { index: pallet_index, error: [3, 0, 0, 0] })
            })
            &&& spec_chain_result(who, pools, path, amount_in, spec_swap_records(s)) matches Some(
                Err(DispatchError::Module(me)),
            ) ==> {
                &&& r == Ok::<PostDispatchInfo, DispatchErrorWithPostInfo>(charged)
                &&& spec_final_event(s) matches Some(
                    Event::MultiSwapAssetFailedOnAtomicSwap { who: w, swap_pool_list: l, swap_assets_list: p, module_err: m },
                )
                &&& w == who && l@ == swap_pool_list && p@ == path && m == me
            }
            &&& spec_chain_result(who, pools, path, amount_in, spec_swap_records(s)) matches Some(Err(e)) ==> (
            !(e is Module) ==> {
                &&& r == Err::<PostDispatchInfo, DispatchErrorWithPostInfo>(
                    DispatchErrorWithPostInfo {
                        post_info: charged,
                        error: DispatchError::Module(ModuleError { index: pallet_index, error: [11, 0, 0, 0] }),
                    },
                )
                &&& spec_final_event(s) is None
            })
        }),
{
}

} // verus!
