//! The calls of the Market pallet.
//!
//! Each call runs in a storage layer of its own: a call that fails leaves
//! the runtime's state as it was. Its checks only read the state, and are
//! made before the layer is opened.

use vstd::prelude::*;

use crate::dispatch::{
    ensure_signed, AccountId, Balance, CurrencyId, DispatchError, DispatchErrorWithPostInfo, Origin,
    PostDispatchInfo,
};
use crate::effects::{
    added, extends, lemma_moves_with_push, lemma_moves_with_start, lemma_moves_with_then,
    ends_with_event, lemma_swap_chain_err_prefix, lemma_swap_chain_has_no_event, lemma_swap_chain_push,
    moves_with, spec_chain_result, spec_min_checked,
    spec_burn_effects, spec_create_pool_check, spec_create_pool_effects, spec_error,
    spec_fixed_amounts_check, spec_fixed_amounts_effects, spec_layer_available, spec_layered,
    spec_mint_effects, spec_mint_result, spec_multiswap_check, spec_multiswap_effects,
    spec_pool_call_check, spec_swap_call, spec_swap_chain, spec_vesting_amount_effects,
    spec_vesting_index_effects, spec_vesting_mint_check, unit_of,
};
use crate::market::{
    check_assets_allowed, get_pool_info, rec, ActivateKind, Config, Error, Outcome, PoolInfo,
    PoolKind, Record, Trace,
};
use crate::market_weights::WeightInfo;
use crate::plans::{
    check_burn_paid, check_lp_minted, check_min_out, deactivation_amount, fixed_amounts_input,
    multiswap_outcome, ordered_pair, spec_fixed_amounts_input,
};
use crate::route::{build_route, has_no_duplicates, lemma_validated_route_is_chain, AssetPair};

verus! {

/// The Market pallet over the runtime `T`.
pub struct Pallet<T>(core::marker::PhantomData<T>);

impl<T: Config> Pallet<T> {
    /// The error `e` of this pallet as a dispatch error.
    fn error(e: Error) -> (d: DispatchError)
        ensures
            d == spec_error::<T>(e),
    {
        e.into_dispatch_error(T::pallet_index())
    }

    /// Closes the storage layer that a call opened in the state `before`:
    /// keeps what the call did when `ok`, discards it otherwise.
    fn close_layer(runtime: &mut T, ok: bool, Ghost(before): Ghost<T>)
        requires
            old(runtime).spec_layers() == before.spec_layers().push(before.spec_trace().len()),
            extends(before.spec_trace(), old(runtime).spec_trace()),
        ensures
            final(runtime).spec_layers() == before.spec_layers(),
            final(runtime).spec_log() == old(runtime).spec_log(),
            final(runtime).spec_trace() == (if ok {
                old(runtime).spec_trace()
            } else {
                before.spec_trace()
            }),
    {
        proof {
            assert(old(runtime).spec_layers().drop_last() =~= before.spec_layers());
        }
        if ok {
            runtime.commit_transaction();
        } else {
            runtime.rollback_transaction();
            proof {
                assert(old(runtime).spec_trace().subrange(0, before.spec_trace().len() as int)
                    =~= before.spec_trace());
            }
        }
    }

    /// The checks shared by the calls on an existing pool.
    fn pool_call_check(runtime: &T, origin: Origin, pool_id: CurrencyId) -> (r: Result<
        (AccountId, PoolInfo),
        DispatchError,
    >)
        ensures
            r == spec_pool_call_check(*runtime, origin, pool_id),
    {
        let sender = match ensure_signed(origin) {
            Ok(who) => who,
            Err(e) => return Err(e),
        };
        let pool_info = match get_pool_info(runtime, pool_id) {
            Ok(info) => info,
            Err(e) => return Err(Self::error(e)),
        };
        match check_assets_allowed(runtime, pool_info.pool) {
            Ok(()) => Ok((sender, pool_info)),
            Err(e) => Err(Self::error(e)),
        }
    }

    /// The checks of `create_pool`; returns the sender and, for a StableSwap
    /// pool, the decimals of the two assets.
    fn create_pool_check(
        runtime: &T,
        origin: Origin,
        kind: PoolKind,
        first_asset_id: CurrencyId,
        second_asset_id: CurrencyId,
    ) -> (r: Result<(AccountId, Option<(u32, u32)>), DispatchError>)
        ensures
            r == spec_create_pool_check(*runtime, origin, kind, first_asset_id, second_asset_id),
    {
        let sender = match ensure_signed(origin) {
            Ok(who) => who,
            Err(e) => return Err(e),
        };
        if let Err(e) = check_assets_allowed(runtime, (first_asset_id, second_asset_id)) {
            return Err(Self::error(e));
        }
        if runtime.is_disallowed_pool((first_asset_id, second_asset_id)) {
            return Err(Self::error(Error::DisallowedPool));
        }
        match kind {
            PoolKind::Xyk => Ok((sender, None)),
            PoolKind::StableSwap => {
                let first_decimal = match runtime.asset_decimals(first_asset_id) {
                    Some(d) => d,
                    None => return Err(Self::error(Error::AssetDoesNotExists)),
                };
                let second_decimal = match runtime.asset_decimals(second_asset_id) {
                    Some(d) => d,
                    None => return Err(Self::error(Error::AssetDoesNotExists)),
                };
                Ok((sender, Some((first_decimal, second_decimal))))
            },
        }
    }

    /// Creates a liquidity pool and an associated new `lp_token` asset.
    pub fn create_pool(
        runtime: &mut T,
        origin: Origin,
        kind: PoolKind,
        first_asset_id: CurrencyId,
        first_asset_amount: Balance,
        second_asset_id: CurrencyId,
        second_asset_amount: Balance,
    ) -> (r: Result<(), DispatchError>)
        ensures
            spec_layered(*old(runtime), *final(runtime), r is Ok),
            if spec_layer_available(*old(runtime)) {
                match spec_create_pool_check(*old(runtime), origin, kind, first_asset_id, second_asset_id) {
                    Err(e) => r == Err::<(), DispatchError>(e) && final(runtime).spec_log() == old(
                        runtime,
                    ).spec_log(),
                    Ok((who, decimals)) => spec_create_pool_effects(
                        who,
                        kind,
                        first_asset_id,
                        first_asset_amount,
                        second_asset_id,
                        second_asset_amount,
                        decimals,
                        added(old(runtime).spec_log(), final(runtime).spec_log()),
                        r,
                    ),
                }
            } else {
                r == Err::<(), DispatchError>(DispatchError::Transactional) && final(runtime).spec_log()
                    == old(runtime).spec_log()
            },
    {
        let checked = Self::create_pool_check(runtime, origin, kind, first_asset_id, second_asset_id);
        let ghost before = *runtime;
        runtime.start_transaction()?;
        let r = match checked {
            Ok((sender, decimals)) => Self::do_create_pool(
                runtime,
                sender,
                kind,
                first_asset_id,
                first_asset_amount,
                second_asset_id,
                second_asset_amount,
                decimals,
            ),
            Err(e) => Err(e),
        };
        Self::close_layer(runtime, r.is_ok(), Ghost(before));
        r
    }

    /// The calls of `create_pool` once its checks have passed.
    fn do_create_pool(
        runtime: &mut T,
        sender: AccountId,
        kind: PoolKind,
        first_asset_id: CurrencyId,
        first_asset_amount: Balance,
        second_asset_id: CurrencyId,
        second_asset_amount: Balance,
        decimals: Option<(u32, u32)>,
    ) -> (r: Result<(), DispatchError>)
        requires
            kind is StableSwap ==> decimals is Some,
        ensures
            final(runtime).spec_layers() == old(runtime).spec_layers(),
            moves_with(old(runtime).spec_trace(), final(runtime).spec_trace(), old(runtime).spec_log(), final(runtime).spec_log()),
            spec_create_pool_effects(
                sender,
                kind,
                first_asset_id,
                first_asset_amount,
                second_asset_id,
                second_asset_amount,
                decimals,
                added(old(runtime).spec_log(), final(runtime).spec_log()),
                r,
            ),
    {
        let ghost t0 = runtime.spec_trace();
        let ghost l0 = runtime.spec_log();
        proof {
            lemma_moves_with_start(t0, l0);
        }
        match kind {
            PoolKind::Xyk => {
                let r = runtime.xyk_create_pool(
                    sender,
                    first_asset_id,
                    first_asset_amount,
                    second_asset_id,
                    second_asset_amount,
                );
                proof {
                    lemma_moves_with_push(t0, t0, l0, l0, runtime.spec_log().last());
                }
                r
            },
            PoolKind::StableSwap => {
                let (first_decimal, second_decimal) = decimals.unwrap();
                let created = runtime.stable_create_pool(
                    sender,
                    first_asset_id,
                    first_decimal,
                    second_asset_id,
                    second_decimal,
                );
                proof {
                    lemma_moves_with_push(t0, t0, l0, l0, runtime.spec_log().last());
                }
                let lp_token = match created {
                    Ok(lp_token) => lp_token,
                    Err(e) => return Err(e),
                };
                let ghost t1 = runtime.spec_trace();
                let ghost l1 = runtime.spec_log();
                let provided = runtime.stable_add_liquidity(
                    sender,
                    lp_token,
                    (first_asset_amount, second_asset_amount),
                    0,
                );
                proof {
                    lemma_moves_with_push(t0, t1, l0, l1, runtime.spec_log().last());
                }
                if let Err(e) = provided {
                    return Err(e);
                }
                let ghost t2 = runtime.spec_trace();
                let ghost l2 = runtime.spec_log();
                let r = runtime.create_pool_asset(lp_token, first_asset_id, second_asset_id);
                proof {
                    lemma_moves_with_push(t0, t2, l0, l2, runtime.spec_log().last());
                }
                r
            },
        }
    }

    /// Provide liquidity into the pool of `pool_id`, suitable for Xyk pools.
    /// An optimal amount of the other asset will be calculated on current rate,
    /// a maximum amount should be provided to limit possible rate slippage.
    /// For a StableSwap pool a rate of 1:1 is used.
    /// Liquidity tokens that represent this share of the pool will be sent to origin.
    pub fn mint_liquidity(
        runtime: &mut T,
        origin: Origin,
        pool_id: CurrencyId,
        asset_id: CurrencyId,
        asset_amount: Balance,
        max_other_asset_amount: Balance,
    ) -> (r: Result<(), DispatchError>)
        ensures
            spec_layered(*old(runtime), *final(runtime), r is Ok),
            if spec_layer_available(*old(runtime)) {
                match spec_pool_call_check(*old(runtime), origin, pool_id) {
                    Err(e) => r == Err::<(), DispatchError>(e) && final(runtime).spec_log() == old(
                        runtime,
                    ).spec_log(),
                    Ok((who, info)) => {
                        let s = added(old(runtime).spec_log(), final(runtime).spec_log());
                        &&& spec_mint_effects(
                            who,
                            info,
                            asset_id,
                            asset_amount,
                            max_other_asset_amount,
                            true,
                            old(runtime).spec_native_rewards_enabled(pool_id),
                            s,
                        )
                        &&& r == unit_of(spec_mint_result(info, s))
                    },
                }
            } else {
                r == Err::<(), DispatchError>(DispatchError::Transactional) && final(runtime).spec_log()
                    == old(runtime).spec_log()
            },
    {
        let checked = Self::pool_call_check(runtime, origin, pool_id);
        let ghost before = *runtime;
        runtime.start_transaction()?;
        let r = match checked {
            Ok((sender, pool_info)) => match Self::do_mint_liquidity(
                runtime,
                sender,
                pool_info,
                asset_id,
                asset_amount,
                max_other_asset_amount,
                true,
            ) {
                Ok(_) => Ok(()),
                Err(e) => Err(e),
            },
            Err(e) => Err(e),
        };
        Self::close_layer(runtime, r.is_ok(), Ghost(before));
        r
    }

    /// The checks of `mint_liquidity_fixed_amounts`.
    fn fixed_amounts_check(
        runtime: &T,
        origin: Origin,
        pool_id: CurrencyId,
        amounts: (Balance, Balance),
    ) -> (r: Result<(AccountId, PoolInfo), DispatchError>)
        ensures
            r == spec_fixed_amounts_check(*runtime, origin, pool_id, amounts),
    {
        let (sender, pool_info) = Self::pool_call_check(runtime, origin, pool_id)?;
        if pool_info.kind == PoolKind::Xyk {
            if let Err(e) = fixed_amounts_input(pool_info.pool, amounts) {
                return Err(Self::error(e));
            }
        }
        Ok((sender, pool_info))
    }

    /// Provide fixed liquidity into the pool of `pool_id`, suitable for StableSwap pools.
    /// For Xyk pools, if a single amount is defined, it will swap internally to to match current rate,
    /// setting both values results in error.
    /// Liquidity tokens that represent this share of the pool will be sent to origin.
    pub fn mint_liquidity_fixed_amounts(
        runtime: &mut T,
        origin: Origin,
        pool_id: CurrencyId,
        amounts: (Balance, Balance),
        min_amount_lp_tokens: Balance,
    ) -> (r: Result<(), DispatchError>)
        ensures
            spec_layered(*old(runtime), *final(runtime), r is Ok),
            if spec_layer_available(*old(runtime)) {
                match spec_fixed_amounts_check(*old(runtime), origin, pool_id, amounts) {
                    Err(e) => r == Err::<(), DispatchError>(e) && final(runtime).spec_log() == old(
                        runtime,
                    ).spec_log(),
                    Ok((who, info)) => spec_fixed_amounts_effects(
                        who,
                        info,
                        amounts,
                        min_amount_lp_tokens,
                        T::spec_pallet_index(),
                        added(old(runtime).spec_log(), final(runtime).spec_log()),
                        r,
                    ),
                }
            } else {
                r == Err::<(), DispatchError>(DispatchError::Transactional) && final(runtime).spec_log()
                    == old(runtime).spec_log()
            },
    {
        let checked = Self::fixed_amounts_check(runtime, origin, pool_id, amounts);
        let ghost before = *runtime;
        runtime.start_transaction()?;
        let r = match checked {
            Ok((sender, pool_info)) => Self::do_mint_fixed_amounts(
                runtime,
                sender,
                pool_info,
                amounts,
                min_amount_lp_tokens,
            ),
            Err(e) => Err(e),
        };
        Self::close_layer(runtime, r.is_ok(), Ghost(before));
        r
    }

    /// The calls of `mint_liquidity_fixed_amounts` once its checks have passed.
    fn do_mint_fixed_amounts(
        runtime: &mut T,
        sender: AccountId,
        pool_info: PoolInfo,
        amounts: (Balance, Balance),
        min_amount_lp_tokens: Balance,
    ) -> (r: Result<(), DispatchError>)
        requires
            pool_info.kind is Xyk ==> spec_fixed_amounts_input(pool_info.pool, amounts) is Ok,
        ensures
            final(runtime).spec_layers() == old(runtime).spec_layers(),
            moves_with(old(runtime).spec_trace(), final(runtime).spec_trace(), old(runtime).spec_log(), final(runtime).spec_log()),
            spec_fixed_amounts_effects(
                sender,
                pool_info,
                amounts,
                min_amount_lp_tokens,
                T::spec_pallet_index(),
                added(old(runtime).spec_log(), final(runtime).spec_log()),
                r,
            ),
    {
        let ghost t0 = runtime.spec_trace();
        let ghost l0 = runtime.spec_log();
        proof {
            lemma_moves_with_start(t0, l0);
        }
        match pool_info.kind {
            PoolKind::Xyk => {
                let (id, amount) = match fixed_amounts_input(pool_info.pool, amounts) {
                    Ok(input) => input,
                    Err(e) => return Err(Self::error(e)),
                };
                let provided = runtime.xyk_provide_liquidity_with_conversion(
                    sender,
                    pool_info.pool.0,
                    pool_info.pool.1,
                    id,
                    amount,
                    true,
                );
                proof {
                    lemma_moves_with_push(t0, t0, l0, l0, runtime.spec_log().last());
                }
                let (_, lp_amount) = provided?;
                match check_lp_minted(lp_amount, min_amount_lp_tokens) {
                    Ok(()) => Ok(()),
                    Err(e) => Err(Self::error(e)),
                }
            },
            PoolKind::StableSwap => {
                let provided = runtime.stable_add_liquidity(
                    sender,
                    pool_info.pool_id,
                    amounts,
                    min_amount_lp_tokens,
                );
                proof {
                    lemma_moves_with_push(t0, t0, l0, l0, runtime.spec_log().last());
                }
                let amount = provided?;
                let ghost t1 = runtime.spec_trace();
                let ghost l1 = runtime.spec_log();
                let r = runtime.activate_liquidity(
                    sender,
                    pool_info.pool_id,
                    amount,
                    Some(ActivateKind::AvailableBalance),
                );
                proof {
                    lemma_moves_with_push(t0, t1, l0, l1, runtime.spec_log().last());
                }
                r
            },
        }
    }

    /// The checks of a mint from vested native tokens.
    fn vesting_mint_check(runtime: &T, origin: Origin, pool_id: CurrencyId) -> (r: Result<
        (AccountId, PoolInfo, CurrencyId),
        DispatchError,
    >)
        ensures
            match (r, spec_vesting_mint_check(*runtime, origin, pool_id)) {
                (Ok((who, info, native_id)), Ok((swho, sinfo))) => who == swho && info == sinfo
                    && native_id == T::spec_native_currency_id(),
                (Err(e), Err(se)) => e == se,
                _ => false,
            },
    {
        let (sender, pool_info) = Self::pool_call_check(runtime, origin, pool_id)?;
        let native_id = T::native_currency_id();
        if !(native_id == pool_info.pool.0 || native_id == pool_info.pool.1) {
            return Err(Self::error(Error::NotPairedWithNativeAsset));
        }
        if !runtime.native_rewards_enabled(pool_id) {
            return Err(Self::error(Error::NotAPromotedPool));
        }
        Ok((sender, pool_info, native_id))
    }

    /// Provides liquidity from vested native asset. Tokens are added to pool and
    /// minted LP tokens are then vested instead.
    /// Only pools paired with native asset are allowed.
    pub fn mint_liquidity_using_vesting_native_tokens_by_vesting_index(
        runtime: &mut T,
        origin: Origin,
        pool_id: CurrencyId,
        native_asset_vesting_index: u32,
        vesting_native_asset_unlock_some_amount_or_all: Option<Balance>,
        max_other_asset_amount: Balance,
    ) -> (r: Result<(), DispatchError>)
        ensures
            spec_layered(*old(runtime), *final(runtime), r is Ok),
            if spec_layer_available(*old(runtime)) {
                match spec_vesting_mint_check(*old(runtime), origin, pool_id) {
                    Err(e) => r == Err::<(), DispatchError>(e) && final(runtime).spec_log() == old(
                        runtime,
                    ).spec_log(),
                    Ok((who, info)) => spec_vesting_index_effects(
                        who,
                        info,
                        T::spec_native_currency_id(),
                        native_asset_vesting_index,
                        vesting_native_asset_unlock_some_amount_or_all,
                        max_other_asset_amount,
                        added(old(runtime).spec_log(), final(runtime).spec_log()),
                        r,
                    ),
                }
            } else {
                r == Err::<(), DispatchError>(DispatchError::Transactional) && final(runtime).spec_log()
                    == old(runtime).spec_log()
            },
    {
        let checked = Self::vesting_mint_check(runtime, origin, pool_id);
        let ghost before = *runtime;
        runtime.start_transaction()?;
        let r = match checked {
            Ok((sender, pool_info, native_id)) => Self::do_mint_vested_by_index(
                runtime,
                sender,
                pool_info,
                native_id,
                native_asset_vesting_index,
                vesting_native_asset_unlock_some_amount_or_all,
                max_other_asset_amount,
            ),
            Err(e) => Err(e),
        };
        Self::close_layer(runtime, r.is_ok(), Ghost(before));
        r
    }

    /// The calls of `mint_liquidity_using_vesting_native_tokens_by_vesting_index`
    /// once its checks have passed.
    fn do_mint_vested_by_index(
        runtime: &mut T,
        sender: AccountId,
        pool_info: PoolInfo,
        native_id: CurrencyId,
        native_asset_vesting_index: u32,
        vesting_native_asset_unlock_some_amount_or_all: Option<Balance>,
        max_other_asset_amount: Balance,
    ) -> (r: Result<(), DispatchError>)
        ensures
            final(runtime).spec_layers() == old(runtime).spec_layers(),
            moves_with(old(runtime).spec_trace(), final(runtime).spec_trace(), old(runtime).spec_log(), final(runtime).spec_log()),
            spec_vesting_index_effects(
                sender,
                pool_info,
                native_id,
                native_asset_vesting_index,
                vesting_native_asset_unlock_some_amount_or_all,
                max_other_asset_amount,
                added(old(runtime).spec_log(), final(runtime).spec_log()),
                r,
            ),
    {
        let ghost t0 = runtime.spec_trace();
        let ghost l0 = runtime.spec_log();
        proof {
            lemma_moves_with_start(t0, l0);
        }
        let unlocked = runtime.unlock_tokens_by_vesting_index(
            sender,
            native_id,
            native_asset_vesting_index,
            vesting_native_asset_unlock_some_amount_or_all,
        );
        proof {
            lemma_moves_with_push(t0, t0, l0, l0, runtime.spec_log().last());
        }
        let (unlocked_amount, vesting_starting_block, vesting_ending_block_as_balance) = unlocked?;
        let ghost t1 = runtime.spec_trace();
        let ghost l1 = runtime.spec_log();
        let minted = Self::do_mint_liquidity(
            runtime,
            sender,
            pool_info,
            native_id,
            unlocked_amount,
            max_other_asset_amount,
            false,
        );
        let ghost t2 = runtime.spec_trace();
        let ghost l2 = runtime.spec_log();
        proof {
            lemma_moves_with_then(t0, t1, t2, l0, l1, l2);
            assert(added(l0, l2).skip(1) =~= added(l1, l2));
            assert(added(l0, l2).skip(1).take(1) =~= added(l1, l2));
        }
        let lp_amount = minted?;
        let r = runtime.lock_tokens(
            sender,
            pool_info.pool_id,
            lp_amount,
            Some(vesting_starting_block),
            vesting_ending_block_as_balance,
        );
        proof {
            lemma_moves_with_push(t0, t2, l0, l2, runtime.spec_log().last());
            assert(added(l0, runtime.spec_log()).skip(1).take(1) =~= added(l1, l2));
            assert(added(l0, runtime.spec_log()).skip(1) =~= added(l1, l2).push(runtime.spec_log().last()));
        }
        r
    }

    /// Provides liquidity from `native_asset_vesting_amount` of vested native
    /// asset. Tokens are added to pool and minted LP tokens are then vested instead.
    /// Only pools paired with native asset are allowed.
    pub fn mint_liquidity_using_vesting_native_tokens(
        runtime: &mut T,
        origin: Origin,
        pool_id: CurrencyId,
        native_asset_vesting_amount: Balance,
        max_other_asset_amount: Balance,
    ) -> (r: Result<(), DispatchError>)
        ensures
            spec_layered(*old(runtime), *final(runtime), r is Ok),
            if spec_layer_available(*old(runtime)) {
                match spec_vesting_mint_check(*old(runtime), origin, pool_id) {
                    Err(e) => r == Err::<(), DispatchError>(e) && final(runtime).spec_log() == old(
                        runtime,
                    ).spec_log(),
                    Ok((who, info)) => spec_vesting_amount_effects(
                        who,
                        info,
                        T::spec_native_currency_id(),
                        native_asset_vesting_amount,
                        max_other_asset_amount,
                        added(old(runtime).spec_log(), final(runtime).spec_log()),
                        r,
                    ),
                }
            } else {
                r == Err::<(), DispatchError>(DispatchError::Transactional) && final(runtime).spec_log()
                    == old(runtime).spec_log()
            },
    {
        let checked = Self::vesting_mint_check(runtime, origin, pool_id);
        let ghost before = *runtime;
        runtime.start_transaction()?;
        let r = match checked {
            Ok((sender, pool_info, native_id)) => Self::do_mint_vested(
                runtime,
                sender,
                pool_info,
                native_id,
                native_asset_vesting_amount,
                max_other_asset_amount,
            ),
            Err(e) => Err(e),
        };
        Self::close_layer(runtime, r.is_ok(), Ghost(before));
        r
    }

    /// The calls of `mint_liquidity_using_vesting_native_tokens` once its
    /// checks have passed.
    fn do_mint_vested(
        runtime: &mut T,
        sender: AccountId,
        pool_info: PoolInfo,
        native_id: CurrencyId,
        native_asset_vesting_amount: Balance,
        max_other_asset_amount: Balance,
    ) -> (r: Result<(), DispatchError>)
        ensures
            final(runtime).spec_layers() == old(runtime).spec_layers(),
            moves_with(old(runtime).spec_trace(), final(runtime).spec_trace(), old(runtime).spec_log(), final(runtime).spec_log()),
            spec_vesting_amount_effects(
                sender,
                pool_info,
                native_id,
                native_asset_vesting_amount,
                max_other_asset_amount,
                added(old(runtime).spec_log(), final(runtime).spec_log()),
                r,
            ),
    {
        let ghost t0 = runtime.spec_trace();
        let ghost l0 = runtime.spec_log();
        proof {
            lemma_moves_with_start(t0, l0);
        }
        let unlocked = runtime.unlock_tokens(sender, native_id, native_asset_vesting_amount);
        proof {
            lemma_moves_with_push(t0, t0, l0, l0, runtime.spec_log().last());
        }
        let (vesting_starting_block, vesting_ending_block_as_balance) = unlocked?;
        let ghost t1 = runtime.spec_trace();
        let ghost l1 = runtime.spec_log();
        let minted = Self::do_mint_liquidity(
            runtime,
            sender,
            pool_info,
            native_id,
            native_asset_vesting_amount,
            max_other_asset_amount,
            false,
        );
        let ghost t2 = runtime.spec_trace();
        let ghost l2 = runtime.spec_log();
        proof {
            lemma_moves_with_then(t0, t1, t2, l0, l1, l2);
            assert(added(l0, l2).skip(1) =~= added(l1, l2));
            assert(added(l0, l2).skip(1).take(1) =~= added(l1, l2));
        }
        let lp_amount = minted?;
        let r = runtime.lock_tokens(
            sender,
            pool_info.pool_id,
            lp_amount,
            Some(vesting_starting_block),
            vesting_ending_block_as_balance,
        );
        proof {
            lemma_moves_with_push(t0, t2, l0, l2, runtime.spec_log().last());
            assert(added(l0, runtime.spec_log()).skip(1).take(1) =~= added(l1, l2));
            assert(added(l0, runtime.spec_log()).skip(1) =~= added(l1, l2).push(runtime.spec_log().last()));
        }
        r
    }

    /// The checks of `burn_liquidity`; returns the sender, the pool and the
    /// sender's available balance of the pool's LP asset.
    fn burn_check(runtime: &T, origin: Origin, pool_id: CurrencyId) -> (r: Result<
        (AccountId, PoolInfo, Balance),
        DispatchError,
    >)
        ensures
            match (r, spec_pool_call_check(*runtime, origin, pool_id)) {
                (Ok((who, info, available)), Ok((swho, sinfo))) => who == swho && info == sinfo
                    && available == runtime.spec_available_balance(pool_id, who),
                (Err(e), Err(se)) => e == se,
                _ => false,
            },
    {
        let (sender, pool_info) = Self::pool_call_check(runtime, origin, pool_id)?;
        let available = runtime.available_balance(pool_id, sender);
        Ok((sender, pool_info, available))
    }

    /// Allows you to remove liquidity by providing the `lp_burn_amount` tokens that will be
    /// burned in the process. The usage of `min_first_asset_amount`/`min_second_asset_amount`
    /// controls the min amount of returned tokens.
    pub fn burn_liquidity(
        runtime: &mut T,
        origin: Origin,
        pool_id: CurrencyId,
        liquidity_burn_amount: Balance,
        min_first_asset_amount: Balance,
        min_second_asset_amount: Balance,
    ) -> (r: Result<(), DispatchError>)
        ensures
            spec_layered(*old(runtime), *final(runtime), r is Ok),
            if spec_layer_available(*old(runtime)) {
                match spec_pool_call_check(*old(runtime), origin, pool_id) {
                    Err(e) => r == Err::<(), DispatchError>(e) && final(runtime).spec_log() == old(
                        runtime,
                    ).spec_log(),
                    Ok((who, info)) => spec_burn_effects(
                        who,
                        info,
                        liquidity_burn_amount,
                        (min_first_asset_amount, min_second_asset_amount),
                        old(runtime).spec_available_balance(pool_id, who),
                        T::spec_pallet_index(),
                        added(old(runtime).spec_log(), final(runtime).spec_log()),
                        r,
                    ),
                }
            } else {
                r == Err::<(), DispatchError>(DispatchError::Transactional) && final(runtime).spec_log()
                    == old(runtime).spec_log()
            },
    {
        let checked = Self::burn_check(runtime, origin, pool_id);
        let ghost before = *runtime;
        runtime.start_transaction()?;
        let r = match checked {
            Ok((sender, pool_info, available)) => Self::do_burn_liquidity(
                runtime,
                sender,
                pool_info,
                liquidity_burn_amount,
                (min_first_asset_amount, min_second_asset_amount),
                available,
            ),
            Err(e) => Err(e),
        };
        Self::close_layer(runtime, r.is_ok(), Ghost(before));
        r
    }

    /// The calls of `burn_liquidity` once its checks have passed.
    fn do_burn_liquidity(
        runtime: &mut T,
        sender: AccountId,
        pool_info: PoolInfo,
        liquidity_burn_amount: Balance,
        min_amounts: (Balance, Balance),
        available: Balance,
    ) -> (r: Result<(), DispatchError>)
        ensures
            final(runtime).spec_layers() == old(runtime).spec_layers(),
            moves_with(old(runtime).spec_trace(), final(runtime).spec_trace(), old(runtime).spec_log(), final(runtime).spec_log()),
            spec_burn_effects(
                sender,
                pool_info,
                liquidity_burn_amount,
                min_amounts,
                available,
                T::spec_pallet_index(),
                added(old(runtime).spec_log(), final(runtime).spec_log()),
                r,
            ),
    {
        let ghost t0 = runtime.spec_trace();
        let ghost l0 = runtime.spec_log();
        proof {
            lemma_moves_with_start(t0, l0);
        }
        match pool_info.kind {
            PoolKind::Xyk => {
                let burnt = runtime.xyk_burn_liquidity(
                    sender,
                    pool_info.pool.0,
                    pool_info.pool.1,
                    liquidity_burn_amount,
                );
                proof {
                    lemma_moves_with_push(t0, t0, l0, l0, runtime.spec_log().last());
                }
                let paid = burnt?;
                match check_burn_paid(paid, min_amounts) {
                    Ok(()) => Ok(()),
                    Err(e) => Err(Self::error(e)),
                }
            },
            PoolKind::StableSwap => {
                // deactivate what the available balance does not cover
                let deactivate = deactivation_amount(liquidity_burn_amount, available);
                let deactivated = runtime.deactivate_liquidity(sender, pool_info.pool_id, deactivate);
                proof {
                    lemma_moves_with_push(t0, t0, l0, l0, runtime.spec_log().last());
                }
                deactivated?;
                let ghost t1 = runtime.spec_trace();
                let ghost l1 = runtime.spec_log();
                let removed = runtime.stable_remove_liquidity(
                    sender,
                    pool_info.pool_id,
                    liquidity_burn_amount,
                    min_amounts,
                );
                proof {
                    lemma_moves_with_push(t0, t1, l0, l1, runtime.spec_log().last());
                }
                match removed {
                    Ok(_) => Ok(()),
                    Err(e) => Err(e),
                }
            },
        }
    }

    /// The checks of `multiswap_asset` before any swap.
    fn multiswap_check(
        runtime: &T,
        origin: Origin,
        swap_pool_list: &Vec<CurrencyId>,
        asset_id_in: CurrencyId,
        asset_id_out: CurrencyId,
    ) -> (r: Result<(AccountId, Vec<PoolInfo>, Vec<AssetPair>), DispatchError>)
        ensures
            match (r, spec_multiswap_check(*runtime, origin, swap_pool_list@, asset_id_in, asset_id_out)) {
                (Ok((who, pools, path)), Ok((swho, spools, spath))) => who == swho && pools@ == spools
                    && path@ == spath,
                (Err(e), Err(se)) => e == se,
                _ => false,
            },
    {
        let sender = ensure_signed(origin)?;
        // ensure maintenance mode
        if runtime.is_maintenance() {
            return Err(Self::error(Error::TradingBlockedByMaintenanceMode));
        }
        // at least one swap
        if swap_pool_list.len() == 0 {
            return Err(Self::error(Error::NoSuchPool));
        }
        // check pools repetition
        if !has_no_duplicates(swap_pool_list) {
            return Err(Self::error(Error::MultiSwapSamePool));
        }
        let (pools, path) = match build_route(runtime, swap_pool_list, asset_id_in) {
            Ok(route) => route,
            Err(e) => return Err(Self::error(e)),
        };
        if !(path.len() > 0 && path[path.len() - 1].1 == asset_id_out) {
            return Err(Self::error(Error::MultiSwapPathInvalid));
        }
        Ok((sender, pools, path))
    }

    /// Executes a multiswap asset in a series of swap asset atomic swaps.
    ///
    /// Multiswaps must fee lock instead of paying transaction fees.
    ///
    /// First the multiswap is prevalidated, if it is successful then the extrinsic is accepted
    /// and the exchange commission will be charged upon execution on the **first** swap using **sold_asset_amount**.
    ///
    /// Upon failure of an atomic swap or bad slippage, all the atomic swaps are reverted and the exchange commission is charged.
    /// Upon such a failure, the extrinsic is marked "successful", but an event for the failure is emitted
    ///
    /// # Args:
    /// - `swap_pool_list` - The pools of the route of the atomic swaps, from the pool that takes the asset sold to the pool that gives the asset finally bought
    /// - `asset_id_in`: The id of the asset sold
    /// - `asset_amount_in`: The amount of the asset sold
    /// - `asset_id_out`: The id of the asset received
    /// - `min_amount_out` - The minimum amount of requested asset that must be bought in order to not fail on slippage. Slippage failures still charge exchange commission.
    pub fn multiswap_asset(
        runtime: &mut T,
        origin: Origin,
        swap_pool_list: Vec<CurrencyId>,
        asset_id_in: CurrencyId,
        asset_amount_in: Balance,
        asset_id_out: CurrencyId,
        min_amount_out: Balance,
    ) -> (r: Result<PostDispatchInfo, DispatchErrorWithPostInfo>)
        ensures
            final(runtime).spec_layers() == old(runtime).spec_layers(),
            extends(old(runtime).spec_log(), final(runtime).spec_log()),
            r is Err ==> final(runtime).spec_trace() == old(runtime).spec_trace(),
            if spec_layer_available(*old(runtime)) {
                match spec_multiswap_check(*old(runtime), origin, swap_pool_list@, asset_id_in, asset_id_out) {
                    Err(e) => r == Err::<PostDispatchInfo, DispatchErrorWithPostInfo>(
                        DispatchErrorWithPostInfo::spec_from_error(e),
                    ) && final(runtime).spec_log() == old(runtime).spec_log(),
                    Ok((who, pools, path)) => spec_multiswap_effects(
                        who,
                        swap_pool_list@,
                        pools,
                        path,
                        asset_amount_in,
                        min_amount_out,
                        T::spec_pallet_index(),
                        old(runtime).spec_layers().len(),
                        T::spec_max_layers(),
                        T::WeightInfo::spec_multiswap_asset(swap_pool_list@.len() as u32),
                        old(runtime).spec_trace(),
                        final(runtime).spec_trace(),
                        old(runtime).spec_log(),
                        final(runtime).spec_log(),
                        r,
                    ),
                }
            } else {
                r == Err::<PostDispatchInfo, DispatchErrorWithPostInfo>(
                    DispatchErrorWithPostInfo::spec_from_error(DispatchError::Transactional),
                ) && final(runtime).spec_log() == old(runtime).spec_log()
            },
    {
        let checked = Self::multiswap_check(runtime, origin, &swap_pool_list, asset_id_in, asset_id_out);
        let ghost before = *runtime;
        if let Err(e) = runtime.start_transaction() {
            return Err(DispatchErrorWithPostInfo::from_error(e));
        }
        let (sender, pools, path) = match checked {
            Ok(route) => route,
            Err(e) => {
                Self::close_layer(runtime, false, Ghost(before));
                return Err(DispatchErrorWithPostInfo::from_error(e));
            },
        };
        proof {
            lemma_validated_route_is_chain(before, swap_pool_list@, asset_id_in, asset_id_out);
        }
        let ghost t0 = runtime.spec_trace();
        let ghost l0 = runtime.spec_log();
        // atomic swaps, reverted on error
        let (swaps, Ghost(swap_records)) = Self::do_swaps_in_layer(
            runtime,
            sender,
            &pools,
            &path,
            asset_amount_in,
            min_amount_out,
        );
        let ghost t1 = runtime.spec_trace();
        let ghost l1 = runtime.spec_log();
        proof {
            assert(added(l0, l1) =~= swap_records);
        }

        #[verifier::truncate]
        let n = swap_pool_list.len() as u32;
        let failure_weight = T::WeightInfo::multiswap_asset(n);
        let ghost route = path@;
        let (event, result) = multiswap_outcome(
            sender,
            &swap_pool_list,
            path,
            asset_amount_in,
            swaps,
            T::pallet_index(),
            failure_weight,
        );
        let ghost ev = event;
        if let Some(event) = event {
            runtime.deposit_event(event);
        }
        proof {
            let s = added(l0, runtime.spec_log());
            if ev is Some {
                assert(s =~= swap_records.push(runtime.spec_log().last()));
                assert(s.drop_last() =~= swap_records);
                assert(added(t1, runtime.spec_trace()) =~= seq![s.last()]);
            } else {
                assert(s =~= swap_records);
            }
            if swaps is Ok {
                assert(runtime.spec_trace() =~= t0 + s);
            }
        }
        Self::close_layer(runtime, result.is_ok(), Ghost(before));
        result
    }

    /// Makes the swaps of a multiswap in a storage layer of their own, which
    /// is kept when they succeed and discarded when they fail; the ghost part
    /// holds the records of the swaps.
    fn do_swaps_in_layer(
        runtime: &mut T,
        sender: AccountId,
        pools: &Vec<PoolInfo>,
        swaps: &Vec<AssetPair>,
        amount_in: Balance,
        min_amount_out: Balance,
    ) -> (r: (Result<Balance, DispatchError>, Ghost<Trace>))
        requires
            pools.len() == swaps.len(),
        ensures
            final(runtime).spec_layers() == old(runtime).spec_layers(),
            final(runtime).spec_log() == old(runtime).spec_log() + r.1@,
            final(runtime).spec_trace() == (if r.0 is Ok {
                old(runtime).spec_trace() + r.1@
            } else {
                old(runtime).spec_trace()
            }),
            !ends_with_event(r.1@),
            if spec_layer_available(*old(runtime)) {
                &&& spec_chain_result(sender, pools@, swaps@, amount_in, r.1@) is Some
                &&& r.0 == spec_min_checked(
                    spec_chain_result(sender, pools@, swaps@, amount_in, r.1@)->Some_0,
                    min_amount_out,
                    T::spec_pallet_index(),
                )
            } else {
                r.1@.len() == 0 && r.0 == Err::<Balance, DispatchError>(DispatchError::Transactional)
            },
    {
        let ghost t0 = runtime.spec_trace();
        let ghost l0 = runtime.spec_log();
        let ghost layers0 = runtime.spec_layers();
        if let Err(e) = runtime.start_transaction() {
            proof {
                assert(l0 + Seq::<Record>::empty() =~= l0);
            }
            return (Err(e), Ghost(Seq::empty()));
        }
        let (res, Ghost(done)) = Self::do_swaps(runtime, sender, pools, swaps, amount_in, min_amount_out);
        proof {
            lemma_swap_chain_has_no_event(sender, pools@, swaps@, amount_in, done.0);
            assert(runtime.spec_layers().drop_last() =~= layers0);
        }
        if res.is_ok() {
            runtime.commit_transaction();
        } else {
            runtime.rollback_transaction();
            proof {
                assert((t0 + done.0).subrange(0, t0.len() as int) =~= t0);
            }
        }
        (res, Ghost(done.0))
    }

    /// Mints liquidity from `amount` of `asset_id` into the pool `pool_info`;
    /// returns the LP amount minted.
    fn do_mint_liquidity(
        runtime: &mut T,
        sender: AccountId,
        pool_info: PoolInfo,
        asset_id: CurrencyId,
        amount: Balance,
        max_amount: Balance,
        activate: bool,
    ) -> (r: Result<Balance, DispatchError>)
        ensures
            final(runtime).spec_layers() == old(runtime).spec_layers(),
            moves_with(old(runtime).spec_trace(), final(runtime).spec_trace(), old(runtime).spec_log(), final(runtime).spec_log()),
            spec_mint_effects(
                sender,
                pool_info,
                asset_id,
                amount,
                max_amount,
                activate,
                old(runtime).spec_native_rewards_enabled(pool_info.pool_id),
                added(old(runtime).spec_log(), final(runtime).spec_log()),
            ),
            r == spec_mint_result(pool_info, added(old(runtime).spec_log(), final(runtime).spec_log())),
    {
        let ghost t0 = runtime.spec_trace();
        let ghost l0 = runtime.spec_log();
        proof {
            lemma_moves_with_start(t0, l0);
        }
        let (asset_with_amount, asset_other) = ordered_pair(pool_info.pool, asset_id);
        match pool_info.kind {
            PoolKind::Xyk => {
                let minted = runtime.xyk_mint_liquidity(
                    sender,
                    asset_with_amount,
                    asset_other,
                    amount,
                    max_amount,
                    activate,
                );
                proof {
                    lemma_moves_with_push(t0, t0, l0, l0, runtime.spec_log().last());
                }
                let (_, lp_amount) = minted?;
                Ok(lp_amount)
            },
            PoolKind::StableSwap => {
                // use 1:1 rate for amounts
                let minted = runtime.stable_add_liquidity(sender, pool_info.pool_id, (amount, amount), 0);
                proof {
                    lemma_moves_with_push(t0, t0, l0, l0, runtime.spec_log().last());
                }
                let lp_amount = minted?;
                if activate && runtime.native_rewards_enabled(pool_info.pool_id) {
                    let ghost t1 = runtime.spec_trace();
                    let ghost l1 = runtime.spec_log();
                    let activated = runtime.activate_liquidity(
                        sender,
                        pool_info.pool_id,
                        lp_amount,
                        Some(ActivateKind::AvailableBalance),
                    );
                    proof {
                        lemma_moves_with_push(t0, t1, l0, l1, runtime.spec_log().last());
                    }
                    activated?;
                }
                Ok(lp_amount)
            },
        }
    }

    /// Makes the swaps `swaps` on the pools `pools`, each selling what the
    /// previous one bought, and returns the amount finally bought, which must
    /// reach `min_amount_out`; the ghost part holds the records of the swaps
    /// and their own result.
    fn do_swaps(
        runtime: &mut T,
        sender: AccountId,
        pools: &Vec<PoolInfo>,
        swaps: &Vec<AssetPair>,
        amount_in: Balance,
        min_amount_out: Balance,
    ) -> (r: (Result<Balance, DispatchError>, Ghost<(Trace, Result<Balance, DispatchError>)>))
        requires
            pools.len() == swaps.len(),
        ensures
            final(runtime).spec_layers() == old(runtime).spec_layers(),
            final(runtime).spec_trace() == old(runtime).spec_trace() + r.1@.0,
            final(runtime).spec_log() == old(runtime).spec_log() + r.1@.0,
            spec_swap_chain(sender, pools@, swaps@, amount_in, r.1@.0, r.1@.1),
            r.0 == match r.1@.1 {
                Ok(amount_out) => if amount_out >= min_amount_out {
                    Ok::<Balance, DispatchError>(amount_out)
                } else {
                    Err::<Balance, DispatchError>(spec_error::<T>(Error::InsufficientOutputAmount))
                },
                Err(e) => Err::<Balance, DispatchError>(e),
            },
    {
        let ghost t0 = runtime.spec_trace();
        let ghost l0 = runtime.spec_log();
        let ghost mut recs: Trace = Seq::empty();
        let mut amount_out = amount_in;
        let n = pools.len();
        let mut i: usize = 0;
        proof {
            assert(pools@.take(0) =~= Seq::<PoolInfo>::empty());
            assert(swaps@.take(0) =~= Seq::<AssetPair>::empty());
            assert(t0 + recs =~= t0);
            assert(l0 + recs =~= l0);
        }
        while i < n
            invariant
                n == pools.len(),
                n == swaps.len(),
                i <= n,
                runtime.spec_layers() == old(runtime).spec_layers(),
                t0 == old(runtime).spec_trace(),
                l0 == old(runtime).spec_log(),
                runtime.spec_trace() == t0 + recs,
                runtime.spec_log() == l0 + recs,
                spec_swap_chain(sender, pools@.take(i as int), swaps@.take(i as int), amount_in, recs, Ok(amount_out)),
            decreases n - i,
        {
            let pool = pools[i];
            let swap = swaps[i];
            let res = match pool.kind {
                PoolKind::StableSwap => runtime.stable_swap(sender, pool.pool_id, swap.0, swap.1, amount_out, 0),
                PoolKind::Xyk => runtime.xyk_sell_asset(sender, swap.0, swap.1, amount_out, 0, true),
            };
            let ghost r = rec(spec_swap_call(sender, pool, swap, amount_out), Outcome::Amount(res));
            proof {
                lemma_swap_chain_push(
                    sender,
                    pools@.take(i as int),
                    swaps@.take(i as int),
                    amount_in,
                    recs,
                    amount_out,
                    pool,
                    swap,
                    r,
                );
                assert(pools@.take(i as int).push(pool) =~= pools@.take(i + 1));
                assert(swaps@.take(i as int).push(swap) =~= swaps@.take(i + 1));
                assert(runtime.spec_trace() =~= t0 + recs.push(r));
                assert(runtime.spec_log() =~= l0 + recs.push(r));
                recs = recs.push(r);
            }
            match res {
                Ok(out) => amount_out = out,
                Err(e) => {
                    proof {
                        lemma_swap_chain_err_prefix(sender, pools@, swaps@, amount_in, recs, e, i + 1);
                    }
                    return (Err(e), Ghost((recs, Err(e))));
                },
            }
            i = i + 1;
        }
        proof {
            assert(pools@.take(n as int) =~= pools@);
            assert(swaps@.take(n as int) =~= swaps@);
        }
        let checked = match check_min_out(amount_out, min_amount_out) {
            Ok(out) => Ok(out),
            Err(e) => Err(Self::error(e)),
        };
        (checked, Ghost((recs, Ok(amount_out))))
    }
}

} // verus!
