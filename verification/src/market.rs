//! Types of the Market pallet and the services that the runtime provides to it.

use vstd::prelude::*;

use crate::dispatch::{AccountId, Balance, BlockNumber, CurrencyId, DispatchError, ModuleError};
use crate::market_weights::WeightInfo;

verus! {

/// The invariant that a pool keeps.
#[derive(Clone, Copy, Debug, PartialEq, Eq, Structural)]
pub enum PoolKind {
    /// Classic XYK invariant
    Xyk,
    /// StableSwap
    StableSwap,
}

/// A pool known to the market: its LP asset, its kind and its pair of assets.
#[derive(Clone, Copy, Debug, PartialEq, Eq)]
pub struct PoolInfo {
    pub pool_id: CurrencyId,
    pub kind: PoolKind,
    pub pool: (CurrencyId, CurrencyId),
}

/// How reserved liquidity is activated for rewards.
#[derive(Clone, Copy, Debug, PartialEq, Eq, Structural)]
pub enum ActivateKind {
    AvailableBalance,
    StakedUnactivatedReserves,
    UnspentReserves,
}

/// Errors of the Market pallet.
#[derive(Clone, Copy, Debug, PartialEq, Eq, Structural)]
pub enum Error {
    /// No such pool exists
    NoSuchPool,
    /// Asset id is not allowed
    FunctionNotAvailableForThisToken,
    /// Asset ids are not allowed to create a pool
    DisallowedPool,
    /// Insufficient output amount does not meet min requirements
    InsufficientOutputAmount,
    /// Pool is not paired with native currency id
    NotPairedWithNativeAsset,
    /// Not a promoted pool
    NotAPromotedPool,
    /// Asset does not exists
    AssetDoesNotExists,
    /// Operation not available for such pool type
    FunctionNotAvailableForThisPoolKind,
    /// Trading blocked by maintenance mode
    TradingBlockedByMaintenanceMode,
    /// Multi swap path contains repetive pools
    MultiSwapSamePool,
    /// Input asset id is not connected with output asset id for given pools
    MultiSwapPathInvalid,
    /// Unexpected failure
    UnexpectedFailure,
}

/// Position of an error among the variants of `Error`, as it is encoded.
pub open spec fn spec_error_code(e: Error) -> u8 {
    match e {
        Error::NoSuchPool => 0,
        Error::FunctionNotAvailableForThisToken => 1,
        Error::DisallowedPool => 2,
        Error::InsufficientOutputAmount => 3,
        Error::NotPairedWithNativeAsset => 4,
        Error::NotAPromotedPool => 5,
        Error::AssetDoesNotExists => 6,
        Error::FunctionNotAvailableForThisPoolKind => 7,
        Error::TradingBlockedByMaintenanceMode => 8,
        Error::MultiSwapSamePool => 9,
        Error::MultiSwapPathInvalid => 10,
        Error::UnexpectedFailure => 11,
    }
}

/// The dispatch error that reports `e` from the pallet at `pallet_index`.
pub open spec fn spec_module_error(e: Error, pallet_index: u8) -> DispatchError {
    DispatchError::Module(ModuleError { index: pallet_index, error: [spec_error_code(e), 0, 0, 0] })
}

impl Error {
    /// Position of this error among the variants, as it is encoded.
    pub fn code(&self) -> (c: u8)
        ensures
            c == spec_error_code(*self),
    {
        match self {
            Error::NoSuchPool => 0,
            Error::FunctionNotAvailableForThisToken => 1,
            Error::DisallowedPool => 2,
            Error::InsufficientOutputAmount => 3,
            Error::NotPairedWithNativeAsset => 4,
            Error::NotAPromotedPool => 5,
            Error::AssetDoesNotExists => 6,
            Error::FunctionNotAvailableForThisPoolKind => 7,
            Error::TradingBlockedByMaintenanceMode => 8,
            Error::MultiSwapSamePool => 9,
            Error::MultiSwapPathInvalid => 10,
            Error::UnexpectedFailure => 11,
        }
    }

    /// The dispatch error that reports this error from the pallet at `pallet_index`.
    pub fn into_dispatch_error(self, pallet_index: u8) -> (d: DispatchError)
        ensures
            d == spec_module_error(self, pallet_index),
    {
        DispatchError::Module(ModuleError { index: pallet_index, error: [self.code(), 0, 0, 0] })
    }
}

/// Two different errors of the pallet are reported as different dispatch errors.
pub proof fn lemma_module_error_injective(e1: Error, e2: Error, pallet_index: u8)
    requires
        e1 != e2,
    ensures
        spec_module_error(e1, pallet_index) != spec_module_error(e2, pallet_index),
{
    let a = [spec_error_code(e1), 0u8, 0u8, 0u8];
    let b = [spec_error_code(e2), 0u8, 0u8, 0u8];
    assert(a@[0] != b@[0]);
}

/// Events of the Market pallet.
#[derive(Clone, Debug, PartialEq, Eq)]
pub enum Event {
    /// Atomic swap failed
    MultiSwapAssetFailedOnAtomicSwap {
        who: AccountId,
        swap_pool_list: Vec<CurrencyId>,
        swap_assets_list: Vec<(CurrencyId, CurrencyId)>,
        module_err: ModuleError,
    },
    /// Assets where swapped successfully
    AssetsSwapped {
        who: AccountId,
        swap_pool_list: Vec<CurrencyId>,
        swap_assets_list: Vec<(CurrencyId, CurrencyId)>,
        amount_in: Balance,
        amount_out: Balance,
    },
}

/// A state-changing call that the pallet makes on the runtime, with its arguments.
pub enum RuntimeCall {
    XykCreatePool {
        sender: AccountId,
        first_asset_id: CurrencyId,
        first_asset_amount: Balance,
        second_asset_id: CurrencyId,
        second_asset_amount: Balance,
    },
    XykMintLiquidity {
        sender: AccountId,
        asset_with_amount: CurrencyId,
        asset_other: CurrencyId,
        amount: Balance,
        max_amount: Balance,
        activate: bool,
    },
    XykProvideLiquidityWithConversion {
        sender: AccountId,
        first_asset_id: CurrencyId,
        second_asset_id: CurrencyId,
        provided_asset_id: CurrencyId,
        provided_asset_amount: Balance,
        activate: bool,
    },
    XykBurnLiquidity {
        sender: AccountId,
        first_asset_id: CurrencyId,
        second_asset_id: CurrencyId,
        liquidity_asset_amount: Balance,
    },
    XykSellAsset {
        sender: AccountId,
        sold_asset_id: CurrencyId,
        bought_asset_id: CurrencyId,
        sold_asset_amount: Balance,
        min_amount_out: Balance,
        err_upon_bad_slippage: bool,
    },
    StableCreatePool {
        sender: AccountId,
        first_asset_id: CurrencyId,
        first_asset_decimals: u32,
        second_asset_id: CurrencyId,
        second_asset_decimals: u32,
    },
    StableAddLiquidity {
        sender: AccountId,
        pool_id: CurrencyId,
        amounts: (Balance, Balance),
        min_amount_lp_tokens: Balance,
    },
    StableRemoveLiquidity {
        sender: AccountId,
        pool_id: CurrencyId,
        burn_amount: Balance,
        min_amounts: (Balance, Balance),
    },
    StableSwap {
        sender: AccountId,
        pool_id: CurrencyId,
        asset_in: CurrencyId,
        asset_out: CurrencyId,
        amount_in: Balance,
        min_amount_out: Balance,
    },
    CreatePoolAsset {
        lp_token: CurrencyId,
        first_asset_id: CurrencyId,
        second_asset_id: CurrencyId,
    },
    ActivateLiquidity {
        sender: AccountId,
        pool_id: CurrencyId,
        amount: Balance,
        use_balance_from: Option<ActivateKind>,
    },
    DeactivateLiquidity {
        sender: AccountId,
        pool_id: CurrencyId,
        amount: Balance,
    },
    UnlockTokensByVestingIndex {
        sender: AccountId,
        token_id: CurrencyId,
        vesting_index: u32,
        unlock_some_amount_or_all: Option<Balance>,
    },
    UnlockTokens {
        sender: AccountId,
        token_id: CurrencyId,
        unlock_amount: Balance,
    },
    LockTokens {
        sender: AccountId,
        token_id: CurrencyId,
        lock_amount: Balance,
        starting_block: Option<BlockNumber>,
        ending_block_as_balance: Balance,
    },
    DepositEvent { event: Event },
}

/// What a state-changing call of the runtime returned.
pub enum Outcome {
    Done(Result<(), DispatchError>),
    Amount(Result<Balance, DispatchError>),
    Amounts(Result<(Balance, Balance), DispatchError>),
    Asset(Result<CurrencyId, DispatchError>),
    Unlocked(Result<(Balance, BlockNumber, Balance), DispatchError>),
    Schedule(Result<(BlockNumber, Balance), DispatchError>),
    Nothing,
}

/// A call made on the runtime and what it returned.
pub struct Record {
    pub call: RuntimeCall,
    pub outcome: Outcome,
}

/// The record of `call` with the result `outcome`.
pub open spec fn rec(call: RuntimeCall, outcome: Outcome) -> Record {
    Record { call, outcome }
}

/// The calls that stand in the runtime's state, in the order they were made.
pub type Trace = Seq<Record>;

/// For each open storage layer, the length of the trace when it was opened.
pub type Layers = Seq<nat>;

/// The services that the runtime provides to the Market pallet.
///
/// `pallet_index` and `native_currency_id` are constants of the runtime; the
/// reads of chain state (`is_disabled_token` to `available_balance`) are
/// functions of that state. Each returns the value of its `spec_` function.
///
/// Each state-changing call adds to the trace and to the log a record of
/// itself, its arguments and its result, and leaves the storage layers as
/// they were; what it returns is decided by the runtime. A storage layer can
/// be opened while fewer than `spec_max_layers()` are open. A rollback
/// removes from the trace, not from the log, what was added since its layer
/// was opened. Neither opening a layer nor adding liquidity to a StableSwap
/// pool changes which pools are promoted for native rewards.
pub trait Config {
    /// Weight functions of the pallet.
    type WeightInfo: WeightInfo;

    /// Index of the Market pallet in the runtime (a constant of the runtime).
    spec fn spec_pallet_index() -> u8;
    /// Id of the native currency (a constant of the runtime).
    spec fn spec_native_currency_id() -> CurrencyId;
    /// Whether a token may not be used at all.
    spec fn spec_is_disabled_token(&self, id: CurrencyId) -> bool;
    /// Whether a pair of assets may not form a pool.
    spec fn spec_is_disallowed_pool(&self, pair: (CurrencyId, CurrencyId)) -> bool;
    /// The pair of assets of the Xyk pool `pool_id`, if there is one.
    spec fn spec_xyk_pool(&self, pool_id: CurrencyId) -> Option<(CurrencyId, CurrencyId)>;
    /// The pair of assets of the StableSwap pool `pool_id`, if there is one.
    spec fn spec_stable_pool(&self, pool_id: CurrencyId) -> Option<(CurrencyId, CurrencyId)>;
    /// Decimals of an asset in the asset registry, if it is registered.
    spec fn spec_asset_decimals(&self, id: CurrencyId) -> Option<u32>;
    /// Whether the pool `pool_id` is promoted for native rewards.
    spec fn spec_native_rewards_enabled(&self, pool_id: CurrencyId) -> bool;
    /// Whether the chain is in maintenance mode.
    spec fn spec_is_maintenance(&self) -> bool;
    /// Balance of `currency` that `who` can freely use.
    spec fn spec_available_balance(&self, currency: CurrencyId, who: AccountId) -> Balance;
    /// The state-changing calls whose changes stand in the runtime's state.
    spec fn spec_trace(&self) -> Trace;
    /// All the state-changing calls made on the runtime, kept or rolled back.
    spec fn spec_log(&self) -> Trace;
    /// The open storage layers.
    spec fn spec_layers(&self) -> Layers;
    /// How many storage layers can be open at once (a constant of the runtime).
    spec fn spec_max_layers() -> u32;

    fn pallet_index() -> (r: u8)
        ensures
            r == Self::spec_pallet_index(),
    ;

    fn native_currency_id() -> (r: CurrencyId)
        ensures
            r == Self::spec_native_currency_id(),
    ;

    fn is_disabled_token(&self, id: CurrencyId) -> (r: bool)
        ensures
            r == self.spec_is_disabled_token(id),
    ;

    fn is_disallowed_pool(&self, pair: (CurrencyId, CurrencyId)) -> (r: bool)
        ensures
            r == self.spec_is_disallowed_pool(pair),
    ;

    fn xyk_pool(&self, pool_id: CurrencyId) -> (r: Option<(CurrencyId, CurrencyId)>)
        ensures
            r == self.spec_xyk_pool(pool_id),
    ;

    fn stable_pool(&self, pool_id: CurrencyId) -> (r: Option<(CurrencyId, CurrencyId)>)
        ensures
            r == self.spec_stable_pool(pool_id),
    ;

    fn asset_decimals(&self, id: CurrencyId) -> (r: Option<u32>)
        ensures
            r == self.spec_asset_decimals(id),
    ;

    fn native_rewards_enabled(&self, pool_id: CurrencyId) -> (r: bool)
        ensures
            r == self.spec_native_rewards_enabled(pool_id),
    ;

    fn is_maintenance(&self) -> (r: bool)
        ensures
            r == self.spec_is_maintenance(),
    ;

    fn available_balance(&self, currency: CurrencyId, who: AccountId) -> (r: Balance)
        ensures
            r == self.spec_available_balance(currency, who),
    ;

    /// Creates an Xyk pool of the two assets, funded by `sender`.
    fn xyk_create_pool(
        &mut self,
        sender: AccountId,
        first_asset_id: CurrencyId,
        first_asset_amount: Balance,
        second_asset_id: CurrencyId,
        second_asset_amount: Balance,
    ) -> (r: Result<(), DispatchError>)
        ensures
            final(self).spec_trace() == old(self).spec_trace().push(
                rec((RuntimeCall::XykCreatePool { sender, first_asset_id, first_asset_amount, second_asset_id, second_asset_amount }), Outcome::Done(r)),
            ),
            final(self).spec_log() == old(self).spec_log().push(
                rec((RuntimeCall::XykCreatePool { sender, first_asset_id, first_asset_amount, second_asset_id, second_asset_amount }), Outcome::Done(r)),
            ),
            final(self).spec_layers() == old(self).spec_layers(),
    ;

    /// Adds `amount` of `asset_with_amount` and at most `max_amount` of the
    /// other asset to an Xyk pool; returns the other amount and the LP amount.
    fn xyk_mint_liquidity(
        &mut self,
        sender: AccountId,
        asset_with_amount: CurrencyId,
        asset_other: CurrencyId,
        amount: Balance,
        max_amount: Balance,
        activate: bool,
    ) -> (r: Result<(Balance, Balance), DispatchError>)
        ensures
            final(self).spec_trace() == old(self).spec_trace().push(
                rec((RuntimeCall::XykMintLiquidity { sender, asset_with_amount, asset_other, amount, max_amount, activate }), Outcome::Amounts(r)),
            ),
            final(self).spec_log() == old(self).spec_log().push(
                rec((RuntimeCall::XykMintLiquidity { sender, asset_with_amount, asset_other, amount, max_amount, activate }), Outcome::Amounts(r)),
            ),
            final(self).spec_layers() == old(self).spec_layers(),
    ;

    /// Adds `provided_asset_amount` of `provided_asset_id` to the Xyk pool of the
    /// pair, swapping part of it to match the rate; returns the other amount and the LP amount.
    fn xyk_provide_liquidity_with_conversion(
        &mut self,
        sender: AccountId,
        first_asset_id: CurrencyId,
        second_asset_id: CurrencyId,
        provided_asset_id: CurrencyId,
        provided_asset_amount: Balance,
        activate: bool,
    ) -> (r: Result<(Balance, Balance), DispatchError>)
        ensures
            final(self).spec_trace() == old(self).spec_trace().push(
                rec((RuntimeCall::XykProvideLiquidityWithConversion { sender, first_asset_id, second_asset_id, provided_asset_id, provided_asset_amount, activate }), Outcome::Amounts(r)),
            ),
            final(self).spec_log() == old(self).spec_log().push(
                rec((RuntimeCall::XykProvideLiquidityWithConversion { sender, first_asset_id, second_asset_id, provided_asset_id, provided_asset_amount, activate }), Outcome::Amounts(r)),
            ),
            final(self).spec_layers() == old(self).spec_layers(),
    ;

    /// Burns `liquidity_asset_amount` LP tokens of the Xyk pool of the pair;
    /// returns the amounts of the two assets paid out.
    fn xyk_burn_liquidity(
        &mut self,
        sender: AccountId,
        first_asset_id: CurrencyId,
        second_asset_id: CurrencyId,
        liquidity_asset_amount: Balance,
    ) -> (r: Result<(Balance, Balance), DispatchError>)
        ensures
            final(self).spec_trace() == old(self).spec_trace().push(
                rec((RuntimeCall::XykBurnLiquidity { sender, first_asset_id, second_asset_id, liquidity_asset_amount }), Outcome::Amounts(r)),
            ),
            final(self).spec_log() == old(self).spec_log().push(
                rec((RuntimeCall::XykBurnLiquidity { sender, first_asset_id, second_asset_id, liquidity_asset_amount }), Outcome::Amounts(r)),
            ),
            final(self).spec_layers() == old(self).spec_layers(),
    ;

    /// Sells `sold_asset_amount` of `sold_asset_id` on the Xyk pool of the
    /// pair; returns the amount bought.
    fn xyk_sell_asset(
        &mut self,
        sender: AccountId,
        sold_asset_id: CurrencyId,
        bought_asset_id: CurrencyId,
        sold_asset_amount: Balance,
        min_amount_out: Balance,
        err_upon_bad_slippage: bool,
    ) -> (r: Result<Balance, DispatchError>)
        ensures
            final(self).spec_trace() == old(self).spec_trace().push(
                rec((RuntimeCall::XykSellAsset { sender, sold_asset_id, bought_asset_id, sold_asset_amount, min_amount_out, err_upon_bad_slippage }), Outcome::Amount(r)),
            ),
            final(self).spec_log() == old(self).spec_log().push(
                rec((RuntimeCall::XykSellAsset { sender, sold_asset_id, bought_asset_id, sold_asset_amount, min_amount_out, err_upon_bad_slippage }), Outcome::Amount(r)),
            ),
            final(self).spec_layers() == old(self).spec_layers(),
    ;

    /// Creates a StableSwap pool of the two assets; returns its LP asset.
    fn stable_create_pool(
        &mut self,
        sender: AccountId,
        first_asset_id: CurrencyId,
        first_asset_decimals: u32,
        second_asset_id: CurrencyId,
        second_asset_decimals: u32,
    ) -> (r: Result<CurrencyId, DispatchError>)
        ensures
            final(self).spec_trace() == old(self).spec_trace().push(
                rec((RuntimeCall::StableCreatePool { sender, first_asset_id, first_asset_decimals, second_asset_id, second_asset_decimals }), Outcome::Asset(r)),
            ),
            final(self).spec_log() == old(self).spec_log().push(
                rec((RuntimeCall::StableCreatePool { sender, first_asset_id, first_asset_decimals, second_asset_id, second_asset_decimals }), Outcome::Asset(r)),
            ),
            final(self).spec_layers() == old(self).spec_layers(),
    ;

    /// Adds the two amounts to a StableSwap pool; returns the LP amount minted.
    fn stable_add_liquidity(
        &mut self,
        sender: AccountId,
        pool_id: CurrencyId,
        amounts: (Balance, Balance),
        min_amount_lp_tokens: Balance,
    ) -> (r: Result<Balance, DispatchError>)
        ensures
            final(self).spec_trace() == old(self).spec_trace().push(
                rec((RuntimeCall::StableAddLiquidity { sender, pool_id, amounts, min_amount_lp_tokens }), Outcome::Amount(r)),
            ),
            final(self).spec_log() == old(self).spec_log().push(
                rec((RuntimeCall::StableAddLiquidity { sender, pool_id, amounts, min_amount_lp_tokens }), Outcome::Amount(r)),
            ),
            forall|p: CurrencyId| #[trigger] final(self).spec_native_rewards_enabled(p)
                == old(self).spec_native_rewards_enabled(p),
            final(self).spec_layers() == old(self).spec_layers(),
    ;

    /// Burns `burn_amount` LP tokens of a StableSwap pool; returns the assets paid out.
    fn stable_remove_liquidity(
        &mut self,
        sender: AccountId,
        pool_id: CurrencyId,
        burn_amount: Balance,
        min_amounts: (Balance, Balance),
    ) -> (r: Result<(Balance, Balance), DispatchError>)
        ensures
            final(self).spec_trace() == old(self).spec_trace().push(
                rec((RuntimeCall::StableRemoveLiquidity { sender, pool_id, burn_amount, min_amounts }), Outcome::Amounts(r)),
            ),
            final(self).spec_log() == old(self).spec_log().push(
                rec((RuntimeCall::StableRemoveLiquidity { sender, pool_id, burn_amount, min_amounts }), Outcome::Amounts(r)),
            ),
            final(self).spec_layers() == old(self).spec_layers(),
    ;

    /// Swaps `amount_in` of `asset_in` to `asset_out` on a StableSwap pool;
    /// returns the amount bought.
    fn stable_swap(
        &mut self,
        sender: AccountId,
        pool_id: CurrencyId,
        asset_in: CurrencyId,
        asset_out: CurrencyId,
        amount_in: Balance,
        min_amount_out: Balance,
    ) -> (r: Result<Balance, DispatchError>)
        ensures
            final(self).spec_trace() == old(self).spec_trace().push(
                rec((RuntimeCall::StableSwap { sender, pool_id, asset_in, asset_out, amount_in, min_amount_out }), Outcome::Amount(r)),
            ),
            final(self).spec_log() == old(self).spec_log().push(
                rec((RuntimeCall::StableSwap { sender, pool_id, asset_in, asset_out, amount_in, min_amount_out }), Outcome::Amount(r)),
            ),
            final(self).spec_layers() == old(self).spec_layers(),
    ;

    /// Registers the LP asset of a new pool in the asset registry.
    fn create_pool_asset(
        &mut self,
        lp_token: CurrencyId,
        first_asset_id: CurrencyId,
        second_asset_id: CurrencyId,
    ) -> (r: Result<(), DispatchError>)
        ensures
            final(self).spec_trace() == old(self).spec_trace().push(
                rec((RuntimeCall::CreatePoolAsset { lp_token, first_asset_id, second_asset_id }), Outcome::Done(r)),
            ),
            final(self).spec_log() == old(self).spec_log().push(
                rec((RuntimeCall::CreatePoolAsset { lp_token, first_asset_id, second_asset_id }), Outcome::Done(r)),
            ),
            final(self).spec_layers() == old(self).spec_layers(),
    ;

    /// Activates LP tokens for native rewards.
    fn activate_liquidity(
        &mut self,
        sender: AccountId,
        pool_id: CurrencyId,
        amount: Balance,
        use_balance_from: Option<ActivateKind>,
    ) -> (r: Result<(), DispatchError>)
        ensures
            final(self).spec_trace() == old(self).spec_trace().push(
                rec((RuntimeCall::ActivateLiquidity { sender, pool_id, amount, use_balance_from }), Outcome::Done(r)),
            ),
            final(self).spec_log() == old(self).spec_log().push(
                rec((RuntimeCall::ActivateLiquidity { sender, pool_id, amount, use_balance_from }), Outcome::Done(r)),
            ),
            final(self).spec_layers() == old(self).spec_layers(),
    ;

    /// Deactivates LP tokens from native rewards; nothing happens for a zero amount.
    fn deactivate_liquidity(
        &mut self,
        sender: AccountId,
        pool_id: CurrencyId,
        amount: Balance,
    ) -> (r: Result<(), DispatchError>)
        ensures
            final(self).spec_trace() == old(self).spec_trace().push(
                rec((RuntimeCall::DeactivateLiquidity { sender, pool_id, amount }), Outcome::Done(r)),
            ),
            final(self).spec_log() == old(self).spec_log().push(
                rec((RuntimeCall::DeactivateLiquidity { sender, pool_id, amount }), Outcome::Done(r)),
            ),
            final(self).spec_layers() == old(self).spec_layers(),
    ;

    /// Unlocks vested tokens of schedule `vesting_index`; returns the amount
    /// unlocked, the starting block and the ending block of the schedule.
    fn unlock_tokens_by_vesting_index(
        &mut self,
        sender: AccountId,
        token_id: CurrencyId,
        vesting_index: u32,
        unlock_some_amount_or_all: Option<Balance>,
    ) -> (r: Result<(Balance, BlockNumber, Balance), DispatchError>)
        ensures
            final(self).spec_trace() == old(self).spec_trace().push(
                rec((RuntimeCall::UnlockTokensByVestingIndex { sender, token_id, vesting_index, unlock_some_amount_or_all }), Outcome::Unlocked(r)),
            ),
            final(self).spec_log() == old(self).spec_log().push(
                rec((RuntimeCall::UnlockTokensByVestingIndex { sender, token_id, vesting_index, unlock_some_amount_or_all }), Outcome::Unlocked(r)),
            ),
            final(self).spec_layers() == old(self).spec_layers(),
    ;

    /// Unlocks `unlock_amount` of vested tokens; returns the starting block and
    /// the ending block of the schedule.
    fn unlock_tokens(
        &mut self,
        sender: AccountId,
        token_id: CurrencyId,
        unlock_amount: Balance,
    ) -> (r: Result<(BlockNumber, Balance), DispatchError>)
        ensures
            final(self).spec_trace() == old(self).spec_trace().push(
                rec((RuntimeCall::UnlockTokens { sender, token_id, unlock_amount }), Outcome::Schedule(r)),
            ),
            final(self).spec_log() == old(self).spec_log().push(
                rec((RuntimeCall::UnlockTokens { sender, token_id, unlock_amount }), Outcome::Schedule(r)),
            ),
            final(self).spec_layers() == old(self).spec_layers(),
    ;

    /// Locks tokens under a vesting schedule.
    fn lock_tokens(
        &mut self,
        sender: AccountId,
        token_id: CurrencyId,
        lock_amount: Balance,
        starting_block: Option<BlockNumber>,
        ending_block_as_balance: Balance,
    ) -> (r: Result<(), DispatchError>)
        ensures
            final(self).spec_trace() == old(self).spec_trace().push(
                rec((RuntimeCall::LockTokens { sender, token_id, lock_amount, starting_block, ending_block_as_balance }), Outcome::Done(r)),
            ),
            final(self).spec_log() == old(self).spec_log().push(
                rec((RuntimeCall::LockTokens { sender, token_id, lock_amount, starting_block, ending_block_as_balance }), Outcome::Done(r)),
            ),
            final(self).spec_layers() == old(self).spec_layers(),
    ;

    /// Records an event of the pallet.
    fn deposit_event(&mut self, event: Event)
        ensures
            final(self).spec_trace() == old(self).spec_trace().push(
                rec((RuntimeCall::DepositEvent { event }), Outcome::Nothing),
            ),
            final(self).spec_log() == old(self).spec_log().push(
                rec((RuntimeCall::DepositEvent { event }), Outcome::Nothing),
            ),
            final(self).spec_layers() == old(self).spec_layers(),
    ;

    /// Opens a storage layer; fails when no more layers can be opened.
    fn start_transaction(&mut self) -> (r: Result<(), DispatchError>)
        ensures
            r is Ok <==> old(self).spec_layers().len() < Self::spec_max_layers(),
            r is Err ==> r == Err::<(), DispatchError>(DispatchError::Transactional),
            final(self).spec_trace() == old(self).spec_trace(),
            final(self).spec_log() == old(self).spec_log(),
            forall|p: CurrencyId| #[trigger] final(self).spec_native_rewards_enabled(p)
                == old(self).spec_native_rewards_enabled(p),
            r is Ok ==> final(self).spec_layers() == old(self).spec_layers().push(
                old(self).spec_trace().len(),
            ),
            r is Err ==> final(self).spec_layers() == old(self).spec_layers(),
    ;

    /// Keeps the changes of the innermost storage layer.
    fn commit_transaction(&mut self)
        requires
            old(self).spec_layers().len() > 0,
        ensures
            final(self).spec_trace() == old(self).spec_trace(),
            final(self).spec_log() == old(self).spec_log(),
            final(self).spec_layers() == old(self).spec_layers().drop_last(),
    ;

    /// Discards the changes of the innermost storage layer.
    fn rollback_transaction(&mut self)
        requires
            old(self).spec_layers().len() > 0,
            old(self).spec_layers().last() <= old(self).spec_trace().len(),
        ensures
            final(self).spec_trace() == old(self).spec_trace().subrange(
                0,
                old(self).spec_layers().last() as int,
            ),
            final(self).spec_log() == old(self).spec_log(),
            final(self).spec_layers() == old(self).spec_layers().drop_last(),
    ;
}

/// What `get_pool_info` finds for `pool_id`: an Xyk pool first, then a
/// StableSwap pool.
pub open spec fn spec_pool_info<T: Config>(t: T, pool_id: CurrencyId) -> Result<PoolInfo, Error> {
    match t.spec_xyk_pool(pool_id) {
        Some(pool) => Ok(PoolInfo { pool_id, kind: PoolKind::Xyk, pool }),
        None => match t.spec_stable_pool(pool_id) {
            Some(pool) => Ok(PoolInfo { pool_id, kind: PoolKind::StableSwap, pool }),
            None => Err(Error::NoSuchPool),
        },
    }
}

/// Whether neither asset of the pair is disabled.
pub open spec fn spec_assets_allowed<T: Config>(t: T, assets: (CurrencyId, CurrencyId)) -> bool {
    !t.spec_is_disabled_token(assets.0) && !t.spec_is_disabled_token(assets.1)
}

/// Looks a pool up, among the Xyk pools first, then among the StableSwap pools.
pub fn get_pool_info<T: Config>(t: &T, pool_id: CurrencyId) -> (r: Result<PoolInfo, Error>)
    ensures
        r == spec_pool_info(*t, pool_id),
{
    if let Some(pool) = t.xyk_pool(pool_id) {
        return Ok(PoolInfo { pool_id, kind: PoolKind::Xyk, pool });
    }
    if let Some(pool) = t.stable_pool(pool_id) {
        return Ok(PoolInfo { pool_id, kind: PoolKind::StableSwap, pool });
    }
    Err(Error::NoSuchPool)
}

/// Refuses a pair of assets of which one is disabled.
pub fn check_assets_allowed<T: Config>(t: &T, assets: (CurrencyId, CurrencyId)) -> (r: Result<(), Error>)
    ensures
        r is Ok <==> spec_assets_allowed(*t, assets),
        r is Err ==> r == Err::<(), Error>(Error::FunctionNotAvailableForThisToken),
{
    if !t.is_disabled_token(assets.0) && !t.is_disabled_token(assets.1) {
        Ok(())
    } else {
        Err(Error::FunctionNotAvailableForThisToken)
    }
}

/// A pool id names an Xyk pool first, a StableSwap pool when it names no
/// Xyk pool, and no pool when it names neither; the pool found keeps its
/// id and the pair of assets that the runtime lists for it.
pub proof fn lemma_pool_lookup_prefers_xyk<T: Config>(t: T, pool_id: CurrencyId)
    ensures
        t.spec_xyk_pool(pool_id) matches Some(pair) ==> spec_pool_info(t, pool_id) == Ok::<PoolInfo, Error>(
            PoolInfo { pool_id, kind: PoolKind::Xyk, pool: pair },
        ),
        t.spec_stable_pool(pool_id) matches Some(pair) ==> (t.spec_xyk_pool(pool_id) is None
            ==> spec_pool_info(t, pool_id) == Ok::<PoolInfo, Error>(
            PoolInfo { pool_id, kind: PoolKind::StableSwap, pool: pair },
        )),
        t.spec_xyk_pool(pool_id) is None && t.spec_stable_pool(pool_id) is None
            ==> spec_pool_info(t, pool_id) == Err::<PoolInfo, Error>(Error::NoSuchPool),
{
}

} // verus!
