use market::dispatch::{
    ensure_signed, AccountId, ArithmeticError, Balance, BlockNumber, CurrencyId, DispatchError,
    DispatchErrorWithPostInfo, ModuleError, Origin, Pays, PostDispatchInfo,
};
use market::market::{ActivateKind, Config, Error, Event, Layers, PoolKind, Trace};
use market::market_weights::WeightInfo;
use market::pallet::Pallet;
use market::weight::Weight;

const PALLET: u8 = 42;
const NATIVE: CurrencyId = 0;
const ALICE: AccountId = [1u8; 32];
/// How many storage layers the mock runtime can hold open at once.
const MAX_LAYERS: u32 = 2;

#[derive(Clone, Debug, PartialEq)]
enum Call {
    XykCreate(AccountId, CurrencyId, Balance, CurrencyId, Balance),
    XykMint(AccountId, CurrencyId, CurrencyId, Balance, Balance, bool),
    XykProvide(AccountId, CurrencyId, CurrencyId, CurrencyId, Balance, bool),
    XykBurn(AccountId, CurrencyId, CurrencyId, Balance),
    XykSell(AccountId, CurrencyId, CurrencyId, Balance, Balance, bool),
    StableCreate(AccountId, CurrencyId, u32, CurrencyId, u32),
    StableAdd(AccountId, CurrencyId, (Balance, Balance), Balance),
    StableRemove(AccountId, CurrencyId, Balance, (Balance, Balance)),
    StableSwap(AccountId, CurrencyId, CurrencyId, CurrencyId, Balance, Balance),
    CreatePoolAsset(CurrencyId, CurrencyId, CurrencyId),
    Activate(AccountId, CurrencyId, Balance, Option<ActivateKind>),
    Deactivate(AccountId, CurrencyId, Balance),
    UnlockByIndex(AccountId, CurrencyId, u32, Option<Balance>),
    Unlock(AccountId, CurrencyId, Balance),
    Lock(AccountId, CurrencyId, Balance, Option<BlockNumber>, Balance),
}

/// Weights of the mock runtime: a multiswap weighs a thousand per pool.
struct TestWeights;

impl WeightInfo for TestWeights {
    fn create_pool() -> Weight { Weight::from_parts(1, 0) }
    fn mint_liquidity() -> Weight { Weight::from_parts(2, 0) }
    fn burn_liquidity() -> Weight { Weight::from_parts(3, 0) }
    fn multiswap_sell_asset(x: u32) -> Weight { Weight::from_parts(10 * x as u64, 0) }
    fn multiswap_buy_asset(x: u32) -> Weight { Weight::from_parts(20 * x as u64, 0) }
    fn spec_multiswap_asset(x: u32) -> Weight { Weight::from_parts(1_000 * x as u64, 0) }
    fn multiswap_asset(x: u32) -> Weight { Weight::from_parts(1_000 * x as u64, 0) }
}

/// The weight that a failed multiswap over `n` pools reports.
fn multiswap_weight(n: u64) -> Weight {
    Weight::from_parts(1_000 * n, 0)
}

/// A runtime whose pools answer by fixed rules: an Xyk sale doubles the
/// amount, a StableSwap swap adds one, a mint gives `lp` tokens.
///
/// `calls` and `events` hold what stands in its state; a rollback removes
/// from them what its layer added. `log` holds every call made.
struct Mock {
    disabled: Vec<CurrencyId>,
    disallowed: Vec<(CurrencyId, CurrencyId)>,
    xyk: Vec<(CurrencyId, (CurrencyId, CurrencyId))>,
    stable: Vec<(CurrencyId, (CurrencyId, CurrencyId))>,
    decimals: Vec<(CurrencyId, u32)>,
    promoted: Vec<CurrencyId>,
    maintenance: bool,
    available: Balance,
    lp: Balance,
    new_lp_token: CurrencyId,
    fail_sell: Option<DispatchError>,
    failing: Vec<&'static str>,
    calls: Vec<Call>,
    events: Vec<Event>,
    log: Vec<Call>,
    layers: Vec<(usize, usize)>,
    commits: u32,
    rollbacks: u32,
}

fn mock() -> Mock {
    Mock {
        disabled: vec![],
        disallowed: vec![],
        xyk: vec![(10, (NATIVE, 1)), (11, (1, 2)), (12, (2, 3))],
        stable: vec![(20, (2, 4)), (21, (NATIVE, 4))],
        decimals: vec![(NATIVE, 18), (1, 12), (2, 6), (4, 6)],
        promoted: vec![10, 21],
        maintenance: false,
        available: 0,
        lp: 50,
        new_lp_token: 99,
        fail_sell: None,
        failing: vec![],
        calls: vec![],
        events: vec![],
        log: vec![],
        layers: vec![],
        commits: 0,
        rollbacks: 0,
    }
}

/// The error that a failing service of the mock reports.
const SERVICE_ERROR: DispatchError = DispatchError::Module(ModuleError { index: 9, error: [4, 0, 0, 0] });

impl Mock {
    fn fails(&self, name: &str) -> bool {
        self.failing.contains(&name)
    }

    /// Records a state-changing call.
    fn record(&mut self, call: Call) {
        self.calls.push(call.clone());
        self.log.push(call);
    }
}

fn lookup<K: PartialEq + Copy, V: Copy>(v: &Vec<(K, V)>, k: K) -> Option<V> {
    v.iter().find(|(key, _)| *key == k).map(|(_, value)| *value)
}

impl Config for Mock {
    type WeightInfo = TestWeights;

    fn spec_pallet_index() -> u8 { PALLET }
    fn spec_native_currency_id() -> CurrencyId { NATIVE }
    fn spec_is_disabled_token(&self, id: CurrencyId) -> bool { self.disabled.contains(&id) }
    fn spec_is_disallowed_pool(&self, pair: (CurrencyId, CurrencyId)) -> bool { self.disallowed.contains(&pair) }
    fn spec_xyk_pool(&self, pool_id: CurrencyId) -> Option<(CurrencyId, CurrencyId)> { lookup(&self.xyk, pool_id) }
    fn spec_stable_pool(&self, pool_id: CurrencyId) -> Option<(CurrencyId, CurrencyId)> { lookup(&self.stable, pool_id) }
    fn spec_asset_decimals(&self, id: CurrencyId) -> Option<u32> { lookup(&self.decimals, id) }
    fn spec_native_rewards_enabled(&self, pool_id: CurrencyId) -> bool { self.promoted.contains(&pool_id) }
    fn spec_is_maintenance(&self) -> bool { self.maintenance }
    fn spec_available_balance(&self, _currency: CurrencyId, _who: AccountId) -> Balance { self.available }
    fn spec_trace(&self) -> Trace { unreachable!() }
    fn spec_log(&self) -> Trace { unreachable!() }
    fn spec_layers(&self) -> Layers { unreachable!() }
    fn spec_max_layers() -> u32 { MAX_LAYERS }

    fn pallet_index() -> u8 { PALLET }
    fn native_currency_id() -> CurrencyId { NATIVE }
    fn is_disabled_token(&self, id: CurrencyId) -> bool { self.disabled.contains(&id) }
    fn is_disallowed_pool(&self, pair: (CurrencyId, CurrencyId)) -> bool { self.disallowed.contains(&pair) }
    fn xyk_pool(&self, pool_id: CurrencyId) -> Option<(CurrencyId, CurrencyId)> { lookup(&self.xyk, pool_id) }
    fn stable_pool(&self, pool_id: CurrencyId) -> Option<(CurrencyId, CurrencyId)> { lookup(&self.stable, pool_id) }
    fn asset_decimals(&self, id: CurrencyId) -> Option<u32> { lookup(&self.decimals, id) }
    fn native_rewards_enabled(&self, pool_id: CurrencyId) -> bool { self.promoted.contains(&pool_id) }
    fn is_maintenance(&self) -> bool { self.maintenance }
    fn available_balance(&self, _currency: CurrencyId, _who: AccountId) -> Balance { self.available }

    fn xyk_create_pool(&mut self, s: AccountId, a: CurrencyId, aa: Balance, b: CurrencyId, ba: Balance) -> Result<(), DispatchError> {
        self.record(Call::XykCreate(s, a, aa, b, ba));
        Ok(())
    }
    fn xyk_mint_liquidity(&mut self, s: AccountId, a: CurrencyId, b: CurrencyId, amount: Balance, max: Balance, activate: bool) -> Result<(Balance, Balance), DispatchError> {
        self.record(Call::XykMint(s, a, b, amount, max, activate));
        if self.fails("xyk_mint_liquidity") {
            return Err(SERVICE_ERROR);
        }
        Ok((amount, self.lp))
    }
    fn xyk_provide_liquidity_with_conversion(&mut self, s: AccountId, a: CurrencyId, b: CurrencyId, id: CurrencyId, amount: Balance, activate: bool) -> Result<(Balance, Balance), DispatchError> {
        self.record(Call::XykProvide(s, a, b, id, amount, activate));
        Ok((amount, self.lp))
    }
    fn xyk_burn_liquidity(&mut self, s: AccountId, a: CurrencyId, b: CurrencyId, amount: Balance) -> Result<(Balance, Balance), DispatchError> {
        self.record(Call::XykBurn(s, a, b, amount));
        Ok((amount, amount))
    }
    fn xyk_sell_asset(&mut self, s: AccountId, sold: CurrencyId, bought: CurrencyId, amount: Balance, min: Balance, err: bool) -> Result<Balance, DispatchError> {
        self.record(Call::XykSell(s, sold, bought, amount, min, err));
        match self.fail_sell {
            Some(e) => Err(e),
            None => Ok(amount * 2),
        }
    }
    fn stable_create_pool(&mut self, s: AccountId, a: CurrencyId, ad: u32, b: CurrencyId, bd: u32) -> Result<CurrencyId, DispatchError> {
        self.record(Call::StableCreate(s, a, ad, b, bd));
        if self.fails("stable_create_pool") {
            return Err(SERVICE_ERROR);
        }
        Ok(self.new_lp_token)
    }
    fn stable_add_liquidity(&mut self, s: AccountId, pool: CurrencyId, amounts: (Balance, Balance), min: Balance) -> Result<Balance, DispatchError> {
        self.record(Call::StableAdd(s, pool, amounts, min));
        if self.fails("stable_add_liquidity") {
            return Err(SERVICE_ERROR);
        }
        Ok(self.lp)
    }
    fn stable_remove_liquidity(&mut self, s: AccountId, pool: CurrencyId, amount: Balance, mins: (Balance, Balance)) -> Result<(Balance, Balance), DispatchError> {
        self.record(Call::StableRemove(s, pool, amount, mins));
        if self.fails("stable_remove_liquidity") {
            return Err(SERVICE_ERROR);
        }
        Ok(mins)
    }
    fn stable_swap(&mut self, s: AccountId, pool: CurrencyId, a: CurrencyId, b: CurrencyId, amount: Balance, min: Balance) -> Result<Balance, DispatchError> {
        self.record(Call::StableSwap(s, pool, a, b, amount, min));
        Ok(amount + 1)
    }
    fn create_pool_asset(&mut self, lp: CurrencyId, a: CurrencyId, b: CurrencyId) -> Result<(), DispatchError> {
        self.record(Call::CreatePoolAsset(lp, a, b));
        Ok(())
    }
    fn activate_liquidity(&mut self, s: AccountId, pool: CurrencyId, amount: Balance, kind: Option<ActivateKind>) -> Result<(), DispatchError> {
        self.record(Call::Activate(s, pool, amount, kind));
        if self.fails("activate_liquidity") {
            return Err(SERVICE_ERROR);
        }
        Ok(())
    }
    fn deactivate_liquidity(&mut self, s: AccountId, pool: CurrencyId, amount: Balance) -> Result<(), DispatchError> {
        self.record(Call::Deactivate(s, pool, amount));
        if self.fails("deactivate_liquidity") {
            return Err(SERVICE_ERROR);
        }
        Ok(())
    }
    fn unlock_tokens_by_vesting_index(&mut self, s: AccountId, token: CurrencyId, index: u32, amount: Option<Balance>) -> Result<(Balance, BlockNumber, Balance), DispatchError> {
        self.record(Call::UnlockByIndex(s, token, index, amount));
        if self.fails("unlock_tokens_by_vesting_index") {
            return Err(SERVICE_ERROR);
        }
        Ok((amount.unwrap_or(1_000), 5, 500))
    }
    fn unlock_tokens(&mut self, s: AccountId, token: CurrencyId, amount: Balance) -> Result<(BlockNumber, Balance), DispatchError> {
        self.record(Call::Unlock(s, token, amount));
        Ok((7, 700))
    }
    fn lock_tokens(&mut self, s: AccountId, token: CurrencyId, amount: Balance, start: Option<BlockNumber>, end: Balance) -> Result<(), DispatchError> {
        self.record(Call::Lock(s, token, amount, start, end));
        if self.fails("lock_tokens") {
            return Err(SERVICE_ERROR);
        }
        Ok(())
    }
    fn deposit_event(&mut self, event: Event) {
        self.events.push(event);
    }
    fn start_transaction(&mut self) -> Result<(), DispatchError> {
        if self.layers.len() >= MAX_LAYERS as usize {
            return Err(DispatchError::Transactional);
        }
        self.layers.push((self.calls.len(), self.events.len()));
        Ok(())
    }
    fn commit_transaction(&mut self) {
        self.layers.pop();
        self.commits += 1;
    }
    fn rollback_transaction(&mut self) {
        let (calls, events) = self.layers.pop().unwrap();
        self.calls.truncate(calls);
        self.events.truncate(events);
        self.rollbacks += 1;
    }
}

fn err(e: Error, code: u8) -> DispatchError {
    let d = DispatchError::Module(ModuleError { index: PALLET, error: [code, 0, 0, 0] });
    assert_eq!(d, e.into_dispatch_error(PALLET));
    d
}

fn signed() -> Origin {
    Origin::Signed(ALICE)
}

// ---- origins and errors ----

#[test]
fn ensure_signed_accepts_only_signed_origins() {
    assert_eq!(ensure_signed(Origin::Signed(ALICE)), Ok(ALICE));
    assert_eq!(ensure_signed(Origin::Root), Err(DispatchError::BadOrigin));
    assert_eq!(ensure_signed(Origin::Unsigned), Err(DispatchError::BadOrigin));
}

#[test]
fn error_codes_follow_declaration_order() {
    let all = [
        Error::NoSuchPool,
        Error::FunctionNotAvailableForThisToken,
        Error::DisallowedPool,
        Error::InsufficientOutputAmount,
        Error::NotPairedWithNativeAsset,
        Error::NotAPromotedPool,
        Error::AssetDoesNotExists,
        Error::FunctionNotAvailableForThisPoolKind,
        Error::TradingBlockedByMaintenanceMode,
        Error::MultiSwapSamePool,
        Error::MultiSwapPathInvalid,
        Error::UnexpectedFailure,
    ];
    for (i, e) in all.iter().enumerate() {
        assert_eq!(e.code() as usize, i);
        assert_eq!(
            e.into_dispatch_error(3),
            DispatchError::Module(ModuleError { index: 3, error: [i as u8, 0, 0, 0] })
        );
    }
    for a in all.iter() {
        for b in all.iter() {
            if a != b {
                assert_ne!(a.into_dispatch_error(PALLET), b.into_dispatch_error(PALLET));
            }
        }
    }
}

// ---- create_pool ----

#[test]
fn create_pool_needs_a_signed_origin() {
    let mut m = mock();
    let r = Pallet::<Mock>::create_pool(&mut m, Origin::Root, PoolKind::Xyk, 1, 10, 2, 20);
    assert_eq!(r, Err(DispatchError::BadOrigin));
    assert!(m.calls.is_empty());
}

#[test]
fn create_pool_refuses_disabled_token() {
    let mut m = mock();
    m.disabled = vec![2];
    let r = Pallet::<Mock>::create_pool(&mut m, signed(), PoolKind::Xyk, 1, 10, 2, 20);
    assert_eq!(r, Err(err(Error::FunctionNotAvailableForThisToken, 1)));
    assert!(m.calls.is_empty());
}

#[test]
fn create_pool_refuses_disallowed_pair() {
    let mut m = mock();
    m.disallowed = vec![(1, 2)];
    let r = Pallet::<Mock>::create_pool(&mut m, signed(), PoolKind::Xyk, 1, 10, 2, 20);
    assert_eq!(r, Err(err(Error::DisallowedPool, 2)));
    // the pair is checked in the order given
    let r = Pallet::<Mock>::create_pool(&mut m, signed(), PoolKind::Xyk, 2, 10, 1, 20);
    assert_eq!(r, Ok(()));
}

#[test]
fn create_xyk_pool() {
    let mut m = mock();
    let r = Pallet::<Mock>::create_pool(&mut m, signed(), PoolKind::Xyk, 1, 10, 2, 20);
    assert_eq!(r, Ok(()));
    assert_eq!(m.calls, vec![Call::XykCreate(ALICE, 1, 10, 2, 20)]);
}

#[test]
fn create_stable_pool_needs_registered_assets() {
    let mut m = mock();
    let r = Pallet::<Mock>::create_pool(&mut m, signed(), PoolKind::StableSwap, 1, 10, 77, 20);
    assert_eq!(r, Err(err(Error::AssetDoesNotExists, 6)));
    let r = Pallet::<Mock>::create_pool(&mut m, signed(), PoolKind::StableSwap, 77, 10, 1, 20);
    assert_eq!(r, Err(err(Error::AssetDoesNotExists, 6)));
    assert!(m.calls.is_empty());
}

#[test]
fn create_stable_pool() {
    let mut m = mock();
    let r = Pallet::<Mock>::create_pool(&mut m, signed(), PoolKind::StableSwap, 1, 10, 2, 20);
    assert_eq!(r, Ok(()));
    assert_eq!(
        m.calls,
        vec![
            Call::StableCreate(ALICE, 1, 12, 2, 6),
            Call::StableAdd(ALICE, 99, (10, 20), 0),
            Call::CreatePoolAsset(99, 1, 2),
        ]
    );
}

// ---- mint_liquidity ----

#[test]
fn mint_liquidity_needs_an_existing_pool() {
    let mut m = mock();
    let r = Pallet::<Mock>::mint_liquidity(&mut m, signed(), 55, 1, 10, 20);
    assert_eq!(r, Err(err(Error::NoSuchPool, 0)));
}

#[test]
fn mint_liquidity_refuses_disabled_pool_asset() {
    let mut m = mock();
    m.disabled = vec![1];
    let r = Pallet::<Mock>::mint_liquidity(&mut m, signed(), 11, 2, 10, 20);
    assert_eq!(r, Err(err(Error::FunctionNotAvailableForThisToken, 1)));
    assert!(m.calls.is_empty());
}

#[test]
fn mint_liquidity_on_xyk_puts_the_given_asset_first() {
    let mut m = mock();
    assert_eq!(Pallet::<Mock>::mint_liquidity(&mut m, signed(), 11, 2, 10, 20), Ok(()));
    assert_eq!(Pallet::<Mock>::mint_liquidity(&mut m, signed(), 11, 1, 10, 20), Ok(()));
    assert_eq!(
        m.calls,
        vec![Call::XykMint(ALICE, 2, 1, 10, 20, true), Call::XykMint(ALICE, 1, 2, 10, 20, true)]
    );
}

#[test]
fn mint_liquidity_on_stable_uses_one_to_one_rate() {
    let mut m = mock();
    // pool 20 is not promoted: no activation
    assert_eq!(Pallet::<Mock>::mint_liquidity(&mut m, signed(), 20, 4, 10, 999), Ok(()));
    assert_eq!(m.calls, vec![Call::StableAdd(ALICE, 20, (10, 10), 0)]);
    // pool 21 is promoted: the minted LP tokens are activated
    let mut m = mock();
    assert_eq!(Pallet::<Mock>::mint_liquidity(&mut m, signed(), 21, 4, 10, 999), Ok(()));
    assert_eq!(
        m.calls,
        vec![
            Call::StableAdd(ALICE, 21, (10, 10), 0),
            Call::Activate(ALICE, 21, 50, Some(ActivateKind::AvailableBalance)),
        ]
    );
}

#[test]
fn xyk_pools_take_precedence() {
    let mut m = mock();
    m.stable.push((11, (7, 8)));
    assert_eq!(Pallet::<Mock>::mint_liquidity(&mut m, signed(), 11, 1, 10, 20), Ok(()));
    assert_eq!(m.calls, vec![Call::XykMint(ALICE, 1, 2, 10, 20, true)]);
}

// ---- mint_liquidity_fixed_amounts ----

#[test]
fn fixed_amounts_on_xyk_refuse_two_amounts() {
    let mut m = mock();
    let r = Pallet::<Mock>::mint_liquidity_fixed_amounts(&mut m, signed(), 11, (5, 6), 0);
    assert_eq!(r, Err(err(Error::FunctionNotAvailableForThisPoolKind, 7)));
    assert!(m.calls.is_empty());
}

#[test]
fn fixed_amounts_on_xyk_provide_the_single_amount() {
    let mut m = mock();
    assert_eq!(Pallet::<Mock>::mint_liquidity_fixed_amounts(&mut m, signed(), 11, (0, 6), 49), Ok(()));
    assert_eq!(Pallet::<Mock>::mint_liquidity_fixed_amounts(&mut m, signed(), 11, (5, 0), 49), Ok(()));
    assert_eq!(Pallet::<Mock>::mint_liquidity_fixed_amounts(&mut m, signed(), 11, (0, 0), 49), Ok(()));
    assert_eq!(
        m.calls,
        vec![
            Call::XykProvide(ALICE, 1, 2, 2, 6, true),
            Call::XykProvide(ALICE, 1, 2, 1, 5, true),
            Call::XykProvide(ALICE, 1, 2, 1, 0, true),
        ]
    );
}

#[test]
fn fixed_amounts_on_xyk_need_the_minimum_lp() {
    let mut m = mock();
    // the mock mints 50 LP tokens: a minimum of 50 is met
    let r = Pallet::<Mock>::mint_liquidity_fixed_amounts(&mut m, signed(), 11, (0, 6), 50);
    assert_eq!(r, Ok(()));
    assert_eq!(m.calls, vec![Call::XykProvide(ALICE, 1, 2, 2, 6, true)]);
    // a minimum of 51 is missed, and the liquidity provided is not kept
    let mut m = mock();
    let r = Pallet::<Mock>::mint_liquidity_fixed_amounts(&mut m, signed(), 11, (0, 6), 51);
    assert_eq!(r, Err(err(Error::InsufficientOutputAmount, 3)));
    assert!(m.calls.is_empty());
    assert_eq!(m.log, vec![Call::XykProvide(ALICE, 1, 2, 2, 6, true)]);
    assert_eq!((m.commits, m.rollbacks), (0, 1));
}

#[test]
fn fixed_amounts_on_stable_add_and_activate() {
    let mut m = mock();
    assert_eq!(Pallet::<Mock>::mint_liquidity_fixed_amounts(&mut m, signed(), 20, (5, 6), 3), Ok(()));
    assert_eq!(
        m.calls,
        vec![
            Call::StableAdd(ALICE, 20, (5, 6), 3),
            Call::Activate(ALICE, 20, 50, Some(ActivateKind::AvailableBalance)),
        ]
    );
}

// ---- vesting mints ----

#[test]
fn vesting_mint_needs_native_pool() {
    let mut m = mock();
    let r = Pallet::<Mock>::mint_liquidity_using_vesting_native_tokens(&mut m, signed(), 11, 10, 20);
    assert_eq!(r, Err(err(Error::NotPairedWithNativeAsset, 4)));
    let r = Pallet::<Mock>::mint_liquidity_using_vesting_native_tokens_by_vesting_index(&mut m, signed(), 11, 0, None, 20);
    assert_eq!(r, Err(err(Error::NotPairedWithNativeAsset, 4)));
    assert!(m.calls.is_empty());
}

#[test]
fn vesting_mint_needs_promoted_pool() {
    let mut m = mock();
    m.promoted = vec![];
    let r = Pallet::<Mock>::mint_liquidity_using_vesting_native_tokens(&mut m, signed(), 10, 10, 20);
    assert_eq!(r, Err(err(Error::NotAPromotedPool, 5)));
    assert!(m.calls.is_empty());
}

#[test]
fn vesting_mint_by_amount() {
    let mut m = mock();
    let r = Pallet::<Mock>::mint_liquidity_using_vesting_native_tokens(&mut m, signed(), 10, 300, 20);
    assert_eq!(r, Ok(()));
    assert_eq!(
        m.calls,
        vec![
            Call::Unlock(ALICE, NATIVE, 300),
            Call::XykMint(ALICE, NATIVE, 1, 300, 20, false),
            Call::Lock(ALICE, 10, 50, Some(7), 700),
        ]
    );
}

#[test]
fn vesting_mint_by_index() {
    let mut m = mock();
    let r = Pallet::<Mock>::mint_liquidity_using_vesting_native_tokens_by_vesting_index(&mut m, signed(), 21, 2, Some(40), 20);
    assert_eq!(r, Ok(()));
    assert_eq!(
        m.calls,
        vec![
            Call::UnlockByIndex(ALICE, NATIVE, 2, Some(40)),
            Call::StableAdd(ALICE, 21, (40, 40), 0),
            Call::Lock(ALICE, 21, 50, Some(5), 500),
        ]
    );
}

// ---- burn_liquidity ----

#[test]
fn burn_on_xyk() {
    let mut m = mock();
    assert_eq!(Pallet::<Mock>::burn_liquidity(&mut m, signed(), 12, 30, 1, 2), Ok(()));
    assert_eq!(m.calls, vec![Call::XykBurn(ALICE, 2, 3, 30)]);
}

#[test]
fn burn_on_xyk_pays_at_least_the_minimums() {
    // the mock pays out (30, 30) for 30 LP tokens: minimums of 30 are met
    let mut m = mock();
    assert_eq!(Pallet::<Mock>::burn_liquidity(&mut m, signed(), 12, 30, 30, 30), Ok(()));
    assert_eq!(m.calls, vec![Call::XykBurn(ALICE, 2, 3, 30)]);
    // a first amount below its minimum: nothing is burnt
    let mut m = mock();
    let r = Pallet::<Mock>::burn_liquidity(&mut m, signed(), 12, 30, 31, 0);
    assert_eq!(r, Err(err(Error::InsufficientOutputAmount, 3)));
    assert!(m.calls.is_empty());
    assert_eq!(m.log, vec![Call::XykBurn(ALICE, 2, 3, 30)]);
    // a second amount below its minimum: nothing is burnt
    let mut m = mock();
    let r = Pallet::<Mock>::burn_liquidity(&mut m, signed(), 12, 30, 0, 31);
    assert_eq!(r, Err(err(Error::InsufficientOutputAmount, 3)));
    assert!(m.calls.is_empty());
}

#[test]
fn burn_on_stable_deactivates_what_balance_misses() {
    let mut m = mock();
    m.available = 12;
    assert_eq!(Pallet::<Mock>::burn_liquidity(&mut m, signed(), 20, 30, 1, 2), Ok(()));
    assert_eq!(
        m.calls,
        vec![Call::Deactivate(ALICE, 20, 18), Call::StableRemove(ALICE, 20, 30, (1, 2))]
    );
    let mut m = mock();
    m.available = 100;
    assert_eq!(Pallet::<Mock>::burn_liquidity(&mut m, signed(), 20, 30, 1, 2), Ok(()));
    assert_eq!(
        m.calls,
        vec![Call::Deactivate(ALICE, 20, 0), Call::StableRemove(ALICE, 20, 30, (1, 2))]
    );
}

#[test]
fn burn_needs_an_existing_pool() {
    let mut m = mock();
    assert_eq!(Pallet::<Mock>::burn_liquidity(&mut m, Origin::Unsigned, 12, 30, 1, 2), Err(DispatchError::BadOrigin));
    assert_eq!(Pallet::<Mock>::burn_liquidity(&mut m, signed(), 13, 30, 1, 2), Err(err(Error::NoSuchPool, 0)));
}

// ---- multiswap_asset ----

fn refused(e: DispatchError) -> Result<PostDispatchInfo, DispatchErrorWithPostInfo> {
    Err(DispatchErrorWithPostInfo { post_info: PostDispatchInfo { actual_weight: None, pays_fee: Pays::Yes }, error: e })
}

#[test]
fn multiswap_blocked_in_maintenance() {
    let mut m = mock();
    m.maintenance = true;
    let r = Pallet::<Mock>::multiswap_asset(&mut m, signed(), vec![10], NATIVE, 5, 1, 0);
    assert_eq!(r, refused(err(Error::TradingBlockedByMaintenanceMode, 8)));
}

#[test]
fn multiswap_needs_a_signed_origin() {
    let mut m = mock();
    let r = Pallet::<Mock>::multiswap_asset(&mut m, Origin::Root, vec![10], NATIVE, 5, 1, 0);
    assert_eq!(r, refused(DispatchError::BadOrigin));
}

#[test]
fn multiswap_needs_a_pool() {
    let mut m = mock();
    let r = Pallet::<Mock>::multiswap_asset(&mut m, signed(), vec![], NATIVE, 5, 1, 0);
    assert_eq!(r, refused(err(Error::NoSuchPool, 0)));
}

#[test]
fn multiswap_refuses_repeated_pools() {
    let mut m = mock();
    let r = Pallet::<Mock>::multiswap_asset(&mut m, signed(), vec![10, 11, 10], NATIVE, 5, NATIVE, 0);
    assert_eq!(r, refused(err(Error::MultiSwapSamePool, 9)));
}

#[test]
fn multiswap_refuses_unknown_pool() {
    let mut m = mock();
    let r = Pallet::<Mock>::multiswap_asset(&mut m, signed(), vec![10, 55], NATIVE, 5, 2, 0);
    assert_eq!(r, refused(err(Error::NoSuchPool, 0)));
}

#[test]
fn multiswap_refuses_disabled_asset() {
    let mut m = mock();
    m.disabled = vec![3];
    let r = Pallet::<Mock>::multiswap_asset(&mut m, signed(), vec![10, 11, 12], NATIVE, 5, 3, 0);
    assert_eq!(r, refused(err(Error::FunctionNotAvailableForThisToken, 1)));
}

#[test]
fn multiswap_refuses_disconnected_pools() {
    let mut m = mock();
    // pool 12 (2, 3) does not take asset 1
    let r = Pallet::<Mock>::multiswap_asset(&mut m, signed(), vec![10, 12], NATIVE, 5, 3, 0);
    assert_eq!(r, refused(err(Error::MultiSwapPathInvalid, 10)));
    // the route must end with the asset bought
    let r = Pallet::<Mock>::multiswap_asset(&mut m, signed(), vec![10, 11], NATIVE, 5, 3, 0);
    assert_eq!(r, refused(err(Error::MultiSwapPathInvalid, 10)));
    assert!(m.calls.is_empty());
    assert!(m.events.is_empty());
}

#[test]
fn multiswap_first_failure_wins() {
    let mut m = mock();
    m.disabled = vec![3];
    // the second pool does not connect before the third pool's disabled asset is looked at
    let r = Pallet::<Mock>::multiswap_asset(&mut m, signed(), vec![10, 20, 12], NATIVE, 5, 3, 0);
    assert_eq!(r, refused(err(Error::MultiSwapPathInvalid, 10)));
}

#[test]
fn multiswap_along_a_route() {
    let mut m = mock();
    // 0 -> 1 (xyk 10), 1 -> 2 (xyk 11), 2 -> 4 (stable 20)
    let r = Pallet::<Mock>::multiswap_asset(&mut m, signed(), vec![10, 11, 20], NATIVE, 5, 4, 21);
    assert_eq!(r, Ok(PostDispatchInfo { actual_weight: None, pays_fee: Pays::No }));
    assert_eq!(
        m.calls,
        vec![
            Call::XykSell(ALICE, NATIVE, 1, 5, 0, true),
            Call::XykSell(ALICE, 1, 2, 10, 0, true),
            Call::StableSwap(ALICE, 20, 2, 4, 20, 0),
        ]
    );
    assert_eq!(
        m.events,
        vec![Event::AssetsSwapped {
            who: ALICE,
            swap_pool_list: vec![10, 11, 20],
            swap_assets_list: vec![(NATIVE, 1), (1, 2), (2, 4)],
            amount_in: 5,
            amount_out: 21,
        }]
    );
    // the layer of the swaps and the layer of the call are both kept
    assert_eq!((m.commits, m.rollbacks), (2, 0));
    assert_eq!(m.log, m.calls);
}

#[test]
fn multiswap_turns_pools_round() {
    let mut m = mock();
    // 4 -> 2 (stable 20), 2 -> 1 (xyk 11)
    let r = Pallet::<Mock>::multiswap_asset(&mut m, signed(), vec![20, 11], 4, 5, 1, 0);
    assert_eq!(r, Ok(PostDispatchInfo { actual_weight: None, pays_fee: Pays::No }));
    assert_eq!(m.calls, vec![Call::StableSwap(ALICE, 20, 4, 2, 5, 0), Call::XykSell(ALICE, 2, 1, 6, 0, true)]);
}

#[test]
fn multiswap_slippage_failure_is_reverted_and_charged() {
    let mut m = mock();
    // 5 -> 10 -> 20 -> 21, one short of 22
    let r = Pallet::<Mock>::multiswap_asset(&mut m, signed(), vec![10, 11, 20], NATIVE, 5, 4, 22);
    assert_eq!(r, Ok(PostDispatchInfo { actual_weight: Some(multiswap_weight(3)), pays_fee: Pays::Yes }));
    assert!(m.calls.is_empty());
    assert_eq!(m.log.len(), 3);
    // the swaps are reverted, the call itself is kept with its event
    assert_eq!((m.commits, m.rollbacks), (1, 1));
    assert_eq!(
        m.events,
        vec![Event::MultiSwapAssetFailedOnAtomicSwap {
            who: ALICE,
            swap_pool_list: vec![10, 11, 20],
            swap_assets_list: vec![(NATIVE, 1), (1, 2), (2, 4)],
            module_err: ModuleError { index: PALLET, error: [3, 0, 0, 0] },
        }]
    );
}

#[test]
fn multiswap_failed_swap_reports_its_module_error() {
    let mut m = mock();
    let foreign = ModuleError { index: 7, error: [2, 0, 0, 0] };
    m.fail_sell = Some(DispatchError::Module(foreign));
    let r = Pallet::<Mock>::multiswap_asset(&mut m, signed(), vec![10], NATIVE, 5, 1, 0);
    assert_eq!(r, Ok(PostDispatchInfo { actual_weight: Some(multiswap_weight(1)), pays_fee: Pays::Yes }));
    assert_eq!(
        m.events,
        vec![Event::MultiSwapAssetFailedOnAtomicSwap {
            who: ALICE,
            swap_pool_list: vec![10],
            swap_assets_list: vec![(NATIVE, 1)],
            module_err: foreign,
        }]
    );
    assert!(m.calls.is_empty());
}

#[test]
fn multiswap_other_failure_is_unexpected() {
    let mut m = mock();
    m.fail_sell = Some(DispatchError::Arithmetic(ArithmeticError::Overflow));
    let r = Pallet::<Mock>::multiswap_asset(&mut m, signed(), vec![10], NATIVE, 5, 1, 0);
    assert_eq!(
        r,
        Err(DispatchErrorWithPostInfo {
            post_info: PostDispatchInfo { actual_weight: Some(multiswap_weight(1)), pays_fee: Pays::Yes },
            error: err(Error::UnexpectedFailure, 11),
        })
    );
    assert!(m.events.is_empty());
    assert!(m.calls.is_empty());
    assert_eq!(m.log, vec![Call::XykSell(ALICE, NATIVE, 1, 5, 0, true)]);
    assert_eq!((m.commits, m.rollbacks), (0, 2));
}

// ---- a call that fails keeps nothing of what it did ----

#[test]
fn create_stable_pool_stops_at_failed_creation() {
    let mut m = mock();
    m.failing = vec!["stable_create_pool"];
    let r = Pallet::<Mock>::create_pool(&mut m, signed(), PoolKind::StableSwap, 1, 10, 2, 20);
    assert_eq!(r, Err(SERVICE_ERROR));
    assert!(m.calls.is_empty());
    assert_eq!(m.log, vec![Call::StableCreate(ALICE, 1, 12, 2, 6)]);
}

#[test]
fn create_stable_pool_stops_at_failed_liquidity() {
    let mut m = mock();
    m.failing = vec!["stable_add_liquidity"];
    let r = Pallet::<Mock>::create_pool(&mut m, signed(), PoolKind::StableSwap, 1, 10, 2, 20);
    assert_eq!(r, Err(SERVICE_ERROR));
    // the pool created is not kept
    assert!(m.calls.is_empty());
    assert_eq!(m.log, vec![Call::StableCreate(ALICE, 1, 12, 2, 6), Call::StableAdd(ALICE, 99, (10, 20), 0)]);
}

#[test]
fn vesting_mint_stops_at_failed_unlock() {
    let mut m = mock();
    m.failing = vec!["unlock_tokens_by_vesting_index"];
    let r = Pallet::<Mock>::mint_liquidity_using_vesting_native_tokens_by_vesting_index(&mut m, signed(), 10, 1, None, 20);
    assert_eq!(r, Err(SERVICE_ERROR));
    assert!(m.calls.is_empty());
    assert_eq!(m.log, vec![Call::UnlockByIndex(ALICE, NATIVE, 1, None)]);
}

#[test]
fn vesting_mint_does_not_lock_after_failed_mint() {
    let mut m = mock();
    m.failing = vec!["xyk_mint_liquidity"];
    let r = Pallet::<Mock>::mint_liquidity_using_vesting_native_tokens(&mut m, signed(), 10, 300, 20);
    assert_eq!(r, Err(SERVICE_ERROR));
    // the unlock is not kept
    assert!(m.calls.is_empty());
    assert_eq!(m.log, vec![Call::Unlock(ALICE, NATIVE, 300), Call::XykMint(ALICE, NATIVE, 1, 300, 20, false)]);
}

#[test]
fn vesting_mint_keeps_nothing_after_failed_lock() {
    let mut m = mock();
    m.failing = vec!["lock_tokens"];
    let r = Pallet::<Mock>::mint_liquidity_using_vesting_native_tokens_by_vesting_index(&mut m, signed(), 10, 1, None, 20);
    assert_eq!(r, Err(SERVICE_ERROR));
    assert!(m.calls.is_empty());
    assert_eq!(
        m.log,
        vec![
            Call::UnlockByIndex(ALICE, NATIVE, 1, None),
            Call::XykMint(ALICE, NATIVE, 1, 1_000, 20, false),
            Call::Lock(ALICE, 10, 50, Some(5), 500),
        ]
    );
}

#[test]
fn burn_on_stable_stops_at_failed_deactivation() {
    let mut m = mock();
    m.failing = vec!["deactivate_liquidity"];
    m.available = 5;
    let r = Pallet::<Mock>::burn_liquidity(&mut m, signed(), 20, 30, 1, 2);
    assert_eq!(r, Err(SERVICE_ERROR));
    assert!(m.calls.is_empty());
    assert_eq!(m.log, vec![Call::Deactivate(ALICE, 20, 25)]);
}

#[test]
fn burn_on_stable_keeps_no_deactivation_after_failed_removal() {
    let mut m = mock();
    m.failing = vec!["stable_remove_liquidity"];
    m.available = 5;
    let r = Pallet::<Mock>::burn_liquidity(&mut m, signed(), 20, 30, 1, 2);
    assert_eq!(r, Err(SERVICE_ERROR));
    assert!(m.calls.is_empty());
    assert_eq!(m.log, vec![Call::Deactivate(ALICE, 20, 25), Call::StableRemove(ALICE, 20, 30, (1, 2))]);
}

#[test]
fn stable_mint_without_activation_after_failed_add() {
    let mut m = mock();
    m.failing = vec!["stable_add_liquidity"];
    let r = Pallet::<Mock>::mint_liquidity(&mut m, signed(), 21, 4, 10, 999);
    assert_eq!(r, Err(SERVICE_ERROR));
    assert!(m.calls.is_empty());
    assert_eq!(m.log, vec![Call::StableAdd(ALICE, 21, (10, 10), 0)]);
}

#[test]
fn fixed_amounts_on_stable_keep_nothing_after_failed_activation() {
    let mut m = mock();
    m.failing = vec!["activate_liquidity"];
    let r = Pallet::<Mock>::mint_liquidity_fixed_amounts(&mut m, signed(), 20, (5, 6), 3);
    assert_eq!(r, Err(SERVICE_ERROR));
    assert!(m.calls.is_empty());
    assert_eq!(
        m.log,
        vec![
            Call::StableAdd(ALICE, 20, (5, 6), 3),
            Call::Activate(ALICE, 20, 50, Some(ActivateKind::AvailableBalance)),
        ]
    );
}

#[test]
fn multiswap_without_storage_layer_is_unexpected() {
    let mut m = mock();
    // one layer is open already: the call's own layer is the last one
    m.layers = vec![(0, 0)];
    let r = Pallet::<Mock>::multiswap_asset(&mut m, signed(), vec![10, 11], NATIVE, 5, 2, 0);
    assert_eq!(
        r,
        Err(DispatchErrorWithPostInfo {
            post_info: PostDispatchInfo { actual_weight: Some(multiswap_weight(2)), pays_fee: Pays::Yes },
            error: err(Error::UnexpectedFailure, 11),
        })
    );
    assert!(m.calls.is_empty());
    assert!(m.log.is_empty());
    assert!(m.events.is_empty());
    assert_eq!(m.layers, vec![(0, 0)]);
}

#[test]
fn calls_fail_when_no_storage_layer_can_be_opened() {
    let mut m = mock();
    m.layers = vec![(0, 0), (0, 0)];
    assert_eq!(
        Pallet::<Mock>::create_pool(&mut m, signed(), PoolKind::Xyk, 1, 10, 2, 20),
        Err(DispatchError::Transactional)
    );
    assert_eq!(Pallet::<Mock>::mint_liquidity(&mut m, signed(), 11, 2, 10, 20), Err(DispatchError::Transactional));
    assert_eq!(
        Pallet::<Mock>::mint_liquidity_fixed_amounts(&mut m, signed(), 20, (5, 6), 3),
        Err(DispatchError::Transactional)
    );
    assert_eq!(
        Pallet::<Mock>::mint_liquidity_using_vesting_native_tokens(&mut m, signed(), 10, 300, 20),
        Err(DispatchError::Transactional)
    );
    assert_eq!(
        Pallet::<Mock>::mint_liquidity_using_vesting_native_tokens_by_vesting_index(&mut m, signed(), 10, 1, None, 20),
        Err(DispatchError::Transactional)
    );
    assert_eq!(Pallet::<Mock>::burn_liquidity(&mut m, signed(), 12, 30, 1, 2), Err(DispatchError::Transactional));
    // the layer is asked for before the checks are looked at
    assert_eq!(Pallet::<Mock>::burn_liquidity(&mut m, Origin::Root, 12, 30, 1, 2), Err(DispatchError::Transactional));
    assert_eq!(
        Pallet::<Mock>::multiswap_asset(&mut m, signed(), vec![10], NATIVE, 5, 1, 0),
        refused(DispatchError::Transactional)
    );
    assert!(m.log.is_empty());
    assert!(m.events.is_empty());
    assert_eq!(m.layers.len(), 2);
}

#[test]
fn multiswap_failed_swap_stops_the_chain() {
    let mut m = mock();
    m.fail_sell = Some(SERVICE_ERROR);
    // the StableSwap swap runs, then the Xyk sale fails, and both are reverted
    let r = Pallet::<Mock>::multiswap_asset(&mut m, signed(), vec![20, 11, 10], 4, 5, NATIVE, 0);
    assert_eq!(r, Ok(PostDispatchInfo { actual_weight: Some(multiswap_weight(3)), pays_fee: Pays::Yes }));
    assert!(m.calls.is_empty());
    assert_eq!(m.log, vec![Call::StableSwap(ALICE, 20, 4, 2, 5, 0), Call::XykSell(ALICE, 2, 1, 6, 0, true)]);
    assert_eq!((m.commits, m.rollbacks), (1, 1));
    assert_eq!(
        m.events,
        vec![Event::MultiSwapAssetFailedOnAtomicSwap {
            who: ALICE,
            swap_pool_list: vec![20, 11, 10],
            swap_assets_list: vec![(4, 2), (2, 1), (1, NATIVE)],
            module_err: ModuleError { index: 9, error: [4, 0, 0, 0] },
        }]
    );
}
