//! Validation of the route of a multiswap: the pools must be distinct and
//! must connect the sold asset to the bought asset, one after the other.

use vstd::prelude::*;

use crate::dispatch::CurrencyId;
use crate::market::{
    check_assets_allowed, get_pool_info, spec_assets_allowed, spec_pool_info, Config, Error,
    PoolInfo,
};

verus! {

/// A swap from the first asset of the pair to the second.
pub type AssetPair = (CurrencyId, CurrencyId);

/// Whether no value occurs twice in `s`.
pub open spec fn no_duplicates(s: Seq<CurrencyId>) -> bool {
    forall|i: int, j: int| 0 <= i < s.len() && 0 <= j < s.len() && i != j ==> s[i] != s[j]
}

/// Whether no pool id occurs twice in the list (the pallet tells this by
/// sorting and removing duplicates).
pub fn has_no_duplicates(list: &Vec<CurrencyId>) -> (r: bool)
    ensures
        r == no_duplicates(list@),
{
    let n = list.len();
    let mut i: usize = 0;
    while i < n
        invariant
            n == list.len(),
            i <= n,
            forall|a: int, b: int| 0 <= a < i && 0 <= b < n && a != b ==> list@[a] != list@[b],
        decreases n - i,
    {
        let mut j: usize = 0;
        while j < n
            invariant
                n == list.len(),
                i < n,
                j <= n,
                forall|a: int, b: int| 0 <= a < i && 0 <= b < n && a != b ==> list@[a] != list@[b],
                forall|b: int| 0 <= b < j && b != i ==> list@[i as int] != list@[b],
            decreases n - j,
        {
            if j != i && list[i] == list[j] {
                assert(!no_duplicates(list@));
                return false;
            }
            j = j + 1;
        }
        i = i + 1;
    }
    true
}

/// The swap that a pool with assets `pair` makes when it receives `prev`:
/// the pair as it stands, or turned round, or none when `prev` is not in it.
pub open spec fn spec_hop(prev: CurrencyId, pair: AssetPair) -> Option<AssetPair> {
    if pair.0 == prev {
        Some(pair)
    } else if pair.1 == prev {
        Some((pair.1, pair.0))
    } else {
        None
    }
}

/// The swap that a pool with assets `pair` makes when it receives `prev`.
pub fn hop(prev: CurrencyId, pair: AssetPair) -> (r: Option<AssetPair>)
    ensures
        r == spec_hop(prev, pair),
{
    if pair.0 == prev {
        Some(pair)
    } else if pair.1 == prev {
        Some((pair.1, pair.0))
    } else {
        None
    }
}

/// The asset that the next pool receives after the swaps `path`.
pub open spec fn spec_current_asset(asset_in: CurrencyId, path: Seq<AssetPair>) -> CurrencyId {
    if path.len() == 0 {
        asset_in
    } else {
        path.last().1
    }
}

/// The pools of `list` and the swaps they make, checked pool by pool as the
/// pallet does: the pool must exist, its assets must be allowed, and it must
/// receive the asset that the previous swap gives.
pub open spec fn spec_route<T: Config>(t: T, list: Seq<CurrencyId>, asset_in: CurrencyId) -> Result<
    (Seq<PoolInfo>, Seq<AssetPair>),
    Error,
>
    decreases list.len(),
{
    if list.len() == 0 {
        Ok((Seq::empty(), Seq::empty()))
    } else {
        match spec_route(t, list.drop_last(), asset_in) {
            Err(e) => Err(e),
            Ok((pools, path)) => match spec_pool_info(t, list.last()) {
                Err(e) => Err(e),
                Ok(info) => if !spec_assets_allowed(t, info.pool) {
                    Err(Error::FunctionNotAvailableForThisToken)
                } else {
                    match spec_hop(spec_current_asset(asset_in, path), info.pool) {
                        None => Err(Error::MultiSwapPathInvalid),
                        Some(h) => Ok((pools.push(info), path.push(h))),
                    }
                },
            },
        }
    }
}

/// The checks of a multiswap before any swap, in the order of the pallet.
pub open spec fn spec_validate_multiswap<T: Config>(
    t: T,
    list: Seq<CurrencyId>,
    asset_in: CurrencyId,
    asset_out: CurrencyId,
) -> Result<(Seq<PoolInfo>, Seq<AssetPair>), Error> {
    if t.spec_is_maintenance() {
        Err(Error::TradingBlockedByMaintenanceMode)
    } else if list.len() == 0 {
        Err(Error::NoSuchPool)
    } else if !no_duplicates(list) {
        Err(Error::MultiSwapSamePool)
    } else {
        match spec_route(t, list, asset_in) {
            Err(e) => Err(e),
            Ok((pools, path)) => if path.len() > 0 && path.last().1 == asset_out {
                Ok((pools, path))
            } else {
                Err(Error::MultiSwapPathInvalid)
            },
        }
    }
}

/// Looks up the pools of `list` and the swaps they make, failing on the first
/// pool that does not exist, has a disabled asset or does not connect.
pub fn build_route<T: Config>(t: &T, list: &Vec<CurrencyId>, asset_in: CurrencyId) -> (r: Result<
    (Vec<PoolInfo>, Vec<AssetPair>),
    Error,
>)
    ensures
        match (r, spec_route(*t, list@, asset_in)) {
            (Ok((pools, path)), Ok((spools, spath))) => pools@ == spools && path@ == spath,
            (Err(e), Err(se)) => e == se,
            _ => false,
        },
{
    let mut pools: Vec<PoolInfo> = Vec::new();
    let mut path: Vec<AssetPair> = Vec::new();
    let n = list.len();
    let mut i: usize = 0;
    while i < n
        invariant
            n == list.len(),
            i <= n,
            spec_route(*t, list@.subrange(0, i as int), asset_in) == Ok::<
                (Seq<PoolInfo>, Seq<AssetPair>),
                Error,
            >((pools@, path@)),
        decreases n - i,
    {
        let pool_id = list[i];
        proof {
            assert(list@.subrange(0, i + 1).drop_last() =~= list@.subrange(0, i as int));
        }
        let info = match get_pool_info(t, pool_id) {
            Ok(info) => info,
            Err(e) => {
                proof { lemma_route_err_extends(*t, list@, asset_in, i as int + 1); }
                return Err(e);
            },
        };
        match check_assets_allowed(t, info.pool) {
            Ok(()) => {},
            Err(e) => {
                proof { lemma_route_err_extends(*t, list@, asset_in, i as int + 1); }
                return Err(e);
            },
        }
        let prev = if path.len() == 0 { asset_in } else { path[path.len() - 1].1 };
        match hop(prev, info.pool) {
            Some(h) => {
                pools.push(info);
                path.push(h);
            },
            None => {
                proof { lemma_route_err_extends(*t, list@, asset_in, i as int + 1); }
                return Err(Error::MultiSwapPathInvalid);
            },
        }
        i = i + 1;
    }
    proof {
        assert(list@.subrange(0, n as int) =~= list@);
    }
    Ok((pools, path))
}

/// Once a prefix of the list fails, the whole list fails with the same error.
proof fn lemma_route_err_extends<T: Config>(t: T, list: Seq<CurrencyId>, asset_in: CurrencyId, k: int)
    requires
        0 <= k <= list.len(),
        spec_route(t, list.subrange(0, k), asset_in) is Err,
    ensures
        spec_route(t, list, asset_in) == spec_route(t, list.subrange(0, k), asset_in),
    decreases list.len() - k,
{
    if k < list.len() {
        assert(list.subrange(0, k + 1).drop_last() =~= list.subrange(0, k));
        lemma_route_err_extends(t, list, asset_in, k + 1);
    } else {
        assert(list.subrange(0, k) =~= list);
    }
}

/// A route that passes the checks is a chain of swaps through distinct pools:
/// the i-th swap is made by the i-th pool of the list, on its pair of assets
/// taken in one of the two directions; the first swap sells `asset_in`, each
/// swap sells what the previous one bought, and the last buys `asset_out`.
pub proof fn lemma_validated_route_is_chain<T: Config>(
    t: T,
    list: Seq<CurrencyId>,
    asset_in: CurrencyId,
    asset_out: CurrencyId,
)
    requires
        spec_validate_multiswap(t, list, asset_in, asset_out) is Ok,
    ensures
        ({
            let (pools, path) = spec_validate_multiswap(t, list, asset_in, asset_out)->Ok_0;
            &&& !t.spec_is_maintenance()
            &&& no_duplicates(list)
            &&& list.len() > 0
            &&& pools.len() == list.len()
            &&& path.len() == list.len()
            &&& path[0].0 == asset_in
            &&& path.last().1 == asset_out
            &&& forall|i: int| 0 <= i < list.len() ==> #[trigger] pools[i].pool_id == list[i]
            &&& forall|i: int| 0 <= i < list.len() ==> spec_pool_info(t, list[i]) == Ok::<PoolInfo, Error>(#[trigger] pools[i])
            &&& forall|i: int| 0 <= i < list.len() ==> spec_assets_allowed(t, #[trigger] pools[i].pool)
            &&& forall|i: int| 0 <= i < list.len() ==> (#[trigger] path[i] == pools[i].pool || path[i] == (pools[i].pool.1, pools[i].pool.0))
            &&& forall|i: int| 0 <= i < list.len() - 1 ==> #[trigger] path[i].1 == path[i + 1].0
        }),
{
    lemma_route_is_chain(t, list, asset_in);
}

/// What holds of every route that `spec_route` accepts.
proof fn lemma_route_is_chain<T: Config>(t: T, list: Seq<CurrencyId>, asset_in: CurrencyId)
    requires
        spec_route(t, list, asset_in) is Ok,
    ensures
        ({
            let (pools, path) = spec_route(t, list, asset_in)->Ok_0;
            &&& pools.len() == list.len()
            &&& path.len() == list.len()
            &&& list.len() > 0 ==> path[0].0 == asset_in
            &&& forall|i: int| 0 <= i < list.len() ==> #[trigger] pools[i].pool_id == list[i]
            &&& forall|i: int| 0 <= i < list.len() ==> spec_pool_info(t, list[i]) == Ok::<PoolInfo, Error>(#[trigger] pools[i])
            &&& forall|i: int| 0 <= i < list.len() ==> spec_assets_allowed(t, #[trigger] pools[i].pool)
            &&& forall|i: int| 0 <= i < list.len() ==> (#[trigger] path[i] == pools[i].pool || path[i] == (pools[i].pool.1, pools[i].pool.0))
            &&& forall|i: int| 0 <= i < list.len() - 1 ==> #[trigger] path[i].1 == path[i + 1].0
        }),
    decreases list.len(),
{
    if list.len() > 0 {
        let prefix = list.drop_last();
        lemma_route_is_chain(t, prefix, asset_in);
        let (pools, path) = spec_route(t, prefix, asset_in)->Ok_0;
        let (pools2, path2) = spec_route(t, list, asset_in)->Ok_0;
        let info = spec_pool_info(t, list.last())->Ok_0;
        assert(pools2 == pools.push(info));
        assert forall|i: int| 0 <= i < list.len() implies #[trigger] pools2[i].pool_id == list[i] by {
            if i < list.len() - 1 {
                assert(pools2[i] == pools[i]);
                assert(prefix[i] == list[i]);
            }
        }
        assert forall|i: int| 0 <= i < list.len() implies spec_pool_info(t, list[i]) == Ok::<PoolInfo, Error>(#[trigger] pools2[i]) by {
            if i < list.len() - 1 {
                assert(pools2[i] == pools[i]);
                assert(prefix[i] == list[i]);
            }
        }
        assert forall|i: int| 0 <= i < list.len() - 1 implies #[trigger] path2[i].1 == path2[i + 1].0 by {
            if i < list.len() - 2 {
                assert(path2[i] == path[i]);
                assert(path2[i + 1] == path[i + 1]);
            } else {
                assert(path2[i] == path.last());
            }
        }
    }
}

/// A pool crosses from either of its assets to the other: given the asset
/// that comes in, it gives its other asset, whichever of the two it lists
/// first; it takes no asset that it does not hold.
pub proof fn lemma_hop_crosses_either_way(prev: CurrencyId, a: CurrencyId, b: CurrencyId)
    ensures
        a == prev ==> spec_hop(prev, (a, b)) == Some::<AssetPair>((a, b)),
        b == prev ==> spec_hop(prev, (a, b)) == Some::<AssetPair>((b, a)),
        a != prev && b != prev ==> spec_hop(prev, (a, b)) is None,
{
}

/// Whether the pools `list`, each existing in `t` with allowed assets, carry
/// `assets[0]` to `assets[list.len()]`: the i-th pool holds `assets[i]` and
/// `assets[i + 1]`, listed in either order.
pub open spec fn connects<T: Config>(t: T, list: Seq<CurrencyId>, assets: Seq<CurrencyId>) -> bool {
    &&& assets.len() == list.len() + 1
    &&& forall|i: int|
        0 <= i < list.len() ==> {
            &&& #[trigger] spec_pool_info(t, list[i]) is Ok
            &&& spec_assets_allowed(t, spec_pool_info(t, list[i])->Ok_0.pool)
            &&& (spec_pool_info(t, list[i])->Ok_0.pool == (assets[i], assets[i + 1])
                || spec_pool_info(t, list[i])->Ok_0.pool == (assets[i + 1], assets[i]))
        }
}

/// Every route through distinct pools that carry the asset sold to the asset
/// bought is accepted, whichever of its two assets each pool lists first:
/// the i-th swap sells `assets[i]` for `assets[i + 1]` on the i-th pool.
pub proof fn lemma_connected_route_is_accepted<T: Config>(
    t: T,
    list: Seq<CurrencyId>,
    asset_in: CurrencyId,
    asset_out: CurrencyId,
    assets: Seq<CurrencyId>,
)
    requires
        !t.spec_is_maintenance(),
        list.len() > 0,
        no_duplicates(list),
        connects(t, list, assets),
        assets[0] == asset_in,
        assets.last() == asset_out,
    ensures
        spec_validate_multiswap(t, list, asset_in, asset_out) is Ok,
        ({
            let (pools, path) = spec_validate_multiswap(t, list, asset_in, asset_out)->Ok_0;
            &&& pools.len() == list.len()
            &&& path.len() == list.len()
            &&& forall|i: int| 0 <= i < list.len() ==> #[trigger] path[i] == (assets[i], assets[i + 1])
            &&& forall|i: int| 0 <= i < list.len() ==> Ok::<PoolInfo, Error>(#[trigger] pools[i]) == spec_pool_info(t, list[i])
        }),
{
    lemma_connected_route(t, list, asset_in, assets);
}

/// `spec_route` accepts a connected list of pools, with the swaps it carries.
proof fn lemma_connected_route<T: Config>(
    t: T,
    list: Seq<CurrencyId>,
    asset_in: CurrencyId,
    assets: Seq<CurrencyId>,
)
    requires
        connects(t, list, assets),
        assets[0] == asset_in,
    ensures
        spec_route(t, list, asset_in) is Ok,
        ({
            let (pools, path) = spec_route(t, list, asset_in)->Ok_0;
            &&& pools.len() == list.len()
            &&& path.len() == list.len()
            &&& spec_current_asset(asset_in, path) == assets[list.len() as int]
            &&& forall|i: int| 0 <= i < list.len() ==> #[trigger] path[i] == (assets[i], assets[i + 1])
            &&& forall|i: int| 0 <= i < list.len() ==> Ok::<PoolInfo, Error>(#[trigger] pools[i]) == spec_pool_info(t, list[i])
        }),
    decreases list.len(),
{
    if list.len() > 0 {
        let n = list.len() - 1;
        let prefix = list.drop_last();
        let prefix_assets = assets.drop_last();
        assert forall|i: int| 0 <= i < prefix.len() implies {
            &&& #[trigger] spec_pool_info(t, prefix[i]) is Ok
            &&& spec_assets_allowed(t, spec_pool_info(t, prefix[i])->Ok_0.pool)
            &&& (spec_pool_info(t, prefix[i])->Ok_0.pool == (prefix_assets[i], prefix_assets[i + 1])
                || spec_pool_info(t, prefix[i])->Ok_0.pool == (prefix_assets[i + 1], prefix_assets[i]))
        } by {
            assert(prefix[i] == list[i]);
            assert(spec_pool_info(t, list[i]) is Ok);
        }
        lemma_connected_route(t, prefix, asset_in, prefix_assets);
        let (pools, path) = spec_route(t, prefix, asset_in)->Ok_0;
        assert(spec_pool_info(t, list[n]) is Ok);
        let info = spec_pool_info(t, list.last())->Ok_0;
        assert(spec_hop(assets[n], info.pool) == Some::<AssetPair>((assets[n], assets[n + 1])));
        let (pools2, path2) = spec_route(t, list, asset_in)->Ok_0;
        assert(pools2 == pools.push(info));
        assert(path2 == path.push((assets[n], assets[n + 1])));
        assert forall|i: int| 0 <= i < list.len() implies #[trigger] path2[i] == (assets[i], assets[i + 1]) by {
            if i < n {
                assert(path2[i] == path[i]);
            }
        }
        assert forall|i: int| 0 <= i < list.len() implies Ok::<PoolInfo, Error>(#[trigger] pools2[i]) == spec_pool_info(t, list[i]) by {
            if i < n {
                assert(pools2[i] == pools[i]);
                assert(prefix[i] == list[i]);
            }
        }
    }
}

} // verus!
