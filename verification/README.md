# market

The Market pallet routes liquidity operations and multi-pool swaps over two
kinds of pools, Xyk and StableSwap. This crate holds its logic, verified with
Verus, together with the weight formulas that accompany it.

The pallet reaches the chain only through the `Config` trait, which the
runtime implements: reads of chain state, state-changing calls whose results
the runtime decides, and storage layers. Each state-changing call leaves a
record in the runtime's log of calls and in its trace, the calls whose changes
stand; rolling a storage layer back removes its records from the trace. Each
call of the pallet runs in a storage layer of its own, so a call that fails
leaves the trace as it was. The contracts of the pallet's calls say which
calls they make, with which arguments, and how what the runtime returned
decides their own result.

- `dispatch`: origins, dispatch errors and post-dispatch information.
- `weight`: two-dimensional weights with saturating arithmetic, database costs.
- `market`: pool kinds, errors, events, the `Config` trait, pool lookup.
- `route`: validation of the route of a multiswap.
- `plans`: the decisions that need no runtime (amounts, minimums, outcomes).
- `effects`: the checks and the effects of each call, as spec functions, and
  the laws of multiswaps.
- `pallet`: the calls of the pallet.
- `market_weights`, `collective_weights`: weight functions.

The tests under `tests/` exercise the pallet against a mock runtime.
