# farmer_piece_getter

Verified decision logic of a Subspace farmer's remote piece getter, and the
benchmarked weights of the auto-id pallet.

- `src/` (verified with Verus):
  - `weights.rs`: the pallet's `WeightInfo`, for a runtime's database costs
    (`SubstrateWeight`) and for ParityDB (`()`), with laws on the weight formula.
  - `fast_lookup.rs`, `slow_lookup.rs`, `cluster_lookup.rs`: the lookups of one
    piece (farmer cache, DSN cache, node; local plot, archival storage; cluster
    cache and controller) as state machines from answer to next request.
  - `batch_fetch.rs`: the lookup of many pieces at once, with the laws that every
    missing index is answered and that no delivered piece is answered with an error.
- `app/`: the asynchronous drivers that perform the requests these machines
  decide on, and the bridge from a FRAME runtime's configuration to its database
  costs.
