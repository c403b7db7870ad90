# nodara

The logic of the Nodara network, verified with Verus.

- `src/frame.rs`: origins, dispatch errors, saturating arithmetic and history
  pruning shared by the pallets.
- `src/bytemap.rs`: a map keyed by byte strings, viewed as a `Map<Seq<u8>, V>`.
- `src/pallets/`: each runtime pallet as a state machine over its storage;
  every extrinsic states, for every origin and input outside the few on
  which its arithmetic would overflow or divide by zero (left out by its
  `requires`), which error it returns or how the storage and the deposited
  events change. Where the runtime's
  asset manager decides (bridge finalisation), the contract states which
  call is made with which arguments, and what follows from its answer.
- `src/runtime.rs`: the pallets side by side and the node's queries.
- `src/offchain.rs`: off-chain sums, products and sorts (sequential, and
  parallel through rayon), the tasks that encode their results, and
  aggregation.
- `src/sdk.rs`, `src/cli.rs`: the client SDK and the command-line client's
  own computations.
- `src/hashing.rs`: the Blake2-128 hash, called through `sp_io`.
- `app/`: the command-line client, the node loop and the monitoring servers
  (I/O, async, metrics, floating-point averages, SCALE codec helpers).

The scenarios of each module are under `tests/`, one file per module.
