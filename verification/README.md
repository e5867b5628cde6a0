# astria-conductor

The decision logic of the conductor's executor, proved with Verus, and the
gRPC plumbing of the sequencer block service around it.

- `src/types.rs`: blocks, commitment states, sequencer block subsets and
  their mathematical views.
- `src/executed_blocks.rs`: the map from sequencer block hashes to the
  execution blocks they gave, with its well-formedness invariant. It is a
  `Vec` of entries with a ghost `Map` as its model rather than a `HashMap`:
  vstd's specification of `HashMap` lets Verus prove what a lookup returns
  only for key types whose hashing and equality it models (integers and the
  like), not for byte strings or CometBFT hashes, so with a `HashMap` keyed by
  block hashes nothing about the executed blocks could be proved.
- `src/executor.rs`: the executor as a state machine; `Executor::step`
  takes an event and returns the next request to the execution service.
- `src/laws.rs`: properties over several steps (reuse of executed blocks,
  soft and firm round trips, failures, shutdown).
- `src/sequencer_service.rs`: method names and request paths of the
  sequencer block service and the routing of paths to methods.
- `src/time.rs`: CometBFT times as protobuf timestamps.
- `app/`: the protobuf messages, the tonic client and server, and the
  executor task that performs the requests.
