# tee_worker

Verified core of a TEE worker for a parachain, written in Verus.

- `src/weights.rs` — benchmarked weight functions of the proxy pallet,
  with saturating two-dimensional weights.
- `src/identity.rs` — user identities and the parentchain accounts they control.
- `src/getter.rs` — public and trusted getters answering from the shard state.
- `src/state.rs` — the key-value state of a shard and its recorded diff.
- `src/executor.rs` — the STF executor: single calls, batches within a time
  budget, and state updates on new parentchain blocks.
- `src/a4.rs` — assertion A4 (LIT holding time) as a lazy search over the
  data provider's answers.
- `src/assertion_handler.rs`, `src/vcmp.rs` — credential requests and their errors.
- `src/error.rs` — errors of indirect-call execution.
- `src/ocall_factory.rs` — components behind the enclave's ocalls.
- `src/service.rs` — decisions of the worker service (services per mode,
  configuration sources and overrides, enclave registry checks).
- `src/scale.rs`, `src/hashing.rs` — SCALE encoding and hashing.

`app/` holds the command line front end; `tests/` the tests.
