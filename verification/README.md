# claimable_yield

Claimable yield for token accounts of a token program, verified with Verus.

- `src/state.rs`: the yield formula `calculate_yield` and the mint and
  account extension state (`ClaimableYieldConfig`, `ClaimableYieldAccount`),
  with `accrue_result` describing how pending yield accrues.
- `src/instruction.rs`: the extension's instructions, their builders and the
  decoding of instruction data.
- `src/processor.rs`: the processor's state transitions over the parts of
  mints and token accounts that it reads and writes, and the dispatch of a
  decoded instruction. Each step takes the key of the account that
  authorizes it and refuses any key other than the required authority;
  checking that account's signature is left to the caller.
- `src/pubkey.rs`, `src/pod.rs`: keys, optional keys and little-endian
  integers, converted through spl-pod.
- `src/laws.rs`: properties that span the operations (rounding, idempotent
  accrual, a never-decreasing index, conservation on claim, and decoding
  what the builders encode).
- `app/`: the same types with the on-chain `Pod` layout and serde, and the
  builders over the Solana SDK's types.
