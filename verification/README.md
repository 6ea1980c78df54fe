# ckb_tx_generator

Plans the transactions of a bridge between Ethereum and CKB: starting and
updating the light client of Ethereum on CKB, handing out tokens that were
locked on Ethereum, making bridge cells, burning and transferring tokens.

- `src/` decides what goes into each transaction, and keeps the light client's
  chain of headers. It is verified with Verus. Each function's contract says
  exactly what is planned, or why nothing is; `chain_laws.rs` and
  `plan_laws.rs` state what holds of every chain and every plan.
- `src/ckb.rs` and `src/hexadecimal.rs` hold the calls into `ckb_types` and
  `hex`, with the contracts that are taken for granted of them.
- `tests/` runs the library on concrete values.
- `app/` asks the nodes, and builds, funds, signs and sends what was planned.
  A wallet and the encodings of the bridge's own cells are handed to it.
