# drip_stream

Verified core of two Soroban contracts: the stream contract's yield-vault
integration and the batch transfer processor.

- `src/` is the Verus library: error codes, the vault operation protocol
  (`stream::yield_integration`), the rebate arithmetic, batch totals and the
  re-entrancy guard decisions (`batch_transfer_processor`), and in `sdk.rs`
  the trusted declarations of the `soroban_sdk` items it calls.
- `app/` holds the contract glue that Verus does not see: entry points,
  instance storage, events, ledger time, and the `#[contracttype]` /
  `#[contracterror]` copies of the library's types.
- `tests/` exercises the library.

Run `verus` on `src/lib.rs` to check the proofs.
