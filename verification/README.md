# zallet_core

The decision logic of the Zallet wallet, verified with Verus: what its JSON-RPC methods and
commands check, refuse, compute and do next.

- `src/` is the library. It does no I/O. What alternates between outside work and decisions is
  a chain of states: each state has a method for what comes back from outside, and that method
  gives the next state or the error. Calls into other crates that only compute stand behind
  trusted functions, each with a doc comment that says what is claimed and not proved.
- `tests/` runs the library with those crates.
- `app/` performs the outside work: the database, the chain, the PIR network and the tasks.

| module | what it decides |
| --- | --- |
| `fund_source`, `spend_policy` | where a transaction may draw its funds from |
| `send_from_account` | whether, and with what, `z_sendfromaccount` goes on |
| `pir` | which notes are unspent, and which witnesses are stored |
| `spendable_balance` | `z_getspendablebalance` |
| `import_viewing_key`, `keys` | `z_importviewingkey` |
| `import_address`, `transparent` | `import-address` |
| `start` | startup and supervision of the wallet's tasks |
| `check_witnesses` | `repair check-witnesses` |
| `init_wallet_encryption` | `init-wallet-encryption` |
| `method_logger` | what is logged of a call |
| `error`, `keystore_error`, `sync_error` | errors and their texts |
| `network`, `value`, `text` | networks, heights, amounts, numerals |
