# kernel_wallet

A silent payments wallet and the decisions of the Bitcoin node that feeds it, verified with Verus.

- `keys`, `keys_file`, `generate`: keys, the 69-byte keys file, fresh keys and taproot addresses
- `address`, `sending`, `coins`, `silent_payments`, `transaction`: whom to pay, which coins to draw,
  and the signed transaction that does it
- `wallet`: coins, coins set aside for payments under way, and what a failed broadcast frees
- `broadcast`, `net`, `tasks`: which peer to try next, when a transaction counts as delivered, and
  what each background task does with what arrives
- `ext`, `text`, `cli`: networks, paths and what people read
- `secp`: the curve, and the calls into the `secp256k1` crate

What the library takes from other crates is called behind functions marked
`#[verifier::external_body]`; the comment above each says what is believed of the call.

`app/` is the program around the library: arguments, files, sockets, threads and the validation
engine. `tests/` runs the library against the real crates.

Payments take no fee off the change: what the drawn coins are worth beyond the target goes back to
the wallet's own change address.
