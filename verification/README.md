# inscribe

An Internet Computer canister that etches and mints Bitcoin runes from
threshold-ECDSA and threshold-Schnorr keys, and converts ckBTC back to BTC.

`src/` is the verified library. It builds every transaction the canister
sends and decides every check it makes; each public function has a Verus
contract, and the laws of the library are public proof functions.

- `txplan`: transactions as plain values, coin selection for transfers.
- `mint`: the mint transaction, the loop that settles its fee, P2PKH signing.
- `etching`, `etch_flow`: the etching checks, the commit and reveal
  transactions, and the three steps between signatures
  (`begin_etching`, `sign_commit`, `finish_reveal`).
- `der`, `script`: DER signatures, data pushes, the reveal script.
- `state`, `upgrade`: the canister state, its reveal queue, the stable
  memory frame.
- `canister`, `signing`, `schnorr`, `types`: endpoint decisions, key and
  signature replies, argument types.
- `foreign`: the calls into `bitcoin`, `ordinals`, `hex`, `candid`,
  `icrc-ledger-types` and std, each with the contract it is trusted with.

`app/` is the canister itself: endpoints, stable memory, and the calls to the
management canister and the ckBTC canisters, which run the library's steps
and hand it the signatures and chain data they fetch.
