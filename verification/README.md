# stellar_guilds

Two gates of a Stellar guild contract, with their decisions verified by Verus:

- `spam_protection`: the proof-of-work check on guild creation (non-empty hash,
  leading zero bits, fresh nonce recorded in a host `soroban_sdk::Map`).
- `upgrade_mfa`: the two-signature upgrade approval (admin proposes, backup key
  confirms within a one-hour window), over a plain model of the contract's
  storage entries.

`src/sdk.rs` declares the `soroban_sdk` collections the library reads and states
what their methods do. `src/upgrade_mfa/laws.rs`, `src/upgrade_mfa/history.rs` (laws over any sequence of calls) and the proof functions at the
end of `src/spam_protection/verification.rs` state properties that span calls.

`app/` is the contract-facing side: ledger storage, the ledger clock,
`require_auth`, and the contract types with their `soroban_sdk` derives.
