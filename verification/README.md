# waveflow

Bounty escrow with merge-triggered payouts: maintainers fund a program, register
contributors by GitHub username, and a gateway oracle turns merged pull requests
into payouts. The logic is a Verus-verified library; the HTTP services around it
are ordinary Rust.

## Layout

- `src/escrow.rs`, `src/escrow_model.rs`, `src/escrow_laws.rs`: the escrow
  contract, the state machine it is proved to follow, and the laws proved of that
  state machine (conservation of escrowed funds, at most one payout per merged
  PR, milestone caps, registrations that last, pauses that hold until a resume,
  refusals change nothing, ...). The contract is written as a plain Rust value,
  without the Soroban SDK: it keeps its own state (configuration, programs,
  contributors, paid PRs) in its fields, publishes its events to a log, and asks
  its host to move tokens by recording each transfer it requests. Every entry
  point acts for a party it names (admin, maintainer, funder, caller or gateway)
  and refuses the call with `MissingAuthorization` unless that party signed it;
  the host sets who signed (`set_signers`, or `authorize_all` in tests). The
  token ledger itself is the host's.
- `src/webhook.rs`, `src/crypto.rs`: GitHub signature verification (HMAC-SHA256
  via `hmac`/`sha2`, hex via `hex`, constant-time comparison via `subtle`, each
  behind a trusted wrapper) and merge-event parsing.
- `src/webhook_flow.rs`: the webhook handler's decisions as a state machine that
  the gateway drives, with the payout guard and bounded answering proved.
- `src/config.rs`, `src/service.rs`, `src/attestation.rs`, `src/types.rs`,
  `src/error.rs`, `src/text.rs`: configuration, access and readiness rules,
  attestation building, shared types and validators, errors, string helpers.
- `app/`: the gateway and API services (axum, sqlx, reqwest, metrics, utoipa),
  which perform the I/O that the library asks for.
- `tests/`: scenario tests of the library.

`zip` is named in `Cargo.toml` only to hold the build dependency of
`utoipa-swagger-ui` (its build script unpacks the vendored Swagger UI) at a
version that builds with this toolchain; no code here calls it.
