# gpui_starter

The verified core of a desktop application starter: deep-link routing,
error and crash-report bookkeeping, storage and telemetry status, config
validation and save bookkeeping, secure-storage and localization fallbacks,
and the self-updater's decisions (including Ed25519 verification of
downloads). Every function in `src/` carries a contract. Verus proves all of
them except the small trusted wrappers around outside crates, whose
contracts are taken as given.

Layout:

- `src/text.rs`, `src/state/lex.rs`: character-level helpers (replacement,
  trimming, decimal text, lexicographic order) with their specifications.
- `src/shell/`: pages, deep-link and hash routes, status- and title-bar text.
- `src/services/`: accessibility, crash reports, the error surface,
  notifications, secure storage, localization, storage (status, worker
  protocol, SQLite row codec, request correlation), telemetry, updater.
- `src/state/`: config normalization, validation lints, save bookkeeping.
- `app/`: the process-facing side (environment, files, SQLite, keyring,
  window bounds), which hands plain values to the library.
- `tests/`: tests of the library through its public API.

Calls into outside crates (uuid, chrono, base64, sha2, ed25519-dalek,
serde_json) sit behind those wrappers, marked `#[verifier::external_body]`;
their contracts state what the crates' documentation and source show.
Where serde's derive reads or writes a library type (the stored list of
error actions, crash-report files, the update marker), `app/` does it on a
copy of the type and hands the library the result.
