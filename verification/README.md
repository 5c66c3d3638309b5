# state-history-forensic

The `[H]` state-history vocabulary: types and traits that lift each navigation
primitive (disk, memory, log, query) to a time-indexed variant, written in Verus
with its behaviour stated in contracts and proved.

## Layout

- `src/identity.rs`: identity claims, disciplines, claim matching and the cohort
  key fold; `src/identity/address.rs`: the `[P]` persistent address, its canonical
  key (`canonical_bytes`) and the panic-free decoder (`decode`), each specified
  against a layout written as spec functions; `src/identity/address_laws.rs`:
  round trip, only-canonical-keys-decode and injectivity of the key;
  `src/identity/claim_laws.rs`: symmetry of matching, logical stability as path or
  record sameness, and cohort keys that agree for matching claims and ignore
  unfitting ones.
- `src/cohort.rs`: timestamps, temporal states and cohorts, with `at` and
  `nearest` specified by which state they pick.
- `src/clock.rs`, `src/epoch.rs`, `src/source.rs`: provenance, epoch and
  materialization vocabulary and the traits sources implement.
- `src/text.rs`: verified decimal rendering; UTF-8 decoding and path comparison,
  each a call into the standard library behind a contract.
- `app/lib.rs`: the streaming `HistoricalSource` trait, conversions to and from
  `forensicnomicon_core::FileId`, and `Display`/`Error` for decode failures.
