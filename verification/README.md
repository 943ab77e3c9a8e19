# islamic_shariah_validator

Validation of Islamic financial contracts against Shariah principles (Riba,
Gharar, Maysir, asset backing, profit sharing, Halal industry), written in
Verus: every rule is stated as a specification and the validator is proved
to follow it.

## Layout

- `src/` — the verified library.
  - `types.rs`: contracts, sectors, violation codes, reports.
  - `rules.rs`: each Shariah rule as a function from a contract to the
    violations (and warnings) it gives rise to, with the exact messages.
  - `validator.rs`: `ShariahValidator`, proved to produce exactly those reports.
  - `laws.rs`: what holds of every validation (a report is valid exactly when
    the contract complies with every principle, and more).
  - `text.rs`: lowercasing, substring search, decimal rendering.
  - `fabric.rs`, `nym.rs`, `indy.rs`: ledger, mixnet and identity layers.
  - `mudarabah.rs`: the admission rule of the command line.
  - `clock.rs`: the machine's clock as Unix seconds and as RFC 3339 text.
  - `about.rs`: version, name, description and repository of the package.
- `app/` — the command-line program, JSON and WebAssembly entry points, the
  asynchronous Indy agent interface and the serde forms of the types.
- `tests/` — tests of the library.

## Fixed-point quantities

Rates, profit shares, Gharar scores and thresholds are counted in millionths
(`ONE` = 1 000 000 stands for 1.0, i.e. 100%). The tolerance on a sum of
shares, 1e-6, is one millionth. `app/model.rs` converts the floating-point
values of JSON contracts.

Sums of fixed-point values are exact. The Gharar score 0.1 + 0.2 + 0.2 is
exactly 0.5, so it does not exceed a threshold of 0.5 (a floating-point sum
gives 0.5000000000000001 and would).

## Reproducible scoring

A report depends on the validator's settings and on the contract alone: a
maturity counts as distant when it lies more than five years after the
contract's signing, so no clock enters a validation.

## Indy

DIDs and credential identifiers are UUIDs made of 16 random bytes that the
caller draws and hands in; the library renders them. The Indy layer offers
the in-memory `MockIndyClient` (and, in `app/`, the
asynchronous `IndyAgent` interface it implements). No client backed by the
Hyperledger Indy SDK is provided: the SDK crate on the registry is a
deprecated C-callable library without the asynchronous wallet, DID, ledger
and pool modules such a client calls.
