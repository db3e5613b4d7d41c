# veritixpay

The rules of the VeriTix payment contract, verified with Verus.

`src/` is the verified library. Each module keeps what the contract stores
about one concern as plain values (accounts are numbers, assigned one to one
to host addresses) and offers the contract's operations as functions whose
contracts state the exact result, the exact refusal, and the exact change of
state:

- `admin`: admin identity, two-step rotation with an activation delay, the
  admin check;
- `pause`: the pause switch and how long it has been on;
- `freeze`: permanent and timed freezes of accounts;
- `whitelist`: whitelist mode, single, batch and signed bulk additions with
  replay protection;
- `dispute`, `dispute_limit`: raising, resolving (with mediation fee),
  appealing and expiring escrow disputes, resolver statistics, claimant
  indexes, the per-escrow dispute limit;
- `signed`: the bulk-whitelist message and its SHA-256 digest, computed
  through `soroban_sdk`;
- `validation`: shared input checks;
- `types`, `error`: records, constants and refusals.

Laws that relate several operations are public proof functions beside the
operations they speak of (`lemma_*`).

`app/` is the Soroban contract around the library: it reads and writes
contract storage, requires authorizations, verifies the admin's ed25519
signature, makes token transfers and publishes events.
