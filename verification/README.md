# bounty_escrow

Per-bounty analytics for a Soroban bounty escrow contract.

- `src/` (Verus): the analytics records, the rules that create a record when a
  bounty is locked and update it on each release or refund, and the laws those
  rules obey (balance of locked against released, refunded and remaining
  amounts; exact totals and counters over any lifecycle).
- `app/`: the Soroban side: `#[contracttype]` copies of the records, persistent
  storage reads and writes around the verified update rules, and event
  publication.
- `tests/`: tests of the library.
