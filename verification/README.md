# quorum_credit

The decision logic of a social-collateral lending contract, written in Verus:
vouchers stake tokens for a borrower, the borrower takes a loan within the
collateral ratio of those stakes, repays it (vouchers receive their stake and a
share of the yield) or defaults (stakes are slashed), plus the contract's
auxiliary features (liquidity farming and mining, prediction markets, loan
carts and priority waterfalls, loan tokenization, pool composability, quorum
slices, relay, rate limiting, API metrics).

Layout:

- `src/` — the verified library. Each operation takes the stored records and
  the current time as plain values and returns the records to store and the
  token transfers to make; its contract states exactly which error comes on
  which input and what the result is. Laws that relate several operations are
  public proof functions next to the operations they speak of.
- `src/sdk.rs` — the only calls into the Soroban SDK (SHA-256 and the XDR
  of a vouch and of a relay attestation), behind trusted wrappers.
- `tests/` — the behaviour on concrete values.
- `app/` — host glue: storage, ledger time, token transfers and signature
  checks around the library's decisions.
