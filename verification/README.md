# trusttrove

Verified core of the TrusTrove invoice-financing protocol on Soroban.

- `src/` is the library, verified with Verus: the identity registry, the
  invoice lifecycle, the escrow ledger, the share-based USDC liquidity pool,
  the pool factory, and `protocol`, the flows that cross them (funding,
  repayment, default), and `bookkeeping`, the laws that keep the invoice
  status counters and lists exact. Every public function states exactly what it returns
  and how it changes the state; the laws of the protocol are public proof
  functions next to the functions they speak of.
- `app/` is the host layer: it maps Soroban addresses and invoice ids to the
  library's values, demands authorizations, reads the ledger clock, carries
  out the token transfers the library returns and publishes events.
- `tests/` exercise the library end to end, with token balances simulated by
  applying the transfers the library returns.
