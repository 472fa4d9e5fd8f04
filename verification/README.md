# trustpay

A business registry and a buyer/seller escrow for Solana, written as verified
state transitions.

- `src/trustpay.rs`: the program's six instructions (register and verify a
  business; create, release, refund and close an escrow), each with a spec
  function that says exactly what it does to its accounts and what it returns.
- `src/lib.rs`: the account data, the instruction contexts, the errors and the
  constants (TrustPay's authority key, the escrow states).
- `src/state/`, `src/errors.rs`, `src/instructions/`: the per-instruction
  handlers, with their own account data, states and errors.
- `src/laws.rs`: properties across instructions (failures change nothing,
  only TrustPay registers/verifies/refunds/closes, a release pays only the recorded
  seller, lamports are conserved, the escrow keeps its rent, an escrow's
  funds leave it at most once, the escrow and business life cycles).
- `app/lib.rs`: the Anchor program around the library: account loading and
  checks, the lamport transfers, the logs.
