# creditra_credit

Credit lines for the Creditra protocol on Stellar Soroban, as a library
verified with Verus.

- `src/spec.rs` states the contract as a state machine: for each operation,
  the state it leads to or the reason it is refused.
- `src/contract.rs` implements every operation and proves it follows that
  transition and publishes exactly the event it reports to an `EventLog`;
  draws and repayments return the token movement to make and hold the
  reentrancy guard until `clear_reentrancy_guard` is called after it.
- `src/events.rs` holds the event schema: each event's topics and payload,
  and the publishing functions that append one entry to the log.
- `src/book.rs` keeps one credit line per borrower; `src/laws.rs` proves the
  protocol's properties (no line ever owes more than its limit, operations on
  one borrower leave the others alone, repaying a draw undoes it, only the
  admin changes configuration and existing lines, and so on).
- `app/lib.rs` is the Soroban contract: it reads and writes ledger storage,
  checks authorization, queries and moves tokens, and publishes the log's
  entries on the ledger in order, around calls into the library.
