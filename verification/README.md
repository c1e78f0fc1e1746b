# bolt12_payment

The decisions and the storage format behind a payment handler for BOLT 12 offers, refunds and
recurring payments, verified with Verus.

The library never talks to a node, a store or a clock. A method of `Bolt12Payment` takes what the
store answered and returns either an error or a value that says what to do next; whoever runs it
does that and hands the outcome back to the value:

- `initiate_recurrence` and `pay_next_recurrence` lead to a `Submission`, whose stages record the
  attempt, record the payment, submit the request and record what came of it.
- `cancel_recurrence` leads to a `Cancellation`, whose stages record that it is pending, abandon the
  attempt, tell the payee and record that the recurrence is cancelled.
- `send` and `send_using_amount` lead to an `OfferPayment`, `receive` to an `OfferPlan`,
  `initiate_refund` to a `RefundPlan`, `create_payer_proof` to a `ProofPlan`.

`RecurrenceState` is persisted as a length-prefixed stream of type-length-value records. Reading is
proved to give back what was written, and never to yield a state that breaks an invariant.

- `src/` is the verified library. `src/laws.rs`, `src/records.rs` and the `law_` functions elsewhere
  state what holds across operations. `src/bindings.rs` holds the contracts of functions of other
  crates, which are taken on trust.
- `tests/` runs the library against those crates.
- `app/` runs the decisions with a channel manager of the `lightning` crate.
