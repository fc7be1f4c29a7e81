# buyer_swap

The buyer's side of an MWC / secondary-currency atomic swap, as verified
state handlers written in Verus.

- `src/types.rs`: the swap view, confirmations, inputs, actions, answers and
  errors the handlers work with.
- `src/workflow.rs`: the shape of the workflow (successor and predecessor of
  each state, cancellable states), the verdict an answer is judged by, and the
  rules every state keeps.
- `src/offer.rs`, `src/lock.rs`, `src/redeem.rs`, `src/refund.rs`,
  `src/done.rs`: one type per state, each with a rule function in spec code
  and a `process` method whose contract is that rule.
- `src/chain.rs`: the transaction check taken from `grin_core`.
- `src/laws.rs`: properties that span states or inputs.

Work that needs keys, the network or the wallet is passed to `process` as a
closure and called only where the workflow needs it; the current time is an
argument.
