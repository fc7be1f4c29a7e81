//! The buyer's side of an MWC / secondary-currency atomic swap, as a set of
//! verified state handlers.
//!
//! Each state of the buyer's swap workflow is a type with the methods
//! `get_state_id`, `get_name`, `is_cancellable`, `process`,
//! `get_prev_swap_state` and `get_next_swap_state`. `process` takes an input
//! (`Check`, `Cancel`, `Execute`, an incoming message) together with a view of
//! the swap, the observed transaction confirmations and the current time, and
//! answers with the next state, the action the wallet should perform, and the
//! deadline of that action. Work that needs keys, the network or the wallet
//! (building a message, publishing a transaction, querying a balance) is
//! handed to `process` as a closure and is called only on the paths where the
//! workflow needs it.

pub mod types;
pub mod chain;
pub mod workflow;
pub mod offer;
pub mod lock;
pub mod redeem;
pub mod refund;
pub mod done;
pub mod laws;
pub mod state_laws;
