//! The states where the swap has ended. They only answer `Check`, with
//! themselves.

use vstd::prelude::*;
use crate::types::{
    invalid_input, invalid_input_text, moved, ErrorKind, Input, StateId, StateProcessRespond, Swap,
    SwapTransactionsConfirmations,
};
use crate::workflow::{answered, follows_workflow, next_state_of, prev_state_of, cancellable,
    stays_on_buyer_side, Verdict};

verus! {

/// The rules of a state `id`, named `name`, where the swap has ended: `Check`
/// stays in `id`, nothing else is taken.
pub open spec fn final_state_step(id: StateId, name: Seq<char>, input: Input) -> Verdict {
    match input {
        Input::Check => Verdict::Respond(moved(id)),
        _ => Verdict::InvalidInput(invalid_input_text(name, input)),
    }
}

// ---------------------------------------------------------------------------
// BuyerSwapComplete

/// State BuyerSwapComplete: the swap is done: the buyer has redeemed the MWC.
pub struct BuyerSwapComplete {}

impl BuyerSwapComplete {
    /// Create new instance
    pub fn new() -> (s: Self)
        ensures
            s == (BuyerSwapComplete {}),
    {
        Self {}
    }

    pub fn get_state_id(&self) -> (id: StateId)
        ensures
            id == StateId::BuyerSwapComplete,
    {
        StateId::BuyerSwapComplete
    }

    pub fn get_name(&self) -> (name: String)
        ensures
            name@ == "Swap is completed sucessufully"@,
    {
        String::from_str("Swap is completed sucessufully")
    }

    pub fn is_cancellable(&self) -> (c: bool)
        ensures
            c == cancellable(StateId::BuyerSwapComplete),
    {
        false
    }

    /// Process the state. Result will be the next state
    pub fn process(
        &mut self,
        input: Input,
        swap: &mut Swap,
        tx_conf: &SwapTransactionsConfirmations,
        now: i64,
    ) -> (r: Result<StateProcessRespond, ErrorKind>)
        ensures
            *final(swap) == *old(swap),
            answered(r, final_state_step(StateId::BuyerSwapComplete, "BuyerSwapComplete"@, input)),
            follows_workflow(StateId::BuyerSwapComplete, input, r),
            stays_on_buyer_side(r),
    {
        match input {
            Input::Check => Ok(StateProcessRespond::new(StateId::BuyerSwapComplete)),
            _ => Err(invalid_input("BuyerSwapComplete", &input)),
        }
    }

    pub fn get_prev_swap_state(&self) -> (s: Option<StateId>)
        ensures
            s == prev_state_of(StateId::BuyerSwapComplete),
    {
        Some(StateId::BuyerWaitForRedeemMwcConfirmations)
    }

    pub fn get_next_swap_state(&self) -> (s: Option<StateId>)
        ensures
            s == next_state_of(StateId::BuyerSwapComplete),
    {
        None
    }
}

// ---------------------------------------------------------------------------
// BuyerCancelled

/// State BuyerCancelled: the swap was cancelled before any funds were locked.
pub struct BuyerCancelled {}

impl BuyerCancelled {
    /// Create new instance
    pub fn new() -> (s: Self)
        ensures
            s == (BuyerCancelled {}),
    {
        Self {}
    }

    pub fn get_state_id(&self) -> (id: StateId)
        ensures
            id == StateId::BuyerCancelled,
    {
        StateId::BuyerCancelled
    }

    pub fn get_name(&self) -> (name: String)
        ensures
            name@ == "Swap is cancelled, no funds was locked, no refund needed"@,
    {
        String::from_str("Swap is cancelled, no funds was locked, no refund needed")
    }

    pub fn is_cancellable(&self) -> (c: bool)
        ensures
            c == cancellable(StateId::BuyerCancelled),
    {
        false
    }

    /// Process the state. Result will be the next state
    pub fn process(
        &mut self,
        input: Input,
        swap: &mut Swap,
        tx_conf: &SwapTransactionsConfirmations,
        now: i64,
    ) -> (r: Result<StateProcessRespond, ErrorKind>)
        ensures
            *final(swap) == *old(swap),
            answered(r, final_state_step(StateId::BuyerCancelled, "BuyerCancelled"@, input)),
            follows_workflow(StateId::BuyerCancelled, input, r),
            stays_on_buyer_side(r),
    {
        match input {
            Input::Check => Ok(StateProcessRespond::new(StateId::BuyerCancelled)),
            _ => Err(invalid_input("BuyerCancelled", &input)),
        }
    }

    pub fn get_prev_swap_state(&self) -> (s: Option<StateId>)
        ensures
            s == prev_state_of(StateId::BuyerCancelled),
    {
        None
    }

    pub fn get_next_swap_state(&self) -> (s: Option<StateId>)
        ensures
            s == next_state_of(StateId::BuyerCancelled),
    {
        None
    }
}

// ---------------------------------------------------------------------------
// BuyerCancelledRefunded

/// State BuyerCancelledRefunded: the swap was cancelled and the secondary currency is refunded.
pub struct BuyerCancelledRefunded {}

impl BuyerCancelledRefunded {
    /// Create new instance
    pub fn new() -> (s: Self)
        ensures
            s == (BuyerCancelledRefunded {}),
    {
        Self {}
    }

    pub fn get_state_id(&self) -> (id: StateId)
        ensures
            id == StateId::BuyerCancelledRefunded,
    {
        StateId::BuyerCancelledRefunded
    }

    pub fn get_name(&self) -> (name: String)
        ensures
            name@ == "Swap is cancelled, refund is redeemed"@,
    {
        String::from_str("Swap is cancelled, refund is redeemed")
    }

    pub fn is_cancellable(&self) -> (c: bool)
        ensures
            c == cancellable(StateId::BuyerCancelledRefunded),
    {
        false
    }

    /// Process the state. Result will be the next state
    pub fn process(
        &mut self,
        input: Input,
        swap: &mut Swap,
        tx_conf: &SwapTransactionsConfirmations,
        now: i64,
    ) -> (r: Result<StateProcessRespond, ErrorKind>)
        ensures
            *final(swap) == *old(swap),
            answered(r, final_state_step(StateId::BuyerCancelledRefunded, "BuyerCancelledRefunded"@, input)),
            follows_workflow(StateId::BuyerCancelledRefunded, input, r),
            stays_on_buyer_side(r),
    {
        match input {
            Input::Check => Ok(StateProcessRespond::new(StateId::BuyerCancelledRefunded)),
            _ => Err(invalid_input("BuyerCancelledRefunded", &input)),
        }
    }

    pub fn get_prev_swap_state(&self) -> (s: Option<StateId>)
        ensures
            s == prev_state_of(StateId::BuyerCancelledRefunded),
    {
        Some(StateId::BuyerWaitingForRefundConfirmations)
    }

    pub fn get_next_swap_state(&self) -> (s: Option<StateId>)
        ensures
            s == next_state_of(StateId::BuyerCancelledRefunded),
    {
        None
    }
}

} // verus!
