//! The shape of the buyer's workflow: which state follows which, which states
//! can be cancelled, and how a state's answer is judged.

use vstd::prelude::*;
use crate::types::{ErrorKind, Input, RespondView, StateId, StateProcessRespond};

verus! {

/// Seconds after the MWC redeem transaction was posted before it is posted
/// again when no node has seen it.
pub const POST_MWC_RETRY_PERIOD: i64 = 300;

/// Seconds after the secondary refund transaction was posted before it is
/// posted again when no node has seen it.
pub const POST_SECONDARY_RETRY_PERIOD: i64 = 300;

/// The outcome a state's rules give for one input.
pub enum Verdict {
    /// The state answers with this respond.
    Respond(RespondView),
    /// Work outside the workflow failed with this error, which is passed on.
    Fail(ErrorKind),
    /// The state does not take the input; the error carries the given text.
    InvalidInput(Seq<char>),
}

/// `r` is what `v` describes.
pub open spec fn answered(r: Result<StateProcessRespond, ErrorKind>, v: Verdict) -> bool {
    match v {
        Verdict::Respond(p) => r matches Ok(q) && q@ == p,
        Verdict::Fail(e) => r == Err::<StateProcessRespond, ErrorKind>(e),
        Verdict::InvalidInput(text) => r matches Err(ErrorKind::InvalidSwapStateInput(t))
            && t@ == text,
    }
}

/// The states of the buyer's own workflow.
pub open spec fn is_buyer_state(id: StateId) -> bool {
    id != StateId::SellerWaitingForRefundHeight
}

/// The state that follows `id` on the successful path of the workflow.
pub open spec fn next_state_of(id: StateId) -> Option<StateId> {
    match id {
        StateId::BuyerOfferCreated => Some(StateId::BuyerSendingAcceptOfferMessage),
        StateId::BuyerSendingAcceptOfferMessage => Some(StateId::BuyerWaitingForSellerToLock),
        StateId::BuyerWaitingForSellerToLock => Some(StateId::BuyerPostingSecondaryToMultisigAccount),
        StateId::BuyerPostingSecondaryToMultisigAccount => Some(StateId::BuyerWaitingForLockConfirmations),
        StateId::BuyerWaitingForLockConfirmations => Some(StateId::BuyerSendingInitRedeemMessage),
        StateId::BuyerSendingInitRedeemMessage => Some(StateId::BuyerWaitingForRespondRedeemMessage),
        StateId::BuyerWaitingForRespondRedeemMessage => Some(StateId::BuyerRedeemMwc),
        StateId::BuyerRedeemMwc => Some(StateId::BuyerWaitForRedeemMwcConfirmations),
        StateId::BuyerWaitForRedeemMwcConfirmations => Some(StateId::BuyerSwapComplete),
        StateId::BuyerWaitingForRefundTime => Some(StateId::BuyerPostingRefundForSecondary),
        StateId::BuyerPostingRefundForSecondary => Some(StateId::BuyerWaitingForRefundConfirmations),
        StateId::BuyerWaitingForRefundConfirmations => Some(StateId::BuyerCancelledRefunded),
        _ => None,
    }
}

/// The state that precedes `id` on the successful path of the workflow.
pub open spec fn prev_state_of(id: StateId) -> Option<StateId> {
    match id {
        StateId::BuyerSendingAcceptOfferMessage => Some(StateId::BuyerOfferCreated),
        StateId::BuyerWaitingForSellerToLock => Some(StateId::BuyerSendingAcceptOfferMessage),
        StateId::BuyerPostingSecondaryToMultisigAccount => Some(StateId::BuyerWaitingForSellerToLock),
        StateId::BuyerWaitingForLockConfirmations => Some(StateId::BuyerPostingSecondaryToMultisigAccount),
        StateId::BuyerSendingInitRedeemMessage => Some(StateId::BuyerWaitingForLockConfirmations),
        StateId::BuyerWaitingForRespondRedeemMessage => Some(StateId::BuyerSendingInitRedeemMessage),
        StateId::BuyerRedeemMwc => Some(StateId::BuyerWaitingForRespondRedeemMessage),
        StateId::BuyerWaitForRedeemMwcConfirmations => Some(StateId::BuyerRedeemMwc),
        StateId::BuyerSwapComplete => Some(StateId::BuyerWaitForRedeemMwcConfirmations),
        StateId::BuyerPostingRefundForSecondary => Some(StateId::BuyerWaitingForRefundTime),
        StateId::BuyerWaitingForRefundConfirmations => Some(StateId::BuyerPostingRefundForSecondary),
        StateId::BuyerCancelledRefunded => Some(StateId::BuyerWaitingForRefundConfirmations),
        _ => None,
    }
}

/// The states in which the user may still cancel the swap: every state up to
/// and including the MWC redeem.
pub open spec fn cancellable(id: StateId) -> bool {
    match id {
        StateId::BuyerOfferCreated
        | StateId::BuyerSendingAcceptOfferMessage
        | StateId::BuyerWaitingForSellerToLock
        | StateId::BuyerPostingSecondaryToMultisigAccount
        | StateId::BuyerWaitingForLockConfirmations
        | StateId::BuyerSendingInitRedeemMessage
        | StateId::BuyerWaitingForRespondRedeemMessage
        | StateId::BuyerRedeemMwc => true,
        _ => false,
    }
}

/// The rules every buyer state keeps in its answer `r` to `input`:
/// a `Cancel` is taken exactly when the state is cancellable, and an answer
/// that asks for an action or sets a deadline stays in the state `id`.
pub open spec fn follows_workflow(id: StateId, input: Input, r: Result<StateProcessRespond, ErrorKind>) -> bool {
    &&& input is Cancel ==> (r is Ok <==> cancellable(id))
    &&& r matches Ok(p) ==> ((p.action is Some || p.time_limit is Some) ==> p.next_state_id == id)
}

/// The answer `r` names a state of the buyer's workflow, if any.
pub open spec fn stays_on_buyer_side(r: Result<StateProcessRespond, ErrorKind>) -> bool {
    r matches Ok(p) ==> is_buyer_state(p.next_state_id)
}

} // verus!
