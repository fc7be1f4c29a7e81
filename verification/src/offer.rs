//! The offer phase: the buyer gets the seller's offer, accepts it, and waits
//! for the seller to lock the MWC when the seller locks first.

use vstd::prelude::*;
use crate::types::{
    asked, confs, invalid_input, invalid_input_text, moved, Action, ActionView, ErrorKind, Input, Message,
    StateId, StateProcessRespond, Swap, SwapTransactionsConfirmations,
};
use crate::workflow::{answered, follows_workflow, next_state_of, prev_state_of, cancellable,
    stays_on_buyer_side, Verdict};

verus! {

// ---------------------------------------------------------------------------
// BuyerOfferCreated

/// State BuyerOfferCreated: the offer is here, nothing was sent yet.
pub struct BuyerOfferCreated {}

/// The rules of BuyerOfferCreated: `Check` goes on to accepting the offer,
/// `Cancel` ends the swap, nothing else is taken.
pub open spec fn offer_created_step(input: Input) -> Verdict {
    match input {
        Input::Cancel => Verdict::Respond(moved(StateId::BuyerCancelled)),
        Input::Check => Verdict::Respond(moved(StateId::BuyerSendingAcceptOfferMessage)),
        _ => Verdict::InvalidInput(invalid_input_text("BuyerOfferCreated"@, input)),
    }
}

impl BuyerOfferCreated {
    /// Create new instance
    pub fn new() -> (s: Self)
        ensures
            s == (BuyerOfferCreated {}),
    {
        Self {}
    }

    pub fn get_state_id(&self) -> (id: StateId)
        ensures
            id == StateId::BuyerOfferCreated,
    {
        StateId::BuyerOfferCreated
    }

    pub fn get_name(&self) -> (name: String)
        ensures
            name@ == "Get an Offer"@,
    {
        String::from_str("Get an Offer")
    }

    pub fn is_cancellable(&self) -> (c: bool)
        ensures
            c == cancellable(StateId::BuyerOfferCreated),
    {
        true
    }

    /// Process the state. Result will be the next state
    pub fn process(
        &mut self,
        input: Input,
        swap: &mut Swap,
        tx_conf: &SwapTransactionsConfirmations,
        now: i64,
    ) -> (r: Result<StateProcessRespond, ErrorKind>)
        ensures
            *final(swap) == *old(swap),
            answered(r, offer_created_step(input)),
            follows_workflow(StateId::BuyerOfferCreated, input, r),
            stays_on_buyer_side(r),
    {
        match input {
            Input::Cancel => Ok(StateProcessRespond::new(StateId::BuyerCancelled)),
            Input::Check => Ok(StateProcessRespond::new(StateId::BuyerSendingAcceptOfferMessage)),
            _ => Err(invalid_input("BuyerOfferCreated", &input)),
        }
    }

    pub fn get_prev_swap_state(&self) -> (s: Option<StateId>)
        ensures
            s == prev_state_of(StateId::BuyerOfferCreated),
    {
        None
    }

    pub fn get_next_swap_state(&self) -> (s: Option<StateId>)
        ensures
            s == next_state_of(StateId::BuyerOfferCreated),
    {
        Some(StateId::BuyerSendingAcceptOfferMessage)
    }
}

// ---------------------------------------------------------------------------
// BuyerSendingAcceptOfferMessage

/// State BuyerSendingAcceptOfferMessage: the buyer sends the message that
/// accepts the offer, building it once and sending the same one on every
/// check until the wallet reports it sent.
pub struct BuyerSendingAcceptOfferMessage {
    /// The acceptance message, once it was built.
    pub message: Option<Message>,
}

/// A `Check` in BuyerSendingAcceptOfferMessage builds the acceptance message:
/// it was not sent, the offer deadline has not come, and none was built yet.
pub open spec fn accept_offer_builds(cached: Option<Message>, swap: Swap, input: Input, now: i64) -> bool {
    &&& input is Check
    &&& swap.message1 is None
    &&& now < swap.time_message_offers
    &&& cached is None
}

/// The rules of BuyerSendingAcceptOfferMessage, from the message built so far
/// (`cached`), the swap, the input, the time, and the outcome of building the
/// message where a `Check` builds it. The result is the message kept by the
/// state, the swap, and the verdict.
pub open spec fn accept_offer_step(
    cached: Option<Message>,
    swap: Swap,
    input: Input,
    now: i64,
    built: Option<Result<Message, ErrorKind>>,
) -> (Option<Message>, Swap, Verdict) {
    match input {
        Input::Cancel => (cached, swap, Verdict::Respond(moved(StateId::BuyerCancelled))),
        Input::Check => {
            let time_limit = swap.time_message_offers;
            if swap.message1 is Some {
                // Sent already: a rerun after a reset goes on.
                (cached, swap, Verdict::Respond(moved(StateId::BuyerWaitingForSellerToLock)))
            } else if now < time_limit {
                let message = match cached {
                    Some(m) => Ok::<Message, ErrorKind>(m),
                    None => built.unwrap(),
                };
                match message {
                    Ok(m) => (
                        Some(m),
                        swap,
                        Verdict::Respond(
                            asked(
                                StateId::BuyerSendingAcceptOfferMessage,
                                ActionView::BuyerSendAcceptOfferMessage(m@),
                                Some(time_limit),
                            ),
                        ),
                    ),
                    Err(e) => (cached, swap, Verdict::Fail(e)),
                }
            } else {
                (cached, swap, Verdict::Respond(moved(StateId::BuyerCancelled)))
            }
        },
        Input::Execute { .. } => (
            cached,
            Swap { message1: cached, posted_msg1: Some(now), ..swap },
            Verdict::Respond(moved(StateId::BuyerWaitingForSellerToLock)),
        ),
        _ => (cached, swap, Verdict::InvalidInput(invalid_input_text("BuyerSendingAcceptOfferMessage"@, input))),
    }
}

impl BuyerSendingAcceptOfferMessage {
    /// Create new instance
    pub fn new() -> (s: Self)
        ensures
            s.message is None,
    {
        Self { message: None }
    }

    pub fn get_state_id(&self) -> (id: StateId)
        ensures
            id == StateId::BuyerSendingAcceptOfferMessage,
    {
        StateId::BuyerSendingAcceptOfferMessage
    }

    pub fn get_name(&self) -> (name: String)
        ensures
            name@ == "Sending Accept Offer Message"@,
    {
        String::from_str("Sending Accept Offer Message")
    }

    pub fn is_cancellable(&self) -> (c: bool)
        ensures
            c == cancellable(StateId::BuyerSendingAcceptOfferMessage),
    {
        true
    }

    /// Process the state. Result will be the next state.
    ///
    /// `build_message` builds the acceptance message; it is called only where
    /// `accept_offer_builds` holds. `Execute` records the built message as sent,
    /// at time `now`.
    pub fn process<F>(
        &mut self,
        input: Input,
        swap: &mut Swap,
        tx_conf: &SwapTransactionsConfirmations,
        now: i64,
        build_message: F,
    ) -> (r: Result<StateProcessRespond, ErrorKind>) where F: FnOnce() -> Result<Message, ErrorKind>
        requires
            // A check builds the message before it can be executed.
            input is Execute ==> old(self).message is Some,
            accept_offer_builds(old(self).message, *old(swap), input, now) ==> call_requires(
                build_message,
                (),
            ),
        ensures
            accept_offer_builds(old(self).message, *old(swap), input, now) ==> exists|b|
                call_ensures(build_message, (), b) && ({
                    let (m, s, v) = accept_offer_step(old(self).message, *old(swap), input, now, Some(b));
                    final(self).message == m && *final(swap) == s && answered(r, v)
                }),
            !accept_offer_builds(old(self).message, *old(swap), input, now) ==> ({
                let (m, s, v) = accept_offer_step(old(self).message, *old(swap), input, now, None);
                final(self).message == m && *final(swap) == s && answered(r, v)
            }),
            follows_workflow(StateId::BuyerSendingAcceptOfferMessage, input, r),
            stays_on_buyer_side(r),
    {
        match input {
            Input::Cancel => Ok(StateProcessRespond::new(StateId::BuyerCancelled)),
            Input::Check => {
                let time_limit = swap.get_time_message_offers();
                if swap.message1.is_none() {
                    if now < time_limit {
                        if self.message.is_none() {
                            let built = build_message();
                            match built {
                                Ok(m) => {
                                    self.message = Some(m);
                                },
                                Err(e) => {
                                    return Err(e);
                                },
                            }
                        }
                        let message = self.message.as_ref().unwrap().clone();
                        Ok(
                            StateProcessRespond::new(StateId::BuyerSendingAcceptOfferMessage).action(
                                Action::BuyerSendAcceptOfferMessage(message),
                            ).time_limit(time_limit),
                        )
                    } else {
                        Ok(StateProcessRespond::new(StateId::BuyerCancelled))
                    }
                } else {
                    // Probably it is a rerun because of some reset. We should tolerate that
                    Ok(StateProcessRespond::new(StateId::BuyerWaitingForSellerToLock))
                }
            },
            Input::Execute { .. } => {
                swap.message1 = Some(self.message.as_ref().unwrap().clone());
                swap.posted_msg1 = Some(now);
                Ok(StateProcessRespond::new(StateId::BuyerWaitingForSellerToLock))
            },
            _ => Err(invalid_input("BuyerSendingAcceptOfferMessage", &input)),
        }
    }

    pub fn get_prev_swap_state(&self) -> (s: Option<StateId>)
        ensures
            s == prev_state_of(StateId::BuyerSendingAcceptOfferMessage),
    {
        Some(StateId::BuyerOfferCreated)
    }

    pub fn get_next_swap_state(&self) -> (s: Option<StateId>)
        ensures
            s == next_state_of(StateId::BuyerSendingAcceptOfferMessage),
    {
        Some(StateId::BuyerWaitingForSellerToLock)
    }
}

// ---------------------------------------------------------------------------
// BuyerWaitingForSellerToLock

/// State BuyerWaitingForSellerToLock: when the seller locks first, the buyer
/// waits for the MWC lock transaction to be seen.
pub struct BuyerWaitingForSellerToLock {}

/// The rules of BuyerWaitingForSellerToLock.
pub open spec fn seller_lock_step(
    swap: Swap,
    conf: SwapTransactionsConfirmations,
    input: Input,
    now: i64,
) -> Verdict {
    match input {
        Input::Cancel => Verdict::Respond(moved(StateId::BuyerCancelled)),
        Input::Check => {
            let time_limit = swap.time_start_lock;
            if now > time_limit {
                // The locking deadline has passed.
                Verdict::Respond(moved(StateId::BuyerCancelled))
            } else if !swap.seller_lock_first {
                // The seller waits for the buyer to lock first.
                Verdict::Respond(moved(StateId::BuyerPostingSecondaryToMultisigAccount))
            } else if confs(conf.mwc_lock_conf) < 1 {
                Verdict::Respond(
                    asked(
                        StateId::BuyerWaitingForSellerToLock,
                        ActionView::WaitForMwcConfirmations {
                            name: "Seller to lock funds"@,
                            required: 1,
                            actual: confs(conf.mwc_lock_conf),
                        },
                        Some(time_limit),
                    ),
                )
            } else {
                Verdict::Respond(moved(StateId::BuyerPostingSecondaryToMultisigAccount))
            }
        },
        _ => Verdict::InvalidInput(invalid_input_text("BuyerWaitingForSellerToLock"@, input)),
    }
}

impl BuyerWaitingForSellerToLock {
    /// Create new instance
    pub fn new() -> (s: Self)
        ensures
            s == (BuyerWaitingForSellerToLock {}),
    {
        Self {}
    }

    pub fn get_state_id(&self) -> (id: StateId)
        ensures
            id == StateId::BuyerWaitingForSellerToLock,
    {
        StateId::BuyerWaitingForSellerToLock
    }

    pub fn get_name(&self) -> (name: String)
        ensures
            name@ == "Waiting For Seller to start Locking MWC"@,
    {
        String::from_str("Waiting For Seller to start Locking MWC")
    }

    pub fn is_cancellable(&self) -> (c: bool)
        ensures
            c == cancellable(StateId::BuyerWaitingForSellerToLock),
    {
        true
    }

    /// Process the state. Result will be the next state
    pub fn process(
        &mut self,
        input: Input,
        swap: &mut Swap,
        tx_conf: &SwapTransactionsConfirmations,
        now: i64,
    ) -> (r: Result<StateProcessRespond, ErrorKind>)
        ensures
            *final(swap) == *old(swap),
            answered(r, seller_lock_step(*old(swap), *tx_conf, input, now)),
            follows_workflow(StateId::BuyerWaitingForSellerToLock, input, r),
            stays_on_buyer_side(r),
    {
        match input {
            Input::Cancel => Ok(StateProcessRespond::new(StateId::BuyerCancelled)),
            Input::Check => {
                let time_limit = swap.get_time_start_lock();
                // Check the deadline for locking
                if now > time_limit {
                    return Ok(StateProcessRespond::new(StateId::BuyerCancelled));
                }
                if !swap.seller_lock_first {
                    // Skipping this step. Seller waiting for us to start locking
                    Ok(StateProcessRespond::new(StateId::BuyerPostingSecondaryToMultisigAccount))
                } else {
                    let conf = tx_conf.mwc_lock_conf.unwrap_or(0);
                    if conf < 1 {
                        Ok(
                            StateProcessRespond::new(StateId::BuyerWaitingForSellerToLock).action(
                                Action::WaitForMwcConfirmations {
                                    name: String::from_str("Seller to lock funds"),
                                    required: 1,
                                    actual: conf,
                                },
                            ).time_limit(time_limit),
                        )
                    } else {
                        Ok(StateProcessRespond::new(StateId::BuyerPostingSecondaryToMultisigAccount))
                    }
                }
            },
            _ => Err(invalid_input("BuyerWaitingForSellerToLock", &input)),
        }
    }

    pub fn get_prev_swap_state(&self) -> (s: Option<StateId>)
        ensures
            s == prev_state_of(StateId::BuyerWaitingForSellerToLock),
    {
        Some(StateId::BuyerSendingAcceptOfferMessage)
    }

    pub fn get_next_swap_state(&self) -> (s: Option<StateId>)
        ensures
            s == next_state_of(StateId::BuyerWaitingForSellerToLock),
    {
        Some(StateId::BuyerPostingSecondaryToMultisigAccount)
    }
}

} // verus!
