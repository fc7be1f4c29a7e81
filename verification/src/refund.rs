//! The refund phase: after a cancellation with funds locked, the buyer waits
//! until the secondary lock can be refunded, posts the refund transaction and
//! waits for its confirmations.

use vstd::prelude::*;
use crate::types::{
    asked, confs, currency_symbol, invalid_input, invalid_input_text, moved, time_or_zero, Action, ActionView,
    ErrorKind, FeeRate, Input, StateId, StateProcessRespond, Swap, SwapTransactionsConfirmations,
};
use crate::workflow::{answered, follows_workflow, next_state_of, prev_state_of, cancellable,
    stays_on_buyer_side, Verdict, POST_SECONDARY_RETRY_PERIOD};

verus! {

// ---------------------------------------------------------------------------
// BuyerWaitingForRefundTime

/// State BuyerWaitingForRefundTime: the MWC redeem was never posted, so the
/// seller cannot take the secondary currency; the buyer waits until the lock
/// time of the secondary lock has passed.
pub struct BuyerWaitingForRefundTime {}

/// The rules of BuyerWaitingForRefundTime.
pub open spec fn refund_time_step(swap: Swap, input: Input, now: i64) -> Verdict {
    match input {
        Input::Check => {
            let time_limit = swap.time_btc_lock;
            if now > time_limit {
                Verdict::Respond(moved(StateId::BuyerPostingRefundForSecondary))
            } else {
                Verdict::Respond(
                    asked(
                        StateId::BuyerWaitingForRefundTime,
                        ActionView::WaitingForBtcRefund {
                            currency: swap.secondary_currency,
                            required: time_limit as u64,
                            current: now as u64,
                        },
                        Some(time_limit),
                    ),
                )
            }
        },
        _ => Verdict::InvalidInput(invalid_input_text("BuyerWaitingForRefundTime"@, input)),
    }
}

impl BuyerWaitingForRefundTime {
    /// Create a new instance
    pub fn new() -> (s: Self)
        ensures
            s == (BuyerWaitingForRefundTime {}),
    {
        Self {}
    }

    pub fn get_state_id(&self) -> (id: StateId)
        ensures
            id == StateId::BuyerWaitingForRefundTime,
    {
        StateId::BuyerWaitingForRefundTime
    }

    pub fn get_name(&self) -> (name: String)
        ensures
            name@ == "Waiting for Secondary to unlock"@,
    {
        String::from_str("Waiting for Secondary to unlock")
    }

    pub fn is_cancellable(&self) -> (c: bool)
        ensures
            c == cancellable(StateId::BuyerWaitingForRefundTime),
    {
        false
    }

    /// Process the state. Result will be the next state
    pub fn process(
        &mut self,
        input: Input,
        swap: &mut Swap,
        tx_conf: &SwapTransactionsConfirmations,
        now: i64,
    ) -> (r: Result<StateProcessRespond, ErrorKind>)
        ensures
            *final(swap) == *old(swap),
            answered(r, refund_time_step(*old(swap), input, now)),
            follows_workflow(StateId::BuyerWaitingForRefundTime, input, r),
            stays_on_buyer_side(r),
    {
        match input {
            Input::Check => {
                // Just chilling. MWC redeem was never posted, so Seller can't get the secondary.
                let time_limit = swap.get_time_btc_lock();
                if now > time_limit {
                    return Ok(StateProcessRespond::new(StateId::BuyerPostingRefundForSecondary));
                }
                // Still waiting...
                Ok(
                    StateProcessRespond::new(StateId::BuyerWaitingForRefundTime).action(
                        Action::WaitingForBtcRefund {
                            currency: swap.secondary_currency,
                            required: time_limit as u64,
                            current: now as u64,
                        },
                    ).time_limit(time_limit),
                )
            },
            _ => Err(invalid_input("BuyerWaitingForRefundTime", &input)),
        }
    }

    pub fn get_prev_swap_state(&self) -> (s: Option<StateId>)
        ensures
            s == prev_state_of(StateId::BuyerWaitingForRefundTime),
    {
        None
    }

    pub fn get_next_swap_state(&self) -> (s: Option<StateId>)
        ensures
            s == next_state_of(StateId::BuyerWaitingForRefundTime),
    {
        Some(StateId::BuyerPostingRefundForSecondary)
    }
}

// ---------------------------------------------------------------------------
// BuyerPostingRefundForSecondary

/// State BuyerPostingRefundForSecondary: the buyer posts the refund
/// transaction of the secondary currency.
pub struct BuyerPostingRefundForSecondary {}

/// The rules of BuyerPostingRefundForSecondary, from the outcome of posting the
/// refund where an `Execute` posts it. The result is the swap and the verdict.
pub open spec fn posting_refund_step(
    swap: Swap,
    conf: SwapTransactionsConfirmations,
    input: Input,
    now: i64,
    posted: Option<Result<(), ErrorKind>>,
) -> (Swap, Verdict) {
    match input {
        Input::Check => {
            if now < swap.time_btc_lock {
                (swap, Verdict::Respond(moved(StateId::BuyerWaitingForRefundTime)))
            } else if conf.secondary_refund_conf is Some {
                // The refund is issued already.
                (swap, Verdict::Respond(moved(StateId::BuyerWaitingForRefundConfirmations)))
            } else {
                (
                    swap,
                    Verdict::Respond(
                        asked(
                            StateId::BuyerPostingRefundForSecondary,
                            ActionView::BuyerPublishSecondaryRefundTx(swap.secondary_currency),
                            None,
                        ),
                    ),
                )
            }
        },
        Input::Execute { .. } => match posted.unwrap() {
            Ok(_) => (
                Swap { posted_refund: Some(now), ..swap },
                Verdict::Respond(moved(StateId::BuyerWaitingForRefundConfirmations)),
            ),
            Err(e) => (swap, Verdict::Fail(e)),
        },
        _ => (swap, Verdict::InvalidInput(invalid_input_text("BuyerPostingRefundForSecondary"@, input))),
    }
}

impl BuyerPostingRefundForSecondary {
    /// Create new instance
    pub fn new() -> (s: Self)
        ensures
            s == (BuyerPostingRefundForSecondary {}),
    {
        Self {}
    }

    pub fn get_state_id(&self) -> (id: StateId)
        ensures
            id == StateId::BuyerPostingRefundForSecondary,
    {
        StateId::BuyerPostingRefundForSecondary
    }

    pub fn get_name(&self) -> (name: String)
        ensures
            name@ == "Posting Refund for Secondary"@,
    {
        String::from_str("Posting Refund for Secondary")
    }

    pub fn is_cancellable(&self) -> (c: bool)
        ensures
            c == cancellable(StateId::BuyerPostingRefundForSecondary),
    {
        false
    }

    /// Process the state. Result will be the next state.
    ///
    /// `post_refund` posts the refund transaction to the refund address, at the
    /// fee rate, given with `Execute`; it is called for `Execute` only, and on
    /// success the posting time `now` is recorded.
    pub fn process<P>(
        &mut self,
        input: Input,
        swap: &mut Swap,
        tx_conf: &SwapTransactionsConfirmations,
        now: i64,
        post_refund: P,
    ) -> (r: Result<StateProcessRespond, ErrorKind>) where
        P: FnOnce(Option<String>, Option<FeeRate>) -> Result<(), ErrorKind>,

        requires
            input is Execute ==> call_requires(post_refund, (input->refund_address, input->fee_satoshi_per_byte)),
        ensures
            input is Execute ==> exists|b|
                #[trigger] call_ensures(post_refund, (input->refund_address, input->fee_satoshi_per_byte), b) && ({
                    let (s, v) = posting_refund_step(*old(swap), *tx_conf, input, now, Some(b));
                    *final(swap) == s && answered(r, v)
                }),
            !(input is Execute) ==> ({
                let (s, v) = posting_refund_step(*old(swap), *tx_conf, input, now, None);
                *final(swap) == s && answered(r, v)
            }),
            follows_workflow(StateId::BuyerPostingRefundForSecondary, input, r),
            stays_on_buyer_side(r),
    {
        match input {
            Input::Check => {
                let time_limit = swap.get_time_btc_lock();
                if now < time_limit {
                    return Ok(StateProcessRespond::new(StateId::BuyerWaitingForRefundTime));
                }
                // Check if refund is already issued
                if tx_conf.secondary_refund_conf.is_some() {
                    return Ok(StateProcessRespond::new(StateId::BuyerWaitingForRefundConfirmations));
                }
                Ok(
                    StateProcessRespond::new(StateId::BuyerPostingRefundForSecondary).action(
                        Action::BuyerPublishSecondaryRefundTx(swap.secondary_currency),
                    ),
                )
            },
            Input::Execute { refund_address, fee_satoshi_per_byte } => {
                let posted = post_refund(refund_address, fee_satoshi_per_byte);
                if let Err(e) = posted {
                    return Err(e);
                }
                swap.posted_refund = Some(now);
                Ok(StateProcessRespond::new(StateId::BuyerWaitingForRefundConfirmations))
            },
            _ => Err(invalid_input("BuyerPostingRefundForSecondary", &input)),
        }
    }

    pub fn get_prev_swap_state(&self) -> (s: Option<StateId>)
        ensures
            s == prev_state_of(StateId::BuyerPostingRefundForSecondary),
    {
        Some(StateId::BuyerWaitingForRefundTime)
    }

    pub fn get_next_swap_state(&self) -> (s: Option<StateId>)
        ensures
            s == next_state_of(StateId::BuyerPostingRefundForSecondary),
    {
        Some(StateId::BuyerWaitingForRefundConfirmations)
    }
}

// ---------------------------------------------------------------------------
// BuyerWaitingForRefundConfirmations

/// State BuyerWaitingForRefundConfirmations: the refund is posted; the buyer
/// waits for its confirmations.
pub struct BuyerWaitingForRefundConfirmations {}

/// The rules of BuyerWaitingForRefundConfirmations.
pub open spec fn refund_confirmations_step(
    swap: Swap,
    conf: SwapTransactionsConfirmations,
    input: Input,
    now: i64,
) -> Verdict {
    match input {
        Input::Check => {
            let refund = conf.secondary_refund_conf;
            if refund is Some && refund->0 >= swap.secondary_confirmations {
                // We are done
                Verdict::Respond(moved(StateId::BuyerCancelledRefunded))
            } else if refund is None && time_or_zero(swap.posted_refund) < now - POST_SECONDARY_RETRY_PERIOD {
                // Not seen long after posting: post again.
                Verdict::Respond(moved(StateId::BuyerPostingRefundForSecondary))
            } else {
                Verdict::Respond(
                    asked(
                        StateId::BuyerWaitingForRefundConfirmations,
                        ActionView::WaitForSecondaryConfirmations {
                            name: currency_symbol(swap.secondary_currency) + " Refund"@,
                            currency: swap.secondary_currency,
                            required: swap.secondary_confirmations,
                            actual: confs(refund),
                        },
                        None,
                    ),
                )
            }
        },
        _ => Verdict::InvalidInput(invalid_input_text("BuyerWaitingForRefundConfirmations"@, input)),
    }
}

impl BuyerWaitingForRefundConfirmations {
    /// Create new instance
    pub fn new() -> (s: Self)
        ensures
            s == (BuyerWaitingForRefundConfirmations {}),
    {
        Self {}
    }

    pub fn get_state_id(&self) -> (id: StateId)
        ensures
            id == StateId::BuyerWaitingForRefundConfirmations,
    {
        StateId::BuyerWaitingForRefundConfirmations
    }

    pub fn get_name(&self) -> (name: String)
        ensures
            name@ == "Waiting for Refund confirmations"@,
    {
        String::from_str("Waiting for Refund confirmations")
    }

    pub fn is_cancellable(&self) -> (c: bool)
        ensures
            c == cancellable(StateId::BuyerWaitingForRefundConfirmations),
    {
        false
    }

    /// Process the state. Result will be the next state
    pub fn process(
        &mut self,
        input: Input,
        swap: &mut Swap,
        tx_conf: &SwapTransactionsConfirmations,
        now: i64,
    ) -> (r: Result<StateProcessRespond, ErrorKind>)
        requires
            // The retry time is computed in `i64`.
            input is Check && tx_conf.secondary_refund_conf is None ==> now >= i64::MIN
                + POST_SECONDARY_RETRY_PERIOD,
        ensures
            *final(swap) == *old(swap),
            answered(r, refund_confirmations_step(*old(swap), *tx_conf, input, now)),
            follows_workflow(StateId::BuyerWaitingForRefundConfirmations, input, r),
            stays_on_buyer_side(r),
    {
        match input {
            Input::Check => {
                if let Some(conf) = tx_conf.secondary_refund_conf {
                    if conf >= swap.secondary_confirmations {
                        // We are done
                        return Ok(StateProcessRespond::new(StateId::BuyerCancelledRefunded));
                    }
                } else {
                    // might need to retry
                    if swap.posted_refund.unwrap_or(0) < now - POST_SECONDARY_RETRY_PERIOD {
                        return Ok(StateProcessRespond::new(StateId::BuyerPostingRefundForSecondary));
                    }
                }
                let name = swap.secondary_currency.symbol().concat(" Refund");
                Ok(
                    StateProcessRespond::new(StateId::BuyerWaitingForRefundConfirmations).action(
                        Action::WaitForSecondaryConfirmations {
                            name,
                            currency: swap.secondary_currency,
                            required: swap.secondary_confirmations,
                            actual: tx_conf.secondary_refund_conf.unwrap_or(0),
                        },
                    ),
                )
            },
            _ => Err(invalid_input("BuyerWaitingForRefundConfirmations", &input)),
        }
    }

    pub fn get_prev_swap_state(&self) -> (s: Option<StateId>)
        ensures
            s == prev_state_of(StateId::BuyerWaitingForRefundConfirmations),
    {
        Some(StateId::BuyerPostingRefundForSecondary)
    }

    pub fn get_next_swap_state(&self) -> (s: Option<StateId>)
        ensures
            s == next_state_of(StateId::BuyerWaitingForRefundConfirmations),
    {
        Some(StateId::BuyerCancelledRefunded)
    }
}

} // verus!
