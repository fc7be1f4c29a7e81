//! The redeem phase: the buyer starts the redeem exchange, gets the seller's
//! part of the redeem slate, publishes the MWC redeem transaction and waits
//! for its confirmations.

use vstd::prelude::*;
use grin_core::global::ChainTypes;
use crate::chain::{transaction_validates, tx_validates};
use crate::types::{
    asked, confs, invalid_input, invalid_input_text, locks_confirmed, moved, time_or_zero, Action, ActionView,
    ErrorKind, Input, Message, RespondView, StateId, StateProcessRespond, Swap,
    SwapTransactionsConfirmations,
};
use crate::workflow::{answered, follows_workflow, next_state_of, prev_state_of, cancellable,
    stays_on_buyer_side, Verdict, POST_MWC_RETRY_PERIOD};

verus! {

// ---------------------------------------------------------------------------
// BuyerSendingInitRedeemMessage

/// State BuyerSendingInitRedeemMessage: the buyer sends the message that
/// starts the redeem exchange, building it once.
pub struct BuyerSendingInitRedeemMessage {
    /// The redeem initiation message, once it was built.
    pub message: Option<Message>,
}

/// A `Check` in BuyerSendingInitRedeemMessage builds the message: both locks
/// are confirmed, it was not sent, the redeem deadline has not come, and none
/// was built yet.
pub open spec fn init_redeem_builds(
    cached: Option<Message>,
    swap: Swap,
    conf: SwapTransactionsConfirmations,
    input: Input,
    now: i64,
) -> bool {
    &&& input is Check
    &&& locks_confirmed(swap, conf)
    &&& swap.message2 is None
    &&& now < swap.time_message_redeem
    &&& cached is None
}

/// The rules of BuyerSendingInitRedeemMessage, from the message built so far,
/// and the outcome of building it where a `Check` builds it. The result is
/// the message kept by the state, the swap, and the verdict.
pub open spec fn init_redeem_step(
    cached: Option<Message>,
    swap: Swap,
    conf: SwapTransactionsConfirmations,
    input: Input,
    now: i64,
    built: Option<Result<Message, ErrorKind>>,
) -> (Option<Message>, Swap, Verdict) {
    match input {
        // Last chance to quit
        Input::Cancel => (cached, swap, Verdict::Respond(moved(StateId::BuyerWaitingForRefundTime))),
        Input::Check => {
            let time_limit = swap.time_message_redeem;
            if !locks_confirmed(swap, conf) {
                (cached, swap, Verdict::Respond(moved(StateId::BuyerWaitingForLockConfirmations)))
            } else if swap.message2 is Some {
                // Sent already: a rerun after a reset goes on.
                (cached, swap, Verdict::Respond(moved(StateId::BuyerWaitingForRespondRedeemMessage)))
            } else if now < time_limit {
                let message = match cached {
                    Some(m) => Ok::<Message, ErrorKind>(m),
                    None => built.unwrap(),
                };
                match message {
                    Ok(m) => (
                        Some(m),
                        swap,
                        Verdict::Respond(
                            asked(
                                StateId::BuyerSendingInitRedeemMessage,
                                ActionView::BuyerSendInitRedeemMessage(m@),
                                Some(time_limit),
                            ),
                        ),
                    ),
                    Err(e) => (cached, swap, Verdict::Fail(e)),
                }
            } else {
                (cached, swap, Verdict::Respond(moved(StateId::BuyerWaitingForRefundTime)))
            }
        },
        Input::Execute { .. } => (
            cached,
            Swap { message2: cached, ..swap },
            Verdict::Respond(moved(StateId::BuyerWaitingForRespondRedeemMessage)),
        ),
        _ => (cached, swap, Verdict::InvalidInput(invalid_input_text("BuyerSendingInitRedeemMessage"@, input))),
    }
}

impl BuyerSendingInitRedeemMessage {
    /// Create new instance
    pub fn new() -> (s: Self)
        ensures
            s.message is None,
    {
        Self { message: None }
    }

    pub fn get_state_id(&self) -> (id: StateId)
        ensures
            id == StateId::BuyerSendingInitRedeemMessage,
    {
        StateId::BuyerSendingInitRedeemMessage
    }

    pub fn get_name(&self) -> (name: String)
        ensures
            name@ == "Sending Init Redeem Message"@,
    {
        String::from_str("Sending Init Redeem Message")
    }

    pub fn is_cancellable(&self) -> (c: bool)
        ensures
            c == cancellable(StateId::BuyerSendingInitRedeemMessage),
    {
        true
    }

    /// Process the state. Result will be the next state.
    ///
    /// `build_message` builds the redeem initiation message; it is called only
    /// where `init_redeem_builds` holds. `Execute` records the built message as
    /// sent.
    pub fn process<F>(
        &mut self,
        input: Input,
        swap: &mut Swap,
        tx_conf: &SwapTransactionsConfirmations,
        now: i64,
        build_message: F,
    ) -> (r: Result<StateProcessRespond, ErrorKind>) where F: FnOnce() -> Result<Message, ErrorKind>
        requires
            // A check builds the message before it can be executed.
            input is Execute ==> old(self).message is Some,
            init_redeem_builds(old(self).message, *old(swap), *tx_conf, input, now) ==> call_requires(
                build_message,
                (),
            ),
        ensures
            init_redeem_builds(old(self).message, *old(swap), *tx_conf, input, now) ==> exists|b|
                #[trigger] call_ensures(build_message, (), b) && ({
                    let (m, s, v) = init_redeem_step(old(self).message, *old(swap), *tx_conf, input, now, Some(b));
                    final(self).message == m && *final(swap) == s && answered(r, v)
                }),
            !init_redeem_builds(old(self).message, *old(swap), *tx_conf, input, now) ==> ({
                let (m, s, v) = init_redeem_step(old(self).message, *old(swap), *tx_conf, input, now, None);
                final(self).message == m && *final(swap) == s && answered(r, v)
            }),
            follows_workflow(StateId::BuyerSendingInitRedeemMessage, input, r),
            stays_on_buyer_side(r),
    {
        match input {
            // Last chance to quit
            Input::Cancel => Ok(StateProcessRespond::new(StateId::BuyerWaitingForRefundTime)),
            Input::Check => {
                // Check first if everything is still locked...
                let mwc_lock = tx_conf.mwc_lock_conf.unwrap_or(0);
                let secondary_lock = tx_conf.secondary_lock_conf.unwrap_or(0);
                if mwc_lock < swap.mwc_confirmations || secondary_lock < swap.secondary_confirmations {
                    return Ok(StateProcessRespond::new(StateId::BuyerWaitingForLockConfirmations));
                }

                let time_limit = swap.get_time_message_redeem();
                if swap.message2.is_none() {
                    if now < time_limit {
                        if self.message.is_none() {
                            let built = build_message();
                            match built {
                                Ok(m) => {
                                    self.message = Some(m);
                                },
                                Err(e) => {
                                    return Err(e);
                                },
                            }
                        }
                        let message = self.message.as_ref().unwrap().clone();
                        Ok(
                            StateProcessRespond::new(StateId::BuyerSendingInitRedeemMessage).action(
                                Action::BuyerSendInitRedeemMessage(message),
                            ).time_limit(time_limit),
                        )
                    } else {
                        Ok(StateProcessRespond::new(StateId::BuyerWaitingForRefundTime))
                    }
                } else {
                    // Probably it is a rerun because of some reset. We should tolerate that
                    Ok(StateProcessRespond::new(StateId::BuyerWaitingForRespondRedeemMessage))
                }
            },
            Input::Execute { .. } => {
                swap.message2 = Some(self.message.as_ref().unwrap().clone());
                Ok(StateProcessRespond::new(StateId::BuyerWaitingForRespondRedeemMessage))
            },
            _ => Err(invalid_input("BuyerSendingInitRedeemMessage", &input)),
        }
    }

    pub fn get_prev_swap_state(&self) -> (s: Option<StateId>)
        ensures
            s == prev_state_of(StateId::BuyerSendingInitRedeemMessage),
    {
        Some(StateId::BuyerWaitingForLockConfirmations)
    }

    pub fn get_next_swap_state(&self) -> (s: Option<StateId>)
        ensures
            s == next_state_of(StateId::BuyerSendingInitRedeemMessage),
    {
        Some(StateId::BuyerWaitingForRespondRedeemMessage)
    }
}

// ---------------------------------------------------------------------------
// BuyerWaitingForRespondRedeemMessage

/// State BuyerWaitingForRespondRedeemMessage: the buyer waits for the seller's
/// answer to the redeem message, and completes the redeem slate with it.
pub struct BuyerWaitingForRespondRedeemMessage {}

/// The answer of BuyerWaitingForRespondRedeemMessage to a `Check`, given
/// whether the refund slate's transaction validates.
pub open spec fn respond_redeem_check(
    swap: Swap,
    conf: SwapTransactionsConfirmations,
    now: i64,
    refund_valid: bool,
) -> RespondView {
    let time_limit = swap.time_message_redeem;
    if !locks_confirmed(swap, conf) {
        moved(StateId::BuyerWaitingForLockConfirmations)
    } else if refund_valid {
        // Was already processed: go on to the redeem.
        moved(StateId::BuyerRedeemMwc)
    } else if now < time_limit {
        asked(
            StateId::BuyerWaitingForRespondRedeemMessage,
            ActionView::BuyerWaitingForRedeemMessage,
            Some(time_limit),
        )
    } else {
        moved(StateId::BuyerWaitingForRefundTime)
    }
}

/// The rules of BuyerWaitingForRespondRedeemMessage, given whether the refund
/// slate's transaction validates and, for an incoming message, the outcome of
/// completing the redeem slate with it: the completed redeem transaction,
/// which the swap records. The result is the swap and the verdict.
pub open spec fn respond_redeem_step(
    swap: Swap,
    conf: SwapTransactionsConfirmations,
    input: Input,
    now: i64,
    refund_valid: bool,
    finalized: Option<Result<grin_core::core::transaction::Transaction, ErrorKind>>,
) -> (Swap, Verdict) {
    match input {
        Input::Cancel => (swap, Verdict::Respond(moved(StateId::BuyerWaitingForRefundTime))),
        Input::Check => (swap, Verdict::Respond(respond_redeem_check(swap, conf, now, refund_valid))),
        Input::IncomeMessage(_) => match finalized.unwrap() {
            Ok(tx) => (Swap { redeem_tx: tx, ..swap }, Verdict::Respond(moved(StateId::BuyerRedeemMwc))),
            Err(e) => (swap, Verdict::Fail(e)),
        },
        _ => (
            swap,
            Verdict::InvalidInput(invalid_input_text("BuyerWaitingForRespondRedeemMessage"@, input)),
        ),
    }
}

impl BuyerWaitingForRespondRedeemMessage {
    /// Create new instance
    pub fn new() -> (s: Self)
        ensures
            s == (BuyerWaitingForRespondRedeemMessage {}),
    {
        Self {}
    }

    pub fn get_state_id(&self) -> (id: StateId)
        ensures
            id == StateId::BuyerWaitingForRespondRedeemMessage,
    {
        StateId::BuyerWaitingForRespondRedeemMessage
    }

    pub fn get_name(&self) -> (name: String)
        ensures
            name@ == "Waiting For Redeem respond message from the Seller"@,
    {
        String::from_str("Waiting For Redeem respond message from the Seller")
    }

    pub fn is_cancellable(&self) -> (c: bool)
        ensures
            c == cancellable(StateId::BuyerWaitingForRespondRedeemMessage),
    {
        true
    }

    /// The answer to a `Check` once it is known whether the refund slate's
    /// transaction validates.
    pub fn check_with_refund_validity(
        swap: &Swap,
        tx_conf: &SwapTransactionsConfirmations,
        now: i64,
        refund_valid: bool,
    ) -> (r: StateProcessRespond)
        ensures
            r@ == respond_redeem_check(*swap, *tx_conf, now, refund_valid),
    {
        // Check first if everything is still locked...
        let mwc_lock = tx_conf.mwc_lock_conf.unwrap_or(0);
        let secondary_lock = tx_conf.secondary_lock_conf.unwrap_or(0);
        if mwc_lock < swap.mwc_confirmations || secondary_lock < swap.secondary_confirmations {
            return StateProcessRespond::new(StateId::BuyerWaitingForLockConfirmations);
        }
        if refund_valid {
            // Was already processed. Can go to the next step
            return StateProcessRespond::new(StateId::BuyerRedeemMwc);
        }
        let time_limit = swap.get_time_message_redeem();
        if now < time_limit {
            StateProcessRespond::new(StateId::BuyerWaitingForRespondRedeemMessage).action(
                Action::BuyerWaitingForRedeemMessage,
            ).time_limit(time_limit)
        } else {
            // cancelling
            StateProcessRespond::new(StateId::BuyerWaitingForRefundTime)
        }
    }

    /// Process the state. Result will be the next state.
    ///
    /// A `Check` validates the refund slate's transaction under the rules of
    /// `chain`, with NRD kernels allowed when `nrd`, once both locks are
    /// confirmed. `finalize_redeem` completes the redeem slate with an incoming
    /// message and answers with the completed redeem transaction, which is
    /// recorded in the swap; it is called only for an incoming message.
    pub fn process<H>(
        &mut self,
        input: Input,
        swap: &mut Swap,
        tx_conf: &SwapTransactionsConfirmations,
        now: i64,
        chain: ChainTypes,
        nrd: bool,
        finalize_redeem: H,
    ) -> (r: Result<StateProcessRespond, ErrorKind>) where
        H: FnOnce(Message) -> Result<grin_core::core::transaction::Transaction, ErrorKind>,

        requires
            input is IncomeMessage ==> call_requires(finalize_redeem, (input->IncomeMessage_0,)),
        ensures
            input is IncomeMessage ==> exists|b|
                #[trigger] call_ensures(finalize_redeem, (input->IncomeMessage_0,), b) && ({
                    let (s, v) = respond_redeem_step(*old(swap), *tx_conf, input, now, false, Some(b));
                    *final(swap) == s && answered(r, v)
                }),
            !(input is IncomeMessage) ==> ({
                let (s, v) = respond_redeem_step(
                    *old(swap),
                    *tx_conf,
                    input,
                    now,
                    locks_confirmed(*old(swap), *tx_conf) && tx_validates(old(swap).refund_tx, chain, nrd),
                    None,
                );
                *final(swap) == s && answered(r, v)
            }),
            follows_workflow(StateId::BuyerWaitingForRespondRedeemMessage, input, r),
            stays_on_buyer_side(r),
    {
        match input {
            Input::Cancel => {
                Ok(StateProcessRespond::new(StateId::BuyerWaitingForRefundTime))
            },
            Input::Check => {
                let locked = tx_conf.mwc_lock_conf.unwrap_or(0) >= swap.mwc_confirmations
                    && tx_conf.secondary_lock_conf.unwrap_or(0) >= swap.secondary_confirmations;
                let refund_valid = if locked {
                    transaction_validates(&swap.refund_tx, chain, nrd)
                } else {
                    false
                };
                Ok(Self::check_with_refund_validity(swap, tx_conf, now, refund_valid))
            },
            Input::IncomeMessage(message) => {
                let finalized = finalize_redeem(message);
                match finalized {
                    Ok(tx) => {
                        swap.redeem_tx = tx;
                        Ok(StateProcessRespond::new(StateId::BuyerRedeemMwc))
                    },
                    Err(e) => Err(e),
                }
            },
            _ => {
                Err(invalid_input("BuyerWaitingForRespondRedeemMessage", &input))
            },
        }
    }

    pub fn get_prev_swap_state(&self) -> (s: Option<StateId>)
        ensures
            s == prev_state_of(StateId::BuyerWaitingForRespondRedeemMessage),
    {
        Some(StateId::BuyerSendingInitRedeemMessage)
    }

    pub fn get_next_swap_state(&self) -> (s: Option<StateId>)
        ensures
            s == next_state_of(StateId::BuyerWaitingForRespondRedeemMessage),
    {
        Some(StateId::BuyerRedeemMwc)
    }
}

// ---------------------------------------------------------------------------
// BuyerRedeemMwc

/// State BuyerRedeemMwc: the buyer publishes the MWC redeem transaction.
pub struct BuyerRedeemMwc {}

/// An `Execute` in BuyerRedeemMwc publishes the redeem transaction: the redeem
/// deadline has not passed and both locks are still confirmed.
pub open spec fn redeem_publishes(
    swap: Swap,
    conf: SwapTransactionsConfirmations,
    input: Input,
    now: i64,
) -> bool {
    &&& input is Execute
    &&& now <= swap.time_mwc_redeem
    &&& locks_confirmed(swap, conf)
}

/// The rules of BuyerRedeemMwc, from the outcome of publishing the redeem
/// transaction where an `Execute` publishes it. The result is the swap and
/// the verdict.
pub open spec fn redeem_mwc_step(
    swap: Swap,
    conf: SwapTransactionsConfirmations,
    input: Input,
    now: i64,
    published: Option<Result<(), ErrorKind>>,
) -> (Swap, Verdict) {
    let time_limit = swap.time_mwc_redeem;
    match input {
        Input::Cancel => (swap, Verdict::Respond(moved(StateId::BuyerWaitingForRefundTime))),
        Input::Check => {
            if confs(conf.mwc_redeem_conf) > 0 {
                // The redeem transaction is published already.
                (swap, Verdict::Respond(moved(StateId::BuyerWaitForRedeemMwcConfirmations)))
            } else if now > time_limit {
                // Too late to redeem: the risk is higher than expected.
                (swap, Verdict::Respond(moved(StateId::BuyerWaitingForRefundTime)))
            } else if !locks_confirmed(swap, conf) {
                (swap, Verdict::Respond(moved(StateId::BuyerWaitingForLockConfirmations)))
            } else {
                (
                    swap,
                    Verdict::Respond(
                        asked(
                            StateId::BuyerRedeemMwc,
                            ActionView::BuyerPublishMwcRedeemTx,
                            Some(time_limit),
                        ),
                    ),
                )
            }
        },
        Input::Execute { .. } => {
            if now > time_limit {
                (swap, Verdict::Respond(moved(StateId::BuyerWaitingForRefundTime)))
            } else if !locks_confirmed(swap, conf) {
                (swap, Verdict::Respond(moved(StateId::BuyerWaitingForLockConfirmations)))
            } else {
                match published.unwrap() {
                    Ok(_) => (
                        Swap { posted_redeem: Some(now), ..swap },
                        Verdict::Respond(moved(StateId::BuyerWaitForRedeemMwcConfirmations)),
                    ),
                    Err(e) => (swap, Verdict::Fail(e)),
                }
            }
        },
        _ => (swap, Verdict::InvalidInput(invalid_input_text("BuyerRedeemMwc"@, input))),
    }
}

impl BuyerRedeemMwc {
    /// Create a new instance
    pub fn new() -> (s: Self)
        ensures
            s == (BuyerRedeemMwc {}),
    {
        Self {}
    }

    pub fn get_state_id(&self) -> (id: StateId)
        ensures
            id == StateId::BuyerRedeemMwc,
    {
        StateId::BuyerRedeemMwc
    }

    pub fn get_name(&self) -> (name: String)
        ensures
            name@ == "Buyer redeem MWC"@,
    {
        String::from_str("Buyer redeem MWC")
    }

    pub fn is_cancellable(&self) -> (c: bool)
        ensures
            c == cancellable(StateId::BuyerRedeemMwc),
    {
        true
    }

    /// Process the state. Result will be the next state.
    ///
    /// `publish_redeem` publishes the swap's MWC redeem transaction, which it is
    /// handed; it is called only
    /// where `redeem_publishes` holds, and on success the posting time `now`
    /// is recorded.
    pub fn process<P>(
        &mut self,
        input: Input,
        swap: &mut Swap,
        tx_conf: &SwapTransactionsConfirmations,
        now: i64,
        publish_redeem: P,
    ) -> (r: Result<StateProcessRespond, ErrorKind>) where
        P: FnOnce(&grin_core::core::transaction::Transaction) -> Result<(), ErrorKind>,

        requires
            redeem_publishes(*old(swap), *tx_conf, input, now) ==> call_requires(
                publish_redeem,
                (&old(swap).redeem_tx,),
            ),
        ensures
            redeem_publishes(*old(swap), *tx_conf, input, now) ==> exists|b|
                #[trigger] call_ensures(publish_redeem, (&old(swap).redeem_tx,), b) && ({
                    let (s, v) = redeem_mwc_step(*old(swap), *tx_conf, input, now, Some(b));
                    *final(swap) == s && answered(r, v)
                }),
            !redeem_publishes(*old(swap), *tx_conf, input, now) ==> ({
                let (s, v) = redeem_mwc_step(*old(swap), *tx_conf, input, now, None);
                *final(swap) == s && answered(r, v)
            }),
            follows_workflow(StateId::BuyerRedeemMwc, input, r),
            stays_on_buyer_side(r),
    {
        let time_limit = swap.get_time_mwc_redeem();
        match input {
            Input::Cancel => Ok(StateProcessRespond::new(StateId::BuyerWaitingForRefundTime)),
            Input::Check => {
                // Redeem slate is already published, can go forward
                if tx_conf.mwc_redeem_conf.unwrap_or(0) > 0 {
                    return Ok(StateProcessRespond::new(StateId::BuyerWaitForRedeemMwcConfirmations));
                }
                // Sorry, too late to redeem, risk is higher then expected
                if now > time_limit {
                    return Ok(StateProcessRespond::new(StateId::BuyerWaitingForRefundTime));
                }
                // Check if everything is still locked...
                let mwc_lock = tx_conf.mwc_lock_conf.unwrap_or(0);
                let secondary_lock = tx_conf.secondary_lock_conf.unwrap_or(0);
                if mwc_lock < swap.mwc_confirmations || secondary_lock < swap.secondary_confirmations {
                    return Ok(StateProcessRespond::new(StateId::BuyerWaitingForLockConfirmations));
                }
                // Still waiting...
                Ok(
                    StateProcessRespond::new(StateId::BuyerRedeemMwc).action(
                        Action::BuyerPublishMwcRedeemTx,
                    ).time_limit(time_limit),
                )
            },
            Input::Execute { .. } => {
                if now > time_limit {
                    // too late, exiting
                    return Ok(StateProcessRespond::new(StateId::BuyerWaitingForRefundTime));
                }
                // Check if everything is still locked...
                let mwc_lock = tx_conf.mwc_lock_conf.unwrap_or(0);
                let secondary_lock = tx_conf.secondary_lock_conf.unwrap_or(0);
                if mwc_lock < swap.mwc_confirmations || secondary_lock < swap.secondary_confirmations {
                    return Ok(StateProcessRespond::new(StateId::BuyerWaitingForLockConfirmations));
                }
                let published = publish_redeem(&swap.redeem_tx);
                if let Err(e) = published {
                    return Err(e);
                }
                swap.posted_redeem = Some(now);
                Ok(StateProcessRespond::new(StateId::BuyerWaitForRedeemMwcConfirmations))
            },
            _ => Err(invalid_input("BuyerRedeemMwc", &input)),
        }
    }

    pub fn get_prev_swap_state(&self) -> (s: Option<StateId>)
        ensures
            s == prev_state_of(StateId::BuyerRedeemMwc),
    {
        Some(StateId::BuyerWaitingForRespondRedeemMessage)
    }

    pub fn get_next_swap_state(&self) -> (s: Option<StateId>)
        ensures
            s == next_state_of(StateId::BuyerRedeemMwc),
    {
        Some(StateId::BuyerWaitForRedeemMwcConfirmations)
    }
}

// ---------------------------------------------------------------------------
// BuyerWaitForRedeemMwcConfirmations

/// State BuyerWaitForRedeemMwcConfirmations: the redeem transaction is
/// published; the buyer waits for its confirmations.
pub struct BuyerWaitForRedeemMwcConfirmations {}

/// The rules of BuyerWaitForRedeemMwcConfirmations.
pub open spec fn redeem_confirmations_step(
    swap: Swap,
    conf: SwapTransactionsConfirmations,
    input: Input,
    now: i64,
) -> Verdict {
    match input {
        Input::Check => {
            let redeem = confs(conf.mwc_redeem_conf);
            if redeem >= swap.secondary_confirmations {
                // We are done
                Verdict::Respond(moved(StateId::BuyerSwapComplete))
            } else if conf.mwc_redeem_conf is None && time_or_zero(swap.posted_redeem) < now
                - POST_MWC_RETRY_PERIOD {
                // Not seen long after posting: post again.
                Verdict::Respond(moved(StateId::BuyerRedeemMwc))
            } else {
                Verdict::Respond(
                    asked(
                        StateId::BuyerWaitForRedeemMwcConfirmations,
                        ActionView::WaitForMwcConfirmations {
                            name: "Redeem Transaction"@,
                            required: swap.mwc_confirmations,
                            actual: redeem,
                        },
                        None,
                    ),
                )
            }
        },
        _ => Verdict::InvalidInput(invalid_input_text("BuyerWaitForRedeemMwcConfirmations"@, input)),
    }
}

impl BuyerWaitForRedeemMwcConfirmations {
    /// Create new instance
    pub fn new() -> (s: Self)
        ensures
            s == (BuyerWaitForRedeemMwcConfirmations {}),
    {
        Self {}
    }

    pub fn get_state_id(&self) -> (id: StateId)
        ensures
            id == StateId::BuyerWaitForRedeemMwcConfirmations,
    {
        StateId::BuyerWaitForRedeemMwcConfirmations
    }

    pub fn get_name(&self) -> (name: String)
        ensures
            name@ == "Waiting For Redeem Tx Confirmations"@,
    {
        String::from_str("Waiting For Redeem Tx Confirmations")
    }

    pub fn is_cancellable(&self) -> (c: bool)
        ensures
            c == cancellable(StateId::BuyerWaitForRedeemMwcConfirmations),
    {
        false
    }

    /// Process the state. Result will be the next state
    pub fn process(
        &mut self,
        input: Input,
        swap: &mut Swap,
        tx_conf: &SwapTransactionsConfirmations,
        now: i64,
    ) -> (r: Result<StateProcessRespond, ErrorKind>)
        requires
            // The retry time is computed in `i64`.
            input is Check && tx_conf.mwc_redeem_conf is None && 0 < old(swap).secondary_confirmations
                ==> now >= i64::MIN + POST_MWC_RETRY_PERIOD,
        ensures
            *final(swap) == *old(swap),
            answered(r, redeem_confirmations_step(*old(swap), *tx_conf, input, now)),
            follows_workflow(StateId::BuyerWaitForRedeemMwcConfirmations, input, r),
            stays_on_buyer_side(r),
    {
        match input {
            Input::Check => {
                let conf = tx_conf.mwc_redeem_conf.unwrap_or(0);
                if conf >= swap.secondary_confirmations {
                    // We are done
                    return Ok(StateProcessRespond::new(StateId::BuyerSwapComplete));
                }
                if tx_conf.mwc_redeem_conf.is_none() && swap.posted_redeem.unwrap_or(0) < now
                    - POST_MWC_RETRY_PERIOD {
                    // We can retry to post
                    return Ok(StateProcessRespond::new(StateId::BuyerRedeemMwc));
                }
                Ok(
                    StateProcessRespond::new(StateId::BuyerWaitForRedeemMwcConfirmations).action(
                        Action::WaitForMwcConfirmations {
                            name: String::from_str("Redeem Transaction"),
                            required: swap.mwc_confirmations,
                            actual: conf,
                        },
                    ),
                )
            },
            _ => Err(invalid_input("BuyerWaitForRedeemMwcConfirmations", &input)),
        }
    }

    pub fn get_prev_swap_state(&self) -> (s: Option<StateId>)
        ensures
            s == prev_state_of(StateId::BuyerWaitForRedeemMwcConfirmations),
    {
        Some(StateId::BuyerRedeemMwc)
    }

    pub fn get_next_swap_state(&self) -> (s: Option<StateId>)
        ensures
            s == next_state_of(StateId::BuyerWaitForRedeemMwcConfirmations),
    {
        Some(StateId::BuyerSwapComplete)
    }
}

} // verus!
