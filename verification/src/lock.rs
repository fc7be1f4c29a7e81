//! The lock phase: the buyer deposits the secondary currency on the lock
//! account and waits until both lock transactions are confirmed.

use vstd::prelude::*;
use crate::types::{
    asked, confs, currency_symbol, invalid_input, invalid_input_text, locks_confirmed, moved, Action, ActionView,
    ErrorKind, Input, StateId, StateProcessRespond, Swap, SwapTransactionsConfirmations,
};
use crate::workflow::{answered, follows_workflow, next_state_of, prev_state_of, cancellable,
    stays_on_buyer_side, Verdict};

verus! {

// ---------------------------------------------------------------------------
// BuyerPostingSecondaryToMultisigAccount

/// State BuyerPostingSecondaryToMultisigAccount: the buyer deposits the
/// secondary currency on the lock account until the deposit is complete.
pub struct BuyerPostingSecondaryToMultisigAccount {}

/// The balance part of what the balance query answered.
pub open spec fn balance_of<S>(q: Result<(S, u64, u64), ErrorKind>) -> Result<(u64, u64), ErrorKind> {
    match q {
        Ok((_, pending, confirmed)) => Ok((pending, confirmed)),
        Err(e) => Err(e),
    }
}

/// An address answer, with the address taken by its characters.
pub open spec fn address_view(a: Result<String, ErrorKind>) -> Result<Seq<char>, ErrorKind> {
    match a {
        Ok(s) => Ok(s@),
        Err(e) => Err(e),
    }
}

/// A `Check` with this balance on the lock account asks for a deposit: less
/// than the deal's amount is there and the locking deadline has not passed.
pub open spec fn deposit_needed(swap: Swap, pending: u64, confirmed: u64, now: i64) -> bool {
    &&& pending + confirmed < swap.secondary_amount
    &&& now <= swap.time_start_lock
}

/// The rules of BuyerPostingSecondaryToMultisigAccount, from the balance
/// (pending, confirmed) the query found on a `Check` and the lock address
/// where a deposit is asked for.
pub open spec fn posting_secondary_step(
    swap: Swap,
    input: Input,
    now: i64,
    balance: Option<Result<(u64, u64), ErrorKind>>,
    address: Option<Result<Seq<char>, ErrorKind>>,
) -> Verdict {
    match input {
        // Funds might be posted already: cancelling goes through the refund.
        Input::Cancel => Verdict::Respond(moved(StateId::BuyerWaitingForRefundTime)),
        Input::Check => match balance.unwrap() {
            Err(e) => Verdict::Fail(e),
            Ok((pending, confirmed)) => {
                let chain_amount = pending + confirmed;
                let time_limit = swap.time_start_lock;
                if chain_amount != swap.secondary_amount && now > time_limit {
                    Verdict::Respond(moved(StateId::BuyerWaitingForRefundTime))
                } else if chain_amount < swap.secondary_amount {
                    match address.unwrap() {
                        Ok(a) => Verdict::Respond(
                            asked(
                                StateId::BuyerPostingSecondaryToMultisigAccount,
                                ActionView::DepositSecondary {
                                    currency: swap.secondary_currency,
                                    amount: (swap.secondary_amount - chain_amount) as u64,
                                    address: a,
                                },
                                Some(time_limit),
                            ),
                        ),
                        Err(e) => Verdict::Fail(e),
                    }
                } else if chain_amount > swap.secondary_amount {
                    // More than expected was posted: the deal is broken.
                    Verdict::Respond(moved(StateId::BuyerWaitingForRefundTime))
                } else {
                    Verdict::Respond(moved(StateId::BuyerWaitingForLockConfirmations))
                }
            },
        },
        _ => Verdict::InvalidInput(invalid_input_text("BuyerPostingSecondaryToMultisigAccount"@, input)),
    }
}

impl BuyerPostingSecondaryToMultisigAccount {
    /// Create new instance
    pub fn new() -> (s: Self)
        ensures
            s == (BuyerPostingSecondaryToMultisigAccount {}),
    {
        Self {}
    }

    pub fn get_state_id(&self) -> (id: StateId)
        ensures
            id == StateId::BuyerPostingSecondaryToMultisigAccount,
    {
        StateId::BuyerPostingSecondaryToMultisigAccount
    }

    pub fn get_name(&self) -> (name: String)
        ensures
            name@ == "Waiting for posting BTC to lock account"@,
    {
        String::from_str("Waiting for posting BTC to lock account")
    }

    pub fn is_cancellable(&self) -> (c: bool)
        ensures
            c == cancellable(StateId::BuyerPostingSecondaryToMultisigAccount),
    {
        true
    }

    /// Process the state. Result will be the next state.
    ///
    /// On a `Check`, `query_balance` finds the lock account's script and the
    /// pending and confirmed amounts on it; `deposit_address` turns the script
    /// into the address to deposit to, and is called only where
    /// `deposit_needed` holds.
    pub fn process<S, F, G>(
        &mut self,
        input: Input,
        swap: &mut Swap,
        tx_conf: &SwapTransactionsConfirmations,
        now: i64,
        query_balance: F,
        deposit_address: G,
    ) -> (r: Result<StateProcessRespond, ErrorKind>) where
        F: FnOnce() -> Result<(S, u64, u64), ErrorKind>,
        G: FnOnce(S) -> Result<String, ErrorKind>,

        requires
            input is Check ==> call_requires(query_balance, ()),
            input is Check ==> forall|q: Result<(S, u64, u64), ErrorKind>|
                #[trigger] call_ensures(query_balance, (), q) && q is Ok && deposit_needed(
                    *old(swap),
                    q->Ok_0.1,
                    q->Ok_0.2,
                    now,
                ) ==> call_requires(deposit_address, (q->Ok_0.0,)),
        ensures
            *final(swap) == *old(swap),
            input is Check ==> exists|q: Result<(S, u64, u64), ErrorKind>|
                #[trigger] call_ensures(query_balance, (), q) && ({
                    if q is Ok && deposit_needed(*old(swap), q->Ok_0.1, q->Ok_0.2, now) {
                        exists|a: Result<String, ErrorKind>|
                            #[trigger] call_ensures(deposit_address, (q->Ok_0.0,), a) && answered(
                                r,
                                posting_secondary_step(
                                    *old(swap),
                                    input,
                                    now,
                                    Some(balance_of(q)),
                                    Some(address_view(a)),
                                ),
                            )
                    } else {
                        answered(r, posting_secondary_step(*old(swap), input, now, Some(balance_of(q)), None))
                    }
                }),
            !(input is Check) ==> answered(r, posting_secondary_step(*old(swap), input, now, None, None)),
            follows_workflow(StateId::BuyerPostingSecondaryToMultisigAccount, input, r),
            stays_on_buyer_side(r),
    {
        match input {
            // We can't just cancel. Funds might be posted, it is a manual process.
            Input::Cancel => Ok(StateProcessRespond::new(StateId::BuyerWaitingForRefundTime)),
            Input::Check => {
                let queried = query_balance();
                let (input_script, pending_amount, confirmed_amount) = match queried {
                    Ok(t) => t,
                    Err(e) => {
                        return Err(e);
                    },
                };
                // The sum is taken wide, so that no amount overflows.
                let chain_amount: u128 = pending_amount as u128 + confirmed_amount as u128;
                let secondary_amount: u128 = swap.secondary_amount as u128;
                let time_limit = swap.get_time_start_lock();

                // Check the deadline for locking
                if chain_amount != secondary_amount {
                    if now > time_limit {
                        // cancelling because of timeout
                        return Ok(StateProcessRespond::new(StateId::BuyerWaitingForRefundTime));
                    }
                }
                if chain_amount < secondary_amount {
                    // At this point, user needs to deposit (more) of the secondary currency
                    let addressed = deposit_address(input_script);
                    let address = match addressed {
                        Ok(a) => a,
                        Err(e) => {
                            return Err(e);
                        },
                    };
                    let missing: u64 = (secondary_amount - chain_amount) as u64;
                    return Ok(
                        StateProcessRespond::new(StateId::BuyerPostingSecondaryToMultisigAccount).action(
                            Action::DepositSecondary {
                                currency: swap.secondary_currency,
                                amount: missing,
                                address,
                            },
                        ).time_limit(time_limit),
                    );
                }
                // Posted more then expected. We are not going forward. Deal is broken, probably it
                // is a mistake. We are cancelling the trade because of that.
                if chain_amount > secondary_amount {
                    return Ok(StateProcessRespond::new(StateId::BuyerWaitingForRefundTime));
                }
                Ok(StateProcessRespond::new(StateId::BuyerWaitingForLockConfirmations))
            },
            _ => Err(invalid_input("BuyerPostingSecondaryToMultisigAccount", &input)),
        }
    }

    pub fn get_prev_swap_state(&self) -> (s: Option<StateId>)
        ensures
            s == prev_state_of(StateId::BuyerPostingSecondaryToMultisigAccount),
    {
        Some(StateId::BuyerWaitingForSellerToLock)
    }

    pub fn get_next_swap_state(&self) -> (s: Option<StateId>)
        ensures
            s == next_state_of(StateId::BuyerPostingSecondaryToMultisigAccount),
    {
        Some(StateId::BuyerWaitingForLockConfirmations)
    }
}

// ---------------------------------------------------------------------------
// BuyerWaitingForLockConfirmations

/// State BuyerWaitingForLockConfirmations: both parties' lock transactions
/// gather confirmations; once they have enough, the redeem slate is prepared.
pub struct BuyerWaitingForLockConfirmations {}

/// A `Check` in BuyerWaitingForLockConfirmations prepares the redeem slate:
/// the deposit is exactly the deal's amount, both locks are confirmed, and the
/// redeem slate lacks the buyer's part or the adaptor signature.
pub open spec fn lock_check_inits_redeem(
    swap: Swap,
    conf: SwapTransactionsConfirmations,
    input: Input,
    now: i64,
) -> bool {
    &&& input is Check
    &&& conf.secondary_lock_amount == swap.secondary_amount
    &&& locks_confirmed(swap, conf)
    &&& (swap.redeem_participants <= 1 || !swap.has_adaptor_signature)
}

/// The rules of BuyerWaitingForLockConfirmations, from the outcome of
/// preparing the redeem slate where a `Check` prepares it: the slate's
/// participant count and whether the adaptor signature is present afterwards.
/// The result is the swap and the verdict.
pub open spec fn lock_confirmations_step(
    swap: Swap,
    conf: SwapTransactionsConfirmations,
    input: Input,
    now: i64,
    init: Option<Result<(usize, bool), ErrorKind>>,
) -> (Swap, Verdict) {
    match input {
        Input::Cancel => (swap, Verdict::Respond(moved(StateId::BuyerWaitingForRefundTime))),
        Input::Check => {
            let mwc_lock = confs(conf.mwc_lock_conf);
            let secondary_lock = confs(conf.secondary_lock_conf);
            let time_limit = swap.time_message_redeem;
            if conf.secondary_lock_amount < swap.secondary_amount {
                // Need to deposit more.
                (swap, Verdict::Respond(moved(StateId::BuyerPostingSecondaryToMultisigAccount)))
            } else if conf.secondary_lock_amount > swap.secondary_amount {
                // Posted too much: answered with the seller's refund state.
                (swap, Verdict::Respond(moved(StateId::SellerWaitingForRefundHeight)))
            } else if !locks_confirmed(swap, conf) && now > time_limit {
                (swap, Verdict::Respond(moved(StateId::BuyerWaitingForRefundTime)))
            } else if secondary_lock < swap.secondary_confirmations {
                // Every party waits first on its own funds; for the buyer that is the secondary.
                (swap, Verdict::Respond(
                    asked(
                        StateId::BuyerWaitingForLockConfirmations,
                        ActionView::WaitForSecondaryConfirmations {
                            name: currency_symbol(swap.secondary_currency) + " Locking Account"@,
                            currency: swap.secondary_currency,
                            required: swap.secondary_confirmations,
                            actual: secondary_lock,
                        },
                        Some(time_limit),
                    ),
                ))
            } else if mwc_lock < swap.mwc_confirmations {
                (swap, Verdict::Respond(
                    asked(
                        StateId::BuyerWaitingForLockConfirmations,
                        ActionView::WaitForMwcConfirmations {
                            name: "MWC Lock transaction"@,
                            required: swap.mwc_confirmations,
                            actual: mwc_lock,
                        },
                        Some(time_limit),
                    ),
                ))
            } else if swap.redeem_participants <= 1 || !swap.has_adaptor_signature {
                match init.unwrap() {
                    Ok((participants, adaptor)) => (
                        Swap { redeem_participants: participants, has_adaptor_signature: adaptor, ..swap },
                        Verdict::Respond(moved(StateId::BuyerSendingInitRedeemMessage)),
                    ),
                    Err(e) => (swap, Verdict::Fail(e)),
                }
            } else {
                (swap, Verdict::Respond(moved(StateId::BuyerSendingInitRedeemMessage)))
            }
        },
        _ => (swap, Verdict::InvalidInput(invalid_input_text("BuyerWaitingForLockConfirmations"@, input))),
    }
}

impl BuyerWaitingForLockConfirmations {
    /// Create new instance
    pub fn new() -> (s: Self)
        ensures
            s == (BuyerWaitingForLockConfirmations {}),
    {
        Self {}
    }

    pub fn get_state_id(&self) -> (id: StateId)
        ensures
            id == StateId::BuyerWaitingForLockConfirmations,
    {
        StateId::BuyerWaitingForLockConfirmations
    }

    pub fn get_name(&self) -> (name: String)
        ensures
            name@ == "Waiting for Locking funds confirmations"@,
    {
        String::from_str("Waiting for Locking funds confirmations")
    }

    pub fn is_cancellable(&self) -> (c: bool)
        ensures
            c == cancellable(StateId::BuyerWaitingForLockConfirmations),
    {
        true
    }

    /// Process the state. Result will be the next state.
    ///
    /// `init_redeem` prepares the redeem slate in the wallet and answers with
    /// the slate's participant count and whether the adaptor signature is now
    /// present, which are recorded in the swap; it is called only where
    /// `lock_check_inits_redeem` holds.
    pub fn process<F>(
        &mut self,
        input: Input,
        swap: &mut Swap,
        tx_conf: &SwapTransactionsConfirmations,
        now: i64,
        init_redeem: F,
    ) -> (r: Result<StateProcessRespond, ErrorKind>) where F: FnOnce() -> Result<(usize, bool), ErrorKind>
        requires
            lock_check_inits_redeem(*old(swap), *tx_conf, input, now) ==> call_requires(init_redeem, ()),
        ensures
            lock_check_inits_redeem(*old(swap), *tx_conf, input, now) ==> exists|b|
                #[trigger] call_ensures(init_redeem, (), b) && ({
                    let (s, v) = lock_confirmations_step(*old(swap), *tx_conf, input, now, Some(b));
                    *final(swap) == s && answered(r, v)
                }),
            !lock_check_inits_redeem(*old(swap), *tx_conf, input, now) ==> ({
                let (s, v) = lock_confirmations_step(*old(swap), *tx_conf, input, now, None);
                *final(swap) == s && answered(r, v)
            }),
            follows_workflow(StateId::BuyerWaitingForLockConfirmations, input, r),
            // Only an over-funded lock account leads out of the buyer's workflow.
            !(input is Check && tx_conf.secondary_lock_amount > old(swap).secondary_amount)
                ==> stays_on_buyer_side(r),
    {
        match input {
            // Long cancellation path
            Input::Cancel => Ok(StateProcessRespond::new(StateId::BuyerWaitingForRefundTime)),
            Input::Check => {
                let mwc_lock = tx_conf.mwc_lock_conf.unwrap_or(0);
                let secondary_lock = tx_conf.secondary_lock_conf.unwrap_or(0);

                if tx_conf.secondary_lock_amount < swap.secondary_amount {
                    // Need to deposit more. Something happens? Likely will be cancelled because of timeout.
                    return Ok(StateProcessRespond::new(StateId::BuyerPostingSecondaryToMultisigAccount));
                }
                if tx_conf.secondary_lock_amount > swap.secondary_amount {
                    // Posted too much, bayer probably will cancel the deal, let's be in sync
                    return Ok(StateProcessRespond::new(StateId::SellerWaitingForRefundHeight));
                }

                let time_limit = swap.get_time_message_redeem();
                if mwc_lock < swap.mwc_confirmations || secondary_lock < swap.secondary_confirmations {
                    // Checking for a deadline. Note time_message_redeem is fine, we can borrow time
                    // from that operation and still be safe
                    if now > time_limit {
                        // cancelling because of timeout
                        return Ok(StateProcessRespond::new(StateId::BuyerWaitingForRefundTime));
                    }
                }

                // Every party waiting first on there own funds. For buyer it is the secondary
                if secondary_lock < swap.secondary_confirmations {
                    let name = swap.secondary_currency.symbol().concat(" Locking Account");
                    return Ok(
                        StateProcessRespond::new(StateId::BuyerWaitingForLockConfirmations).action(
                            Action::WaitForSecondaryConfirmations {
                                name,
                                currency: swap.secondary_currency,
                                required: swap.secondary_confirmations,
                                actual: secondary_lock,
                            },
                        ).time_limit(time_limit),
                    );
                }
                if mwc_lock < swap.mwc_confirmations {
                    return Ok(
                        StateProcessRespond::new(StateId::BuyerWaitingForLockConfirmations).action(
                            Action::WaitForMwcConfirmations {
                                name: String::from_str("MWC Lock transaction"),
                                required: swap.mwc_confirmations,
                                actual: mwc_lock,
                            },
                        ).time_limit(time_limit),
                    );
                }

                // If we got here, funds have been locked on both chains with sufficient confirmations
                // On the first run - let's update the swap data
                if swap.redeem_participants <= 1 || !swap.has_adaptor_signature {
                    let prepared = init_redeem();
                    match prepared {
                        Ok((participants, adaptor)) => {
                            swap.redeem_participants = participants;
                            swap.has_adaptor_signature = adaptor;
                        },
                        Err(e) => {
                            return Err(e);
                        },
                    }
                }
                Ok(StateProcessRespond::new(StateId::BuyerSendingInitRedeemMessage))
            },
            _ => Err(invalid_input("BuyerWaitingForLockConfirmations", &input)),
        }
    }

    pub fn get_prev_swap_state(&self) -> (s: Option<StateId>)
        ensures
            s == prev_state_of(StateId::BuyerWaitingForLockConfirmations),
    {
        Some(StateId::BuyerPostingSecondaryToMultisigAccount)
    }

    pub fn get_next_swap_state(&self) -> (s: Option<StateId>)
        ensures
            s == next_state_of(StateId::BuyerWaitingForLockConfirmations),
    {
        Some(StateId::BuyerSendingInitRedeemMessage)
    }
}

} // verus!
