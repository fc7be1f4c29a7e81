//! What each state of the buyer's workflow answers, stated region by region
//! of its inputs: the deadlines, the confirmation counts, the amounts and the
//! currency that decide each answer, and what the answer then is.

use vstd::prelude::*;
use crate::types::{
    asked, confs, currency_symbol, decimal_text, digit_text, fee_text, input_text, optional_string_text, invalid_input_text, locks_confirmed, moved, time_or_zero, ActionView,
    Currency, ErrorKind, FeeRate, Input, Message, StateId, Swap, SwapTransactionsConfirmations,
};
use crate::workflow::{cancellable, next_state_of, Verdict, POST_MWC_RETRY_PERIOD, POST_SECONDARY_RETRY_PERIOD};
use crate::offer::{accept_offer_builds, accept_offer_step, offer_created_step, seller_lock_step};
use crate::lock::{deposit_needed, lock_check_inits_redeem, lock_confirmations_step, posting_secondary_step};
use crate::redeem::{
    init_redeem_builds, init_redeem_step, redeem_confirmations_step, redeem_mwc_step,
    redeem_publishes, respond_redeem_check, respond_redeem_step,
};
use crate::refund::{posting_refund_step, refund_confirmations_step, refund_time_step};
use crate::done::final_state_step;

verus! {

/// A fresh offer is looked at with `Check` (on to accepting it) or dropped
/// with `Cancel` (the swap ends, nothing was locked).
pub proof fn lemma_offer_created_answers()
    ensures
        offer_created_step(Input::Check) == Verdict::Respond(moved(StateId::BuyerSendingAcceptOfferMessage)),
        offer_created_step(Input::Cancel) == Verdict::Respond(moved(StateId::BuyerCancelled)),
{
}

/// Accepting the offer: an acceptance already sent moves on; none sent after
/// the offer deadline cancels; otherwise the one message (built now if need
/// be) is sent with the offer deadline; `Execute` records it as sent.
pub proof fn lemma_accept_offer_answers(
    cached: Option<Message>,
    swap: Swap,
    now: i64,
    built: Option<Result<Message, ErrorKind>>,
    m: Message,
    e: ErrorKind,
    refund_address: Option<String>,
    fee: Option<FeeRate>,
)
    ensures
        swap.message1 is Some ==> accept_offer_step(cached, swap, Input::Check, now, built) == (
            cached,
            swap,
            Verdict::Respond(moved(StateId::BuyerWaitingForSellerToLock)),
        ),
        swap.message1 is None && now >= swap.time_message_offers ==> accept_offer_step(
            cached,
            swap,
            Input::Check,
            now,
            built,
        ) == (cached, swap, Verdict::Respond(moved(StateId::BuyerCancelled))),
        swap.message1 is None && now < swap.time_message_offers && cached == Some(m)
            ==> accept_offer_step(cached, swap, Input::Check, now, built) == (
            cached,
            swap,
            Verdict::Respond(
                asked(
                    StateId::BuyerSendingAcceptOfferMessage,
                    ActionView::BuyerSendAcceptOfferMessage(m@),
                    Some(swap.time_message_offers),
                ),
            ),
        ),
        accept_offer_builds(None, swap, Input::Check, now) ==> accept_offer_step(
            None,
            swap,
            Input::Check,
            now,
            Some(Ok(m)),
        ) == (
            Some(m),
            swap,
            Verdict::Respond(
                asked(
                    StateId::BuyerSendingAcceptOfferMessage,
                    ActionView::BuyerSendAcceptOfferMessage(m@),
                    Some(swap.time_message_offers),
                ),
            ),
        ),
        accept_offer_builds(None, swap, Input::Check, now) ==> accept_offer_step(
            None,
            swap,
            Input::Check,
            now,
            Some(Err(e)),
        ) == (None::<Message>, swap, Verdict::Fail(e)),
        accept_offer_builds(cached, swap, Input::Check, now) <==> (swap.message1 is None && now
            < swap.time_message_offers && cached is None),
        accept_offer_step(cached, swap, Input::Execute { refund_address, fee_satoshi_per_byte: fee }, now, built)
            == (
            cached,
            Swap { message1: cached, posted_msg1: Some(now), ..swap },
            Verdict::Respond(moved(StateId::BuyerWaitingForSellerToLock)),
        ),
        accept_offer_step(cached, swap, Input::Cancel, now, built) == (
            cached,
            swap,
            Verdict::Respond(moved(StateId::BuyerCancelled)),
        ),
{
}

/// Waiting for the seller's lock: after the locking deadline the swap is
/// cancelled; before it, a buyer who locks first goes on at once, and
/// otherwise the seller's MWC lock needs one confirmation before the buyer
/// deposits.
pub proof fn lemma_seller_lock_answers(swap: Swap, conf: SwapTransactionsConfirmations, now: i64)
    ensures
        now > swap.time_start_lock ==> seller_lock_step(swap, conf, Input::Check, now) == Verdict::Respond(
            moved(StateId::BuyerCancelled),
        ),
        now <= swap.time_start_lock && !swap.seller_lock_first ==> seller_lock_step(
            swap,
            conf,
            Input::Check,
            now,
        ) == Verdict::Respond(moved(StateId::BuyerPostingSecondaryToMultisigAccount)),
        now <= swap.time_start_lock && swap.seller_lock_first && confs(conf.mwc_lock_conf) < 1
            ==> seller_lock_step(swap, conf, Input::Check, now) == Verdict::Respond(
            asked(
                StateId::BuyerWaitingForSellerToLock,
                ActionView::WaitForMwcConfirmations {
                    name: "Seller to lock funds"@,
                    required: 1,
                    actual: confs(conf.mwc_lock_conf),
                },
                Some(swap.time_start_lock),
            ),
        ),
        now <= swap.time_start_lock && swap.seller_lock_first && confs(conf.mwc_lock_conf) >= 1
            ==> seller_lock_step(swap, conf, Input::Check, now) == Verdict::Respond(
            moved(StateId::BuyerPostingSecondaryToMultisigAccount),
        ),
        seller_lock_step(swap, conf, Input::Cancel, now) == Verdict::Respond(moved(StateId::BuyerCancelled)),
{
}

/// Depositing the secondary currency, with `pending + confirmed` on the lock
/// account: the exact amount goes on to the lock confirmations at any time;
/// any other amount after the locking deadline goes to the refund; too much
/// goes to the refund; too little, in time, asks to deposit the missing amount
/// of the swap's secondary currency to the lock address.
pub proof fn lemma_posting_secondary_answers(
    swap: Swap,
    now: i64,
    pending: u64,
    confirmed: u64,
    address: Option<Result<Seq<char>, ErrorKind>>,
    a: Seq<char>,
    e: ErrorKind,
)
    ensures
        ({
            let v = posting_secondary_step(swap, Input::Check, now, Some(Ok((pending, confirmed))), address);
            &&& pending + confirmed == swap.secondary_amount ==> v == Verdict::Respond(
                moved(StateId::BuyerWaitingForLockConfirmations),
            )
            &&& pending + confirmed != swap.secondary_amount && now > swap.time_start_lock ==> v
                == Verdict::Respond(moved(StateId::BuyerWaitingForRefundTime))
            &&& pending + confirmed > swap.secondary_amount ==> v == Verdict::Respond(
                moved(StateId::BuyerWaitingForRefundTime),
            )
            &&& (v is Respond && v->Respond_0.action is Some && v->Respond_0.action->0 is DepositSecondary)
                ==> v->Respond_0.action->0->DepositSecondary_currency == swap.secondary_currency
        }),
        deposit_needed(swap, pending, confirmed, now) <==> (pending + confirmed < swap.secondary_amount
            && now <= swap.time_start_lock),
        deposit_needed(swap, pending, confirmed, now) ==> posting_secondary_step(
            swap,
            Input::Check,
            now,
            Some(Ok((pending, confirmed))),
            Some(Ok(a)),
        ) == Verdict::Respond(
            asked(
                StateId::BuyerPostingSecondaryToMultisigAccount,
                ActionView::DepositSecondary {
                    currency: swap.secondary_currency,
                    amount: (swap.secondary_amount - (pending + confirmed)) as u64,
                    address: a,
                },
                Some(swap.time_start_lock),
            ),
        ),
        deposit_needed(swap, pending, confirmed, now) ==> posting_secondary_step(
            swap,
            Input::Check,
            now,
            Some(Ok((pending, confirmed))),
            Some(Err(e)),
        ) == Verdict::Fail(e),
        posting_secondary_step(swap, Input::Check, now, Some(Err(e)), address) == Verdict::Fail(e),
        posting_secondary_step(swap, Input::Cancel, now, None, None) == Verdict::Respond(
            moved(StateId::BuyerWaitingForRefundTime),
        ),
{
}

/// Waiting for the lock confirmations, once the deposit is exactly the deal's
/// amount: a lock still short of its confirmations after the redeem-message
/// deadline goes to the refund; in time, the buyer's own secondary lock is
/// awaited first, then the MWC lock, each with its required and actual counts
/// and the deadline; with both confirmed the redeem slate is prepared when it
/// is not yet, its outcome recorded, and the buyer goes on. A deposit short of
/// the amount goes back to depositing.
pub proof fn lemma_lock_confirmations_answers(
    swap: Swap,
    conf: SwapTransactionsConfirmations,
    now: i64,
    init: Option<Result<(usize, bool), ErrorKind>>,
    participants: usize,
    adaptor: bool,
    e: ErrorKind,
)
    ensures
        conf.secondary_lock_amount < swap.secondary_amount ==> lock_confirmations_step(
            swap,
            conf,
            Input::Check,
            now,
            init,
        ) == (swap, Verdict::Respond(moved(StateId::BuyerPostingSecondaryToMultisigAccount))),
        conf.secondary_lock_amount == swap.secondary_amount && now > swap.time_message_redeem && (confs(
            conf.secondary_lock_conf,
        ) < swap.secondary_confirmations || confs(conf.mwc_lock_conf) < swap.mwc_confirmations)
            ==> lock_confirmations_step(swap, conf, Input::Check, now, init) == (
            swap,
            Verdict::Respond(moved(StateId::BuyerWaitingForRefundTime)),
        ),
        conf.secondary_lock_amount == swap.secondary_amount && now <= swap.time_message_redeem && confs(
            conf.secondary_lock_conf,
        ) < swap.secondary_confirmations ==> lock_confirmations_step(swap, conf, Input::Check, now, init)
            == (
            swap,
            Verdict::Respond(
                asked(
                    StateId::BuyerWaitingForLockConfirmations,
                    ActionView::WaitForSecondaryConfirmations {
                        name: currency_symbol(swap.secondary_currency) + " Locking Account"@,
                        currency: swap.secondary_currency,
                        required: swap.secondary_confirmations,
                        actual: confs(conf.secondary_lock_conf),
                    },
                    Some(swap.time_message_redeem),
                ),
            ),
        ),
        conf.secondary_lock_amount == swap.secondary_amount && now <= swap.time_message_redeem && confs(
            conf.secondary_lock_conf,
        ) >= swap.secondary_confirmations && confs(conf.mwc_lock_conf) < swap.mwc_confirmations
            ==> lock_confirmations_step(swap, conf, Input::Check, now, init) == (
            swap,
            Verdict::Respond(
                asked(
                    StateId::BuyerWaitingForLockConfirmations,
                    ActionView::WaitForMwcConfirmations {
                        name: "MWC Lock transaction"@,
                        required: swap.mwc_confirmations,
                        actual: confs(conf.mwc_lock_conf),
                    },
                    Some(swap.time_message_redeem),
                ),
            ),
        ),
        lock_check_inits_redeem(swap, conf, Input::Check, now) <==> (conf.secondary_lock_amount
            == swap.secondary_amount && locks_confirmed(swap, conf) && (swap.redeem_participants <= 1
            || !swap.has_adaptor_signature)),
        lock_check_inits_redeem(swap, conf, Input::Check, now) ==> lock_confirmations_step(
            swap,
            conf,
            Input::Check,
            now,
            Some(Ok((participants, adaptor))),
        ) == (
            Swap { redeem_participants: participants, has_adaptor_signature: adaptor, ..swap },
            Verdict::Respond(moved(StateId::BuyerSendingInitRedeemMessage)),
        ),
        lock_check_inits_redeem(swap, conf, Input::Check, now) ==> lock_confirmations_step(
            swap,
            conf,
            Input::Check,
            now,
            Some(Err(e)),
        ) == (swap, Verdict::Fail(e)),
        conf.secondary_lock_amount == swap.secondary_amount && locks_confirmed(swap, conf)
            && swap.redeem_participants > 1 && swap.has_adaptor_signature ==> lock_confirmations_step(
            swap,
            conf,
            Input::Check,
            now,
            init,
        ) == (swap, Verdict::Respond(moved(StateId::BuyerSendingInitRedeemMessage))),
        lock_confirmations_step(swap, conf, Input::Cancel, now, init) == (
            swap,
            Verdict::Respond(moved(StateId::BuyerWaitingForRefundTime)),
        ),
{
}

/// Sending the redeem initiation: locks that lost their confirmations send the
/// buyer back to wait for them; a message already sent moves on; none sent by
/// the redeem-message deadline goes to the refund, whatever the state holds;
/// in time the one message (built now if need be) is sent with the deadline;
/// `Execute` records it as sent.
pub proof fn lemma_init_redeem_answers(
    cached: Option<Message>,
    swap: Swap,
    conf: SwapTransactionsConfirmations,
    now: i64,
    built: Option<Result<Message, ErrorKind>>,
    m: Message,
    e: ErrorKind,
    refund_address: Option<String>,
    fee: Option<FeeRate>,
)
    ensures
        !locks_confirmed(swap, conf) ==> init_redeem_step(cached, swap, conf, Input::Check, now, built) == (
            cached,
            swap,
            Verdict::Respond(moved(StateId::BuyerWaitingForLockConfirmations)),
        ),
        locks_confirmed(swap, conf) && swap.message2 is Some ==> init_redeem_step(
            cached,
            swap,
            conf,
            Input::Check,
            now,
            built,
        ) == (cached, swap, Verdict::Respond(moved(StateId::BuyerWaitingForRespondRedeemMessage))),
        locks_confirmed(swap, conf) && swap.message2 is None && now >= swap.time_message_redeem
            ==> init_redeem_step(cached, swap, conf, Input::Check, now, built) == (
            cached,
            swap,
            Verdict::Respond(moved(StateId::BuyerWaitingForRefundTime)),
        ),
        locks_confirmed(swap, conf) && swap.message2 is None && now < swap.time_message_redeem && cached
            == Some(m) ==> init_redeem_step(cached, swap, conf, Input::Check, now, built) == (
            cached,
            swap,
            Verdict::Respond(
                asked(
                    StateId::BuyerSendingInitRedeemMessage,
                    ActionView::BuyerSendInitRedeemMessage(m@),
                    Some(swap.time_message_redeem),
                ),
            ),
        ),
        init_redeem_builds(None, swap, conf, Input::Check, now) ==> init_redeem_step(
            None,
            swap,
            conf,
            Input::Check,
            now,
            Some(Ok(m)),
        ) == (
            Some(m),
            swap,
            Verdict::Respond(
                asked(
                    StateId::BuyerSendingInitRedeemMessage,
                    ActionView::BuyerSendInitRedeemMessage(m@),
                    Some(swap.time_message_redeem),
                ),
            ),
        ),
        init_redeem_builds(None, swap, conf, Input::Check, now) ==> init_redeem_step(
            None,
            swap,
            conf,
            Input::Check,
            now,
            Some(Err(e)),
        ) == (None::<Message>, swap, Verdict::Fail(e)),
        init_redeem_builds(cached, swap, conf, Input::Check, now) <==> (locks_confirmed(swap, conf)
            && swap.message2 is None && now < swap.time_message_redeem && cached is None),
        init_redeem_step(
            cached,
            swap,
            conf,
            Input::Execute { refund_address, fee_satoshi_per_byte: fee },
            now,
            built,
        ) == (
            cached,
            Swap { message2: cached, ..swap },
            Verdict::Respond(moved(StateId::BuyerWaitingForRespondRedeemMessage)),
        ),
        init_redeem_step(cached, swap, conf, Input::Cancel, now, built) == (
            cached,
            swap,
            Verdict::Respond(moved(StateId::BuyerWaitingForRefundTime)),
        ),
{
}

/// Waiting for the seller's redeem answer: locks that lost their
/// confirmations send the buyer back to wait for them; with both confirmed, a
/// refund slate that validates means the exchange was already completed and
/// the buyer goes on to redeem, whatever the time; otherwise the buyer waits
/// until the redeem-message deadline and then goes to the refund. An incoming
/// answer completes the redeem slate, whose transaction the swap records.
pub proof fn lemma_respond_redeem_answers(
    swap: Swap,
    conf: SwapTransactionsConfirmations,
    now: i64,
    refund_valid: bool,
    m: Message,
    tx: grin_core::core::transaction::Transaction,
    e: ErrorKind,
)
    ensures
        !locks_confirmed(swap, conf) ==> respond_redeem_check(swap, conf, now, refund_valid) == moved(
            StateId::BuyerWaitingForLockConfirmations,
        ),
        locks_confirmed(swap, conf) ==> respond_redeem_check(swap, conf, now, true) == moved(
            StateId::BuyerRedeemMwc,
        ),
        locks_confirmed(swap, conf) && now < swap.time_message_redeem ==> respond_redeem_check(
            swap,
            conf,
            now,
            false,
        ) == asked(
            StateId::BuyerWaitingForRespondRedeemMessage,
            ActionView::BuyerWaitingForRedeemMessage,
            Some(swap.time_message_redeem),
        ),
        locks_confirmed(swap, conf) && now >= swap.time_message_redeem ==> respond_redeem_check(
            swap,
            conf,
            now,
            false,
        ) == moved(StateId::BuyerWaitingForRefundTime),
        respond_redeem_step(swap, conf, Input::Check, now, refund_valid, None) == (
            swap,
            Verdict::Respond(respond_redeem_check(swap, conf, now, refund_valid)),
        ),
        respond_redeem_step(swap, conf, Input::IncomeMessage(m), now, refund_valid, Some(Ok(tx))) == (
            Swap { redeem_tx: tx, ..swap },
            Verdict::Respond(moved(StateId::BuyerRedeemMwc)),
        ),
        respond_redeem_step(swap, conf, Input::IncomeMessage(m), now, refund_valid, Some(Err(e))) == (
            swap,
            Verdict::Fail(e),
        ),
        respond_redeem_step(swap, conf, Input::Cancel, now, refund_valid, None) == (
            swap,
            Verdict::Respond(moved(StateId::BuyerWaitingForRefundTime)),
        ),
{
}

/// Redeeming the MWC: a redeem transaction already seen moves on to its
/// confirmations; after the redeem deadline the buyer goes to the refund;
/// locks that lost their confirmations send the buyer back; otherwise a check
/// asks to publish with the deadline, and `Execute` publishes, recording the
/// posting time only when the publication succeeded.
pub proof fn lemma_redeem_mwc_answers(
    swap: Swap,
    conf: SwapTransactionsConfirmations,
    now: i64,
    published: Option<Result<(), ErrorKind>>,
    e: ErrorKind,
    refund_address: Option<String>,
    fee: Option<FeeRate>,
)
    ensures
        confs(conf.mwc_redeem_conf) > 0 ==> redeem_mwc_step(swap, conf, Input::Check, now, published) == (
            swap,
            Verdict::Respond(moved(StateId::BuyerWaitForRedeemMwcConfirmations)),
        ),
        confs(conf.mwc_redeem_conf) == 0 && now > swap.time_mwc_redeem ==> redeem_mwc_step(
            swap,
            conf,
            Input::Check,
            now,
            published,
        ) == (swap, Verdict::Respond(moved(StateId::BuyerWaitingForRefundTime))),
        confs(conf.mwc_redeem_conf) == 0 && now <= swap.time_mwc_redeem && !locks_confirmed(swap, conf)
            ==> redeem_mwc_step(swap, conf, Input::Check, now, published) == (
            swap,
            Verdict::Respond(moved(StateId::BuyerWaitingForLockConfirmations)),
        ),
        confs(conf.mwc_redeem_conf) == 0 && now <= swap.time_mwc_redeem && locks_confirmed(swap, conf)
            ==> redeem_mwc_step(swap, conf, Input::Check, now, published) == (
            swap,
            Verdict::Respond(
                asked(StateId::BuyerRedeemMwc, ActionView::BuyerPublishMwcRedeemTx, Some(swap.time_mwc_redeem)),
            ),
        ),
        ({
            let execute = Input::Execute { refund_address, fee_satoshi_per_byte: fee };
            &&& now > swap.time_mwc_redeem ==> redeem_mwc_step(swap, conf, execute, now, published) == (
                swap,
                Verdict::Respond(moved(StateId::BuyerWaitingForRefundTime)),
            )
            &&& now <= swap.time_mwc_redeem && !locks_confirmed(swap, conf) ==> redeem_mwc_step(
                swap,
                conf,
                execute,
                now,
                published,
            ) == (swap, Verdict::Respond(moved(StateId::BuyerWaitingForLockConfirmations)))
            &&& redeem_publishes(swap, conf, execute, now) <==> (now <= swap.time_mwc_redeem
                && locks_confirmed(swap, conf))
            &&& redeem_publishes(swap, conf, execute, now) ==> redeem_mwc_step(
                swap,
                conf,
                execute,
                now,
                Some(Ok(())),
            ) == (
                Swap { posted_redeem: Some(now), ..swap },
                Verdict::Respond(moved(StateId::BuyerWaitForRedeemMwcConfirmations)),
            )
            &&& redeem_publishes(swap, conf, execute, now) ==> redeem_mwc_step(
                swap,
                conf,
                execute,
                now,
                Some(Err(e)),
            ) == (swap, Verdict::Fail(e))
        }),
        redeem_mwc_step(swap, conf, Input::Cancel, now, published) == (
            swap,
            Verdict::Respond(moved(StateId::BuyerWaitingForRefundTime)),
        ),
{
}

/// Waiting for the redeem confirmations: with as many as the secondary
/// confirmations the swap is complete; a redeem transaction not seen long
/// after it was posted is posted again; otherwise the buyer waits, shown the
/// required MWC confirmations and the actual count, with no deadline.
pub proof fn lemma_redeem_confirmations_answers(swap: Swap, conf: SwapTransactionsConfirmations, now: i64)
    ensures
        confs(conf.mwc_redeem_conf) >= swap.secondary_confirmations ==> redeem_confirmations_step(
            swap,
            conf,
            Input::Check,
            now,
        ) == Verdict::Respond(moved(StateId::BuyerSwapComplete)),
        confs(conf.mwc_redeem_conf) < swap.secondary_confirmations && conf.mwc_redeem_conf is None
            && time_or_zero(swap.posted_redeem) < now - POST_MWC_RETRY_PERIOD ==> redeem_confirmations_step(
            swap,
            conf,
            Input::Check,
            now,
        ) == Verdict::Respond(moved(StateId::BuyerRedeemMwc)),
        confs(conf.mwc_redeem_conf) < swap.secondary_confirmations && !(conf.mwc_redeem_conf is None
            && time_or_zero(swap.posted_redeem) < now - POST_MWC_RETRY_PERIOD) ==> redeem_confirmations_step(
            swap,
            conf,
            Input::Check,
            now,
        ) == Verdict::Respond(
            asked(
                StateId::BuyerWaitForRedeemMwcConfirmations,
                ActionView::WaitForMwcConfirmations {
                    name: "Redeem Transaction"@,
                    required: swap.mwc_confirmations,
                    actual: confs(conf.mwc_redeem_conf),
                },
                None,
            ),
        ),
{
}

/// Waiting for the refund time: after the secondary lock time the buyer posts
/// the refund; until then the buyer waits, shown the lock time and the current
/// time, with the lock time as deadline.
pub proof fn lemma_refund_time_answers(swap: Swap, now: i64)
    ensures
        now > swap.time_btc_lock ==> refund_time_step(swap, Input::Check, now) == Verdict::Respond(
            moved(StateId::BuyerPostingRefundForSecondary),
        ),
        now <= swap.time_btc_lock ==> refund_time_step(swap, Input::Check, now) == Verdict::Respond(
            asked(
                StateId::BuyerWaitingForRefundTime,
                ActionView::WaitingForBtcRefund {
                    currency: swap.secondary_currency,
                    required: swap.time_btc_lock as u64,
                    current: now as u64,
                },
                Some(swap.time_btc_lock),
            ),
        ),
{
}

/// Posting the refund: before the lock time the buyer goes back to waiting; a
/// refund already seen moves on to its confirmations; otherwise a check asks to
/// publish the refund of the swap's secondary currency, and `Execute` posts it,
/// recording the posting time only when the posting succeeded.
pub proof fn lemma_posting_refund_answers(
    swap: Swap,
    conf: SwapTransactionsConfirmations,
    now: i64,
    posted: Option<Result<(), ErrorKind>>,
    e: ErrorKind,
    refund_address: Option<String>,
    fee: Option<FeeRate>,
)
    ensures
        now < swap.time_btc_lock ==> posting_refund_step(swap, conf, Input::Check, now, posted) == (
            swap,
            Verdict::Respond(moved(StateId::BuyerWaitingForRefundTime)),
        ),
        now >= swap.time_btc_lock && conf.secondary_refund_conf is Some ==> posting_refund_step(
            swap,
            conf,
            Input::Check,
            now,
            posted,
        ) == (swap, Verdict::Respond(moved(StateId::BuyerWaitingForRefundConfirmations))),
        now >= swap.time_btc_lock && conf.secondary_refund_conf is None ==> posting_refund_step(
            swap,
            conf,
            Input::Check,
            now,
            posted,
        ) == (
            swap,
            Verdict::Respond(
                asked(
                    StateId::BuyerPostingRefundForSecondary,
                    ActionView::BuyerPublishSecondaryRefundTx(swap.secondary_currency),
                    None,
                ),
            ),
        ),
        ({
            let execute = Input::Execute { refund_address, fee_satoshi_per_byte: fee };
            &&& posting_refund_step(swap, conf, execute, now, Some(Ok(()))) == (
                Swap { posted_refund: Some(now), ..swap },
                Verdict::Respond(moved(StateId::BuyerWaitingForRefundConfirmations)),
            )
            &&& posting_refund_step(swap, conf, execute, now, Some(Err(e))) == (swap, Verdict::Fail(e))
        }),
{
}

/// Waiting for the refund confirmations: with as many as the swap requires the
/// swap ends refunded; a refund not seen long after it was posted is posted
/// again; otherwise the buyer waits, shown the secondary currency, the required
/// and the actual counts, with no deadline.
pub proof fn lemma_refund_confirmations_answers(swap: Swap, conf: SwapTransactionsConfirmations, now: i64)
    ensures
        conf.secondary_refund_conf is Some && confs(conf.secondary_refund_conf)
            >= swap.secondary_confirmations ==> refund_confirmations_step(swap, conf, Input::Check, now)
            == Verdict::Respond(moved(StateId::BuyerCancelledRefunded)),
        conf.secondary_refund_conf is None && time_or_zero(swap.posted_refund) < now
            - POST_SECONDARY_RETRY_PERIOD ==> refund_confirmations_step(swap, conf, Input::Check, now)
            == Verdict::Respond(moved(StateId::BuyerPostingRefundForSecondary)),
        !(conf.secondary_refund_conf is Some && confs(conf.secondary_refund_conf)
            >= swap.secondary_confirmations) && !(conf.secondary_refund_conf is None && time_or_zero(
            swap.posted_refund,
        ) < now - POST_SECONDARY_RETRY_PERIOD) ==> refund_confirmations_step(swap, conf, Input::Check, now)
            == Verdict::Respond(
            asked(
                StateId::BuyerWaitingForRefundConfirmations,
                ActionView::WaitForSecondaryConfirmations {
                    name: currency_symbol(swap.secondary_currency) + " Refund"@,
                    currency: swap.secondary_currency,
                    required: swap.secondary_confirmations,
                    actual: confs(conf.secondary_refund_conf),
                },
                None,
            ),
        ),
{
}

/// A swap that has ended answers a check with its own state.
pub proof fn lemma_ended_swap_answers(name: Seq<char>)
    ensures
        final_state_step(StateId::BuyerSwapComplete, name, Input::Check) == Verdict::Respond(
            moved(StateId::BuyerSwapComplete),
        ),
        final_state_step(StateId::BuyerCancelled, name, Input::Check) == Verdict::Respond(
            moved(StateId::BuyerCancelled),
        ),
        final_state_step(StateId::BuyerCancelledRefunded, name, Input::Check) == Verdict::Respond(
            moved(StateId::BuyerCancelledRefunded),
        ),
{
}

/// The measures the states decide by: a transaction not seen has no
/// confirmations, a time not recorded counts as 0, the locks are confirmed when
/// each has at least its required confirmations, and the currencies are named
/// by their tickers.
pub proof fn lemma_measures(
    swap: Swap,
    conf: SwapTransactionsConfirmations,
    n: u64,
    t: i64,
)
    ensures
        confs(Some(n)) == n,
        confs(None) == 0,
        time_or_zero(Some(t)) == t,
        time_or_zero(None) == 0,
        locks_confirmed(swap, conf) <==> (confs(conf.mwc_lock_conf) >= swap.mwc_confirmations && confs(
            conf.secondary_lock_conf,
        ) >= swap.secondary_confirmations),
        currency_symbol(Currency::Btc) == "BTC"@,
        currency_symbol(Currency::Bch) == "BCH"@,
{
}

/// The inputs each state does not take are answered with the error naming the
/// state and the input: no state takes a message it does not wait for, the
/// states after the redeem is published or the refund begun take no cancel,
/// and only the states that wait for the wallet's work take `Execute`.
pub proof fn lemma_rejected_inputs(
    cached: Option<Message>,
    swap: Swap,
    conf: SwapTransactionsConfirmations,
    now: i64,
    m: Message,
    refund_address: Option<String>,
    fee: Option<FeeRate>,
    built: Option<Result<Message, ErrorKind>>,
    valid: bool,
    done: Option<Result<(), ErrorKind>>,
    name: Seq<char>,
)
    ensures
        ({
            let execute = Input::Execute { refund_address, fee_satoshi_per_byte: fee };
            let message = Input::IncomeMessage(m);
            &&& offer_created_step(execute) == Verdict::InvalidInput(
                invalid_input_text("BuyerOfferCreated"@, execute),
            )
            &&& offer_created_step(message) == Verdict::InvalidInput(
                invalid_input_text("BuyerOfferCreated"@, message),
            )
            &&& accept_offer_step(cached, swap, message, now, built) == (
                cached,
                swap,
                Verdict::InvalidInput(invalid_input_text("BuyerSendingAcceptOfferMessage"@, message)),
            )
            &&& seller_lock_step(swap, conf, execute, now) == Verdict::InvalidInput(
                invalid_input_text("BuyerWaitingForSellerToLock"@, execute),
            )
            &&& seller_lock_step(swap, conf, message, now) == Verdict::InvalidInput(
                invalid_input_text("BuyerWaitingForSellerToLock"@, message),
            )
            &&& posting_secondary_step(swap, execute, now, None, None) == Verdict::InvalidInput(
                invalid_input_text("BuyerPostingSecondaryToMultisigAccount"@, execute),
            )
            &&& posting_secondary_step(swap, message, now, None, None) == Verdict::InvalidInput(
                invalid_input_text("BuyerPostingSecondaryToMultisigAccount"@, message),
            )
            &&& lock_confirmations_step(swap, conf, execute, now, None) == (
                swap,
                Verdict::InvalidInput(invalid_input_text("BuyerWaitingForLockConfirmations"@, execute)),
            )
            &&& lock_confirmations_step(swap, conf, message, now, None) == (
                swap,
                Verdict::InvalidInput(invalid_input_text("BuyerWaitingForLockConfirmations"@, message)),
            )
            &&& init_redeem_step(cached, swap, conf, message, now, built) == (
                cached,
                swap,
                Verdict::InvalidInput(invalid_input_text("BuyerSendingInitRedeemMessage"@, message)),
            )
            &&& respond_redeem_step(swap, conf, execute, now, valid, None) == (
                swap,
                Verdict::InvalidInput(invalid_input_text("BuyerWaitingForRespondRedeemMessage"@, execute)),
            )
            &&& redeem_mwc_step(swap, conf, message, now, done) == (
                swap,
                Verdict::InvalidInput(invalid_input_text("BuyerRedeemMwc"@, message)),
            )
            &&& redeem_confirmations_step(swap, conf, Input::Cancel, now) == Verdict::InvalidInput(
                invalid_input_text("BuyerWaitForRedeemMwcConfirmations"@, Input::Cancel),
            )
            &&& redeem_confirmations_step(swap, conf, execute, now) == Verdict::InvalidInput(
                invalid_input_text("BuyerWaitForRedeemMwcConfirmations"@, execute),
            )
            &&& redeem_confirmations_step(swap, conf, message, now) == Verdict::InvalidInput(
                invalid_input_text("BuyerWaitForRedeemMwcConfirmations"@, message),
            )
            &&& refund_time_step(swap, Input::Cancel, now) == Verdict::InvalidInput(
                invalid_input_text("BuyerWaitingForRefundTime"@, Input::Cancel),
            )
            &&& refund_time_step(swap, execute, now) == Verdict::InvalidInput(
                invalid_input_text("BuyerWaitingForRefundTime"@, execute),
            )
            &&& refund_time_step(swap, message, now) == Verdict::InvalidInput(
                invalid_input_text("BuyerWaitingForRefundTime"@, message),
            )
            &&& posting_refund_step(swap, conf, Input::Cancel, now, done) == (
                swap,
                Verdict::InvalidInput(invalid_input_text("BuyerPostingRefundForSecondary"@, Input::Cancel)),
            )
            &&& posting_refund_step(swap, conf, message, now, done) == (
                swap,
                Verdict::InvalidInput(invalid_input_text("BuyerPostingRefundForSecondary"@, message)),
            )
            &&& refund_confirmations_step(swap, conf, Input::Cancel, now) == Verdict::InvalidInput(
                invalid_input_text("BuyerWaitingForRefundConfirmations"@, Input::Cancel),
            )
            &&& refund_confirmations_step(swap, conf, execute, now) == Verdict::InvalidInput(
                invalid_input_text("BuyerWaitingForRefundConfirmations"@, execute),
            )
            &&& refund_confirmations_step(swap, conf, message, now) == Verdict::InvalidInput(
                invalid_input_text("BuyerWaitingForRefundConfirmations"@, message),
            )
            &&& final_state_step(StateId::BuyerSwapComplete, name, Input::Cancel) == Verdict::InvalidInput(
                invalid_input_text(name, Input::Cancel),
            )
            &&& final_state_step(StateId::BuyerCancelled, name, execute) == Verdict::InvalidInput(
                invalid_input_text(name, execute),
            )
            &&& final_state_step(StateId::BuyerCancelledRefunded, name, message) == Verdict::InvalidInput(
                invalid_input_text(name, message),
            )
        }),
        cancellable(StateId::BuyerOfferCreated),
        cancellable(StateId::BuyerRedeemMwc),
        !cancellable(StateId::BuyerWaitForRedeemMwcConfirmations),
        !cancellable(StateId::BuyerWaitingForRefundTime),
        !cancellable(StateId::BuyerPostingRefundForSecondary),
        !cancellable(StateId::BuyerWaitingForRefundConfirmations),
        !cancellable(StateId::BuyerSwapComplete),
        !cancellable(StateId::BuyerCancelled),
        !cancellable(StateId::BuyerCancelledRefunded),
{
}

/// The successor of each state on the successful path is where that state's
/// answer leads once everything it waits for is there: the offer is looked at,
/// the acceptance sent, the seller's lock seen, the exact deposit made, both
/// locks confirmed with the slate prepared, the redeem initiation sent, the
/// seller's answer applied, the redeem published and confirmed; and on the
/// refund path the lock time passed, the refund posted and confirmed.
pub proof fn lemma_success_path_is_next_state(
    swap: Swap,
    conf: SwapTransactionsConfirmations,
    now: i64,
    m: Message,
    tx: grin_core::core::transaction::Transaction,
    refund_address: Option<String>,
    fee: Option<FeeRate>,
)
    ensures
        ({
            let execute = Input::Execute { refund_address, fee_satoshi_per_byte: fee };
            let next = |id: StateId| Verdict::Respond(moved(next_state_of(id)->0));
            &&& offer_created_step(Input::Check) == next(StateId::BuyerOfferCreated)
            &&& accept_offer_step(Some(m), swap, execute, now, None).2 == next(
                StateId::BuyerSendingAcceptOfferMessage,
            )
            &&& (now <= swap.time_start_lock && confs(conf.mwc_lock_conf) >= 1 ==> seller_lock_step(
                swap,
                conf,
                Input::Check,
                now,
            ) == next(StateId::BuyerWaitingForSellerToLock))
            &&& posting_secondary_step(
                swap,
                Input::Check,
                now,
                Some(Ok((swap.secondary_amount, 0u64))),
                None,
            ) == next(StateId::BuyerPostingSecondaryToMultisigAccount)
            &&& (conf.secondary_lock_amount == swap.secondary_amount && locks_confirmed(swap, conf)
                && swap.redeem_participants > 1 && swap.has_adaptor_signature) ==> lock_confirmations_step(
                swap,
                conf,
                Input::Check,
                now,
                None,
            ).1 == next(StateId::BuyerWaitingForLockConfirmations)
            &&& init_redeem_step(Some(m), swap, conf, execute, now, None).2 == next(
                StateId::BuyerSendingInitRedeemMessage,
            )
            &&& respond_redeem_step(swap, conf, Input::IncomeMessage(m), now, false, Some(Ok(tx))).1 == next(
                StateId::BuyerWaitingForRespondRedeemMessage,
            )
            &&& (now <= swap.time_mwc_redeem && locks_confirmed(swap, conf)) ==> redeem_mwc_step(
                swap,
                conf,
                execute,
                now,
                Some(Ok(())),
            ).1 == next(StateId::BuyerRedeemMwc)
            &&& confs(conf.mwc_redeem_conf) >= swap.secondary_confirmations ==> redeem_confirmations_step(
                swap,
                conf,
                Input::Check,
                now,
            ) == next(StateId::BuyerWaitForRedeemMwcConfirmations)
            &&& now > swap.time_btc_lock ==> refund_time_step(swap, Input::Check, now) == next(
                StateId::BuyerWaitingForRefundTime,
            )
            &&& posting_refund_step(swap, conf, execute, now, Some(Ok(()))).1 == next(
                StateId::BuyerPostingRefundForSecondary,
            )
            &&& (conf.secondary_refund_conf is Some && confs(conf.secondary_refund_conf)
                >= swap.secondary_confirmations) ==> refund_confirmations_step(swap, conf, Input::Check, now)
                == next(StateId::BuyerWaitingForRefundConfirmations)
        }),
{
}

/// The number a text of decimal digits stands for.
pub open spec fn digits_value(s: Seq<char>) -> int
    decreases s.len(),
{
    if s.len() == 0 {
        0
    } else {
        digits_value(s.drop_last()) * 10 + (s.last() as int - '0' as int)
    }
}

/// One decimal digit's text is the single character of that digit.
proof fn lemma_digit_text_is_one_digit(d: nat)
    requires
        d < 10,
    ensures
        digit_text(d).len() == 1,
        digit_text(d)[0] as int - '0' as int == d,
{
    reveal_strlit("0");
    reveal_strlit("1");
    reveal_strlit("2");
    reveal_strlit("3");
    reveal_strlit("4");
    reveal_strlit("5");
    reveal_strlit("6");
    reveal_strlit("7");
    reveal_strlit("8");
    reveal_strlit("9");
}

/// The decimal text of a number, as fee rates are shown in error texts, is a
/// non-empty run of digits that reads back as that number.
pub proof fn lemma_decimal_text_reads_back(n: nat)
    ensures
        decimal_text(n).len() >= 1,
        forall|i: int| 0 <= i < decimal_text(n).len() ==> '0' <= #[trigger] decimal_text(n)[i] <= '9',
        digits_value(decimal_text(n)) == n,
    decreases n,
{
    if n < 10 {
        lemma_digit_text_is_one_digit(n);
        let t = decimal_text(n);
        assert(digits_value(t.drop_last()) == 0);
        assert(digits_value(t) == digits_value(t.drop_last()) * 10 + (t.last() as int - '0' as int));
    } else {
        lemma_decimal_text_reads_back(n / 10);
        lemma_digit_text_is_one_digit(n % 10);
        let head = decimal_text(n / 10);
        let t = decimal_text(n);
        assert(t == head + digit_text(n % 10));
        assert(t.drop_last() =~= head);
        assert(t.last() == digit_text(n % 10)[0]);
        assert forall|i: int| 0 <= i < t.len() implies '0' <= #[trigger] t[i] <= '9' by {
            if i < head.len() {
                assert(t[i] == head[i]);
            }
        }
        assert(digits_value(t) == digits_value(t.drop_last()) * 10 + (t.last() as int - '0' as int));
        assert(digits_value(t) == (n / 10) * 10 + n % 10);
    }
}

/// The text of an input names its variant first and shows each field after
/// its name, so the error for a refused input tells which input it was.
pub proof fn lemma_input_text_names_the_input(
    refund_address: Option<String>,
    fee: Option<FeeRate>,
    m: Message,
    state: Seq<char>,
    input: Input,
)
    ensures
        input_text(Input::Cancel) == "Cancel"@,
        input_text(Input::Check) == "Check"@,
        input_text(Input::Execute { refund_address, fee_satoshi_per_byte: fee }) == "Execute { refund_address: "@
            + optional_string_text(refund_address) + ", fee_satoshi_per_byte: "@ + fee_text(fee) + " }"@,
        input_text(Input::IncomeMessage(m)) == "IncomeMessage(Message { content: \""@ + m@ + "\" })"@,
        (state + " get "@).is_prefix_of(invalid_input_text(state, input)),
        invalid_input_text(state, input).len() == state.len() + " get "@.len() + input_text(input).len(),
{
    let p = state + " get "@;
    assert(p =~= invalid_input_text(state, input).subrange(0, p.len() as int));
}

} // verus!
