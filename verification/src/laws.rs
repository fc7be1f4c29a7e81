//! Properties of the buyer's workflow that span several states or several
//! inputs.

use vstd::prelude::*;
use crate::types::{asked, confs, moved, locks_confirmed, ActionView, ErrorKind, FeeRate, Input, Message, StateId, Swap,
    SwapTransactionsConfirmations};
use crate::workflow::{next_state_of, prev_state_of, Verdict};
use crate::offer::{accept_offer_builds, accept_offer_step, seller_lock_step};
use crate::lock::{deposit_needed, lock_check_inits_redeem, lock_confirmations_step, posting_secondary_step};
use crate::redeem::{init_redeem_step, redeem_mwc_step, redeem_publishes};
use crate::refund::{posting_refund_step, refund_time_step};

verus! {

/// The successful path is the same read forwards and backwards: `t` follows
/// `s` exactly when `s` precedes `t`.
pub proof fn lemma_next_and_prev_agree(s: StateId, t: StateId)
    ensures
        next_state_of(s) == Some(t) <==> prev_state_of(t) == Some(s),
{
}

/// Once the offer acceptance is recorded as sent, it is the built message that
/// was recorded, at the time of the `Execute`, and a later `Check` moves on to
/// waiting for the seller, whatever the time.
pub proof fn lemma_sent_offer_acceptance_moves_on(
    cached: Option<Message>,
    swap: Swap,
    refund_address: Option<String>,
    fee_satoshi_per_byte: Option<FeeRate>,
    now: i64,
    later: i64,
    built: Option<Result<Message, ErrorKind>>,
)
    requires
        cached is Some,
    ensures
        ({
            let (c1, s1, v1) = accept_offer_step(cached, swap, Input::Execute { refund_address, fee_satoshi_per_byte }, now, None);
            &&& v1 == Verdict::Respond(moved(StateId::BuyerWaitingForSellerToLock))
            &&& s1.message1 == cached
            &&& s1.posted_msg1 == Some(now)
            &&& accept_offer_step(c1, s1, Input::Check, later, built).2 == Verdict::Respond(
                moved(StateId::BuyerWaitingForSellerToLock),
            )
        }),
{
}

/// The offer acceptance is built once: after a `Check` built it, a later
/// `Check` before the deadline builds nothing and asks to send the same message.
pub proof fn lemma_offer_acceptance_built_once(
    swap: Swap,
    now: i64,
    later: i64,
    first: Message,
    built_later: Option<Result<Message, ErrorKind>>,
)
    requires
        swap.message1 is None,
        now < swap.time_message_offers,
        later < swap.time_message_offers,
    ensures
        ({
            let built = Some(Ok::<Message, ErrorKind>(first));
            let (c1, s1, v1) = accept_offer_step(None, swap, Input::Check, now, built);
            let (c2, s2, v2) = accept_offer_step(c1, s1, Input::Check, later, built_later);
            let asks = Verdict::Respond(
                asked(
                    StateId::BuyerSendingAcceptOfferMessage,
                    ActionView::BuyerSendAcceptOfferMessage(first@),
                    Some(swap.time_message_offers),
                ),
            );
            &&& accept_offer_builds(None, swap, Input::Check, now)
            &&& c1 == Some(first)
            &&& !accept_offer_builds(c1, s1, Input::Check, later)
            &&& c2 == c1
            &&& s2 == swap
            &&& v1 == asks
            &&& v2 == asks
        }),
{
}

/// Once the redeem initiation is recorded as sent, a later `Check` moves on to
/// waiting for the seller's answer while both locks stay confirmed.
pub proof fn lemma_sent_redeem_initiation_moves_on(
    cached: Option<Message>,
    swap: Swap,
    conf: SwapTransactionsConfirmations,
    refund_address: Option<String>,
    fee_satoshi_per_byte: Option<FeeRate>,
    now: i64,
    later: i64,
    built: Option<Result<Message, ErrorKind>>,
)
    requires
        cached is Some,
        locks_confirmed(swap, conf),
    ensures
        ({
            let (c1, s1, v1) = init_redeem_step(cached, swap, conf, Input::Execute { refund_address, fee_satoshi_per_byte }, now, None);
            &&& v1 == Verdict::Respond(moved(StateId::BuyerWaitingForRespondRedeemMessage))
            &&& s1.message2 == cached
            &&& init_redeem_step(c1, s1, conf, Input::Check, later, built).2 == Verdict::Respond(
                moved(StateId::BuyerWaitingForRespondRedeemMessage),
            )
        }),
{
}

/// After the locking deadline, a buyer who has not locked exactly the deal's
/// amount does not go on: the wait for the seller's lock ends in a
/// cancellation, and a lock account with another amount leads to the refund.
pub proof fn lemma_late_lock_is_abandoned(
    swap: Swap,
    conf: SwapTransactionsConfirmations,
    now: i64,
    pending: u64,
    confirmed: u64,
    address: Option<Result<Seq<char>, ErrorKind>>,
)
    requires
        now > swap.time_start_lock,
    ensures
        seller_lock_step(swap, conf, Input::Check, now) == Verdict::Respond(moved(StateId::BuyerCancelled)),
        pending + confirmed != swap.secondary_amount ==> posting_secondary_step(
            swap,
            Input::Check,
            now,
            Some(Ok((pending, confirmed))),
            address,
        ) == Verdict::Respond(moved(StateId::BuyerWaitingForRefundTime)),
{
}

/// A deposit request asks for exactly what is missing on the lock account:
/// the amount asked for plus what is there is the deal's amount.
pub proof fn lemma_deposit_completes_amount(
    swap: Swap,
    now: i64,
    pending: u64,
    confirmed: u64,
    address: Seq<char>,
)
    requires
        deposit_needed(swap, pending, confirmed, now),
    ensures
        posting_secondary_step(swap, Input::Check, now, Some(Ok((pending, confirmed))), Some(Ok(address)))
            matches Verdict::Respond(r) && r.action matches Some(
            ActionView::DepositSecondary { amount, .. },
        ) && amount + pending + confirmed == swap.secondary_amount,
{
}

/// The MWC redeem transaction is published, and its posting time recorded,
/// only on an `Execute` before the redeem deadline while both locks are
/// confirmed; a failed publication records nothing.
pub proof fn lemma_redeem_published_only_in_time(
    swap: Swap,
    conf: SwapTransactionsConfirmations,
    input: Input,
    now: i64,
    published: Option<Result<(), ErrorKind>>,
)
    requires
        // The publication's outcome is known where it is attempted.
        redeem_publishes(swap, conf, input, now) ==> published is Some,
    ensures
        ({
            let (s1, v1) = redeem_mwc_step(swap, conf, input, now, published);
            &&& s1 != swap ==> {
                &&& input is Execute
                &&& now <= swap.time_mwc_redeem
                &&& locks_confirmed(swap, conf)
                &&& published matches Some(Ok(_))
                &&& s1 == Swap { posted_redeem: Some(now), ..swap }
            }
            &&& v1 == Verdict::Respond(moved(StateId::BuyerWaitForRedeemMwcConfirmations)) && input is Execute
                ==> s1.posted_redeem == Some(now)
        }),
{
}

/// The refund of the secondary currency is not attempted before its lock
/// time: waiting ends exactly when the lock time has passed, and a check asks
/// to publish the refund only from the lock time on.
pub proof fn lemma_refund_waits_for_lock_time(
    swap: Swap,
    conf: SwapTransactionsConfirmations,
    now: i64,
)
    ensures
        (refund_time_step(swap, Input::Check, now) == Verdict::Respond(
            moved(StateId::BuyerPostingRefundForSecondary),
        )) <==> now > swap.time_btc_lock,
        posting_refund_step(swap, conf, Input::Check, now, None).1 matches Verdict::Respond(r)
            && r.action is Some ==> now >= swap.time_btc_lock,
{
}

/// Each party waits first on its own funds: while the buyer's secondary lock
/// lacks confirmations (and the deposit is right and in time), the buyer is
/// asked to wait for those, whatever the MWC lock shows.
pub proof fn lemma_own_lock_is_awaited_first(
    swap: Swap,
    conf: SwapTransactionsConfirmations,
    now: i64,
    init: Option<Result<(usize, bool), ErrorKind>>,
)
    requires
        conf.secondary_lock_amount == swap.secondary_amount,
        now <= swap.time_message_redeem,
        confs(conf.secondary_lock_conf) < swap.secondary_confirmations,
    ensures
        lock_confirmations_step(swap, conf, Input::Check, now, init).1 matches Verdict::Respond(r)
            && r.action matches Some(ActionView::WaitForSecondaryConfirmations { required, actual, .. })
            && required == swap.secondary_confirmations && actual == confs(conf.secondary_lock_conf),
{
}

/// The redeem slate is prepared once: after a preparation that left the slate
/// with both participants and the adaptor signature, the swap records them and
/// a later `Check` does not prepare it again.
pub proof fn lemma_redeem_slate_prepared_once(
    swap: Swap,
    conf: SwapTransactionsConfirmations,
    now: i64,
    later: i64,
    participants: usize,
)
    requires
        lock_check_inits_redeem(swap, conf, Input::Check, now),
        participants > 1,
    ensures
        ({
            let (s1, v1) = lock_confirmations_step(
                swap,
                conf,
                Input::Check,
                now,
                Some(Ok::<(usize, bool), ErrorKind>((participants, true))),
            );
            &&& v1 == Verdict::Respond(moved(StateId::BuyerSendingInitRedeemMessage))
            &&& s1.redeem_participants == participants
            &&& s1.has_adaptor_signature
            &&& !lock_check_inits_redeem(s1, conf, Input::Check, later)
        }),
{
}

} // verus!
