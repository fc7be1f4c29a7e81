use buyer_swap::done::{BuyerCancelled, BuyerCancelledRefunded, BuyerSwapComplete};
use buyer_swap::lock::{BuyerPostingSecondaryToMultisigAccount, BuyerWaitingForLockConfirmations};
use buyer_swap::offer::{BuyerOfferCreated, BuyerSendingAcceptOfferMessage, BuyerWaitingForSellerToLock};
use buyer_swap::redeem::{
    BuyerRedeemMwc, BuyerSendingInitRedeemMessage, BuyerWaitForRedeemMwcConfirmations,
    BuyerWaitingForRespondRedeemMessage,
};
use buyer_swap::refund::{
    BuyerPostingRefundForSecondary, BuyerWaitingForRefundConfirmations, BuyerWaitingForRefundTime,
};
use buyer_swap::types::{
    Action, Currency, ErrorKind, FeeRate, Input, Message, StateId, StateProcessRespond, Swap,
    SwapTransactionsConfirmations,
};
use grin_core::global::ChainTypes;

fn law_swap() -> Swap {
    Swap {
        seller_lock_first: true,
        secondary_currency: Currency::Btc,
        secondary_amount: 1000,
        mwc_confirmations: 10,
        secondary_confirmations: 6,
        message1: None,
        message2: None,
        posted_msg1: None,
        posted_redeem: None,
        posted_refund: None,
        redeem_participants: 1,
        has_adaptor_signature: false,
        redeem_tx: grin_core::core::transaction::Transaction::empty(),
        refund_tx: grin_core::core::transaction::Transaction::empty(),
        time_message_offers: 1000,
        time_start_lock: 2000,
        time_message_redeem: 3000,
        time_mwc_redeem: 4000,
        time_btc_lock: 5000,
    }
}

fn law_confs() -> SwapTransactionsConfirmations {
    SwapTransactionsConfirmations {
        mwc_lock_conf: Some(10),
        mwc_redeem_conf: None,
        secondary_lock_conf: Some(6),
        secondary_lock_amount: 1000,
        secondary_refund_conf: None,
    }
}

/// (id, cancellable, prev, next, answer to Cancel) of every buyer state.
fn all_states() -> Vec<(StateId, bool, Option<StateId>, Option<StateId>, Result<StateProcessRespond, ErrorKind>)> {
    let c = law_confs();
    let mut out = Vec::new();
    let mut s = law_swap();
    let mut a = BuyerOfferCreated::new();
    out.push((a.get_state_id(), a.is_cancellable(), a.get_prev_swap_state(), a.get_next_swap_state(), a.process(Input::Cancel, &mut s, &c, 10)));
    let mut a = BuyerSendingAcceptOfferMessage::new();
    out.push((a.get_state_id(), a.is_cancellable(), a.get_prev_swap_state(), a.get_next_swap_state(), a.process(Input::Cancel, &mut s, &c, 10, || Ok(Message { content: String::new() }))));
    let mut a = BuyerWaitingForSellerToLock::new();
    out.push((a.get_state_id(), a.is_cancellable(), a.get_prev_swap_state(), a.get_next_swap_state(), a.process(Input::Cancel, &mut s, &c, 10)));
    let mut a = BuyerPostingSecondaryToMultisigAccount::new();
    out.push((a.get_state_id(), a.is_cancellable(), a.get_prev_swap_state(), a.get_next_swap_state(), a.process(Input::Cancel, &mut s, &c, 10, || Ok((0u8, 0u64, 0u64)), |_x: u8| Ok(String::new()))));
    let mut a = BuyerWaitingForLockConfirmations::new();
    out.push((a.get_state_id(), a.is_cancellable(), a.get_prev_swap_state(), a.get_next_swap_state(), a.process(Input::Cancel, &mut s, &c, 10, || Ok((2usize, true)))));
    let mut a = BuyerSendingInitRedeemMessage::new();
    out.push((a.get_state_id(), a.is_cancellable(), a.get_prev_swap_state(), a.get_next_swap_state(), a.process(Input::Cancel, &mut s, &c, 10, || Ok(Message { content: String::new() }))));
    let mut a = BuyerWaitingForRespondRedeemMessage::new();
    out.push((a.get_state_id(), a.is_cancellable(), a.get_prev_swap_state(), a.get_next_swap_state(), a.process(Input::Cancel, &mut s, &c, 10, ChainTypes::AutomatedTesting, false, |_m: Message| Ok(grin_core::core::transaction::Transaction::empty()))));
    let mut a = BuyerRedeemMwc::new();
    out.push((a.get_state_id(), a.is_cancellable(), a.get_prev_swap_state(), a.get_next_swap_state(), a.process(Input::Cancel, &mut s, &c, 10, |_t: &grin_core::core::transaction::Transaction| Ok(()))));
    let mut a = BuyerWaitForRedeemMwcConfirmations::new();
    out.push((a.get_state_id(), a.is_cancellable(), a.get_prev_swap_state(), a.get_next_swap_state(), a.process(Input::Cancel, &mut s, &c, 10)));
    let mut a = BuyerSwapComplete::new();
    out.push((a.get_state_id(), a.is_cancellable(), a.get_prev_swap_state(), a.get_next_swap_state(), a.process(Input::Cancel, &mut s, &c, 10)));
    let mut a = BuyerCancelled::new();
    out.push((a.get_state_id(), a.is_cancellable(), a.get_prev_swap_state(), a.get_next_swap_state(), a.process(Input::Cancel, &mut s, &c, 10)));
    let mut a = BuyerWaitingForRefundTime::new();
    out.push((a.get_state_id(), a.is_cancellable(), a.get_prev_swap_state(), a.get_next_swap_state(), a.process(Input::Cancel, &mut s, &c, 10)));
    let mut a = BuyerPostingRefundForSecondary::new();
    out.push((a.get_state_id(), a.is_cancellable(), a.get_prev_swap_state(), a.get_next_swap_state(), a.process(Input::Cancel, &mut s, &c, 10, |_x: Option<String>, _f: Option<FeeRate>| Ok(()))));
    let mut a = BuyerWaitingForRefundConfirmations::new();
    out.push((a.get_state_id(), a.is_cancellable(), a.get_prev_swap_state(), a.get_next_swap_state(), a.process(Input::Cancel, &mut s, &c, 10)));
    let mut a = BuyerCancelledRefunded::new();
    out.push((a.get_state_id(), a.is_cancellable(), a.get_prev_swap_state(), a.get_next_swap_state(), a.process(Input::Cancel, &mut s, &c, 10)));
    out
}

#[test]
fn next_and_prev_agree_on_every_state() {
    let states = all_states();
    for (id, _, prev, next, _) in &states {
        if let Some(n) = next {
            let (_, _, p, _, _) = states.iter().find(|s| s.0 == *n).unwrap();
            assert_eq!(*p, Some(*id));
        }
        if let Some(p) = prev {
            let (_, _, _, n, _) = states.iter().find(|s| s.0 == *p).unwrap();
            assert_eq!(*n, Some(*id));
        }
    }
}

#[test]
fn cancel_is_taken_exactly_by_cancellable_states() {
    for (id, cancellable, _, _, answer) in all_states() {
        assert_eq!(answer.is_ok(), cancellable, "state {:?}", id);
        if let Ok(r) = answer {
            // Before any funds are locked a cancel ends the swap; later it goes through the refund.
            let expected = match id {
                StateId::BuyerOfferCreated
                | StateId::BuyerSendingAcceptOfferMessage
                | StateId::BuyerWaitingForSellerToLock => StateId::BuyerCancelled,
                _ => StateId::BuyerWaitingForRefundTime,
            };
            assert_eq!(r.next_state_id, expected);
            assert!(r.action.is_none());
        } else {
            assert!(matches!(answer, Err(ErrorKind::InvalidSwapStateInput(_))));
        }
    }
}

#[test]
fn cancellable_states_are_those_up_to_the_redeem() {
    let cancellable: Vec<StateId> = all_states().into_iter().filter(|s| s.1).map(|s| s.0).collect();
    assert_eq!(
        cancellable,
        vec![
            StateId::BuyerOfferCreated,
            StateId::BuyerSendingAcceptOfferMessage,
            StateId::BuyerWaitingForSellerToLock,
            StateId::BuyerPostingSecondaryToMultisigAccount,
            StateId::BuyerWaitingForLockConfirmations,
            StateId::BuyerSendingInitRedeemMessage,
            StateId::BuyerWaitingForRespondRedeemMessage,
            StateId::BuyerRedeemMwc,
        ]
    );
}

#[test]
fn respond_builders_set_their_parts() {
    let r = StateProcessRespond::new(StateId::BuyerRedeemMwc);
    assert_eq!(r.next_state_id, StateId::BuyerRedeemMwc);
    assert!(r.action.is_none() && r.time_limit.is_none());
    let r = r.action(Action::BuyerPublishMwcRedeemTx).time_limit(77);
    assert_eq!(r.next_state_id, StateId::BuyerRedeemMwc);
    assert!(matches!(r.action, Some(Action::BuyerPublishMwcRedeemTx)));
    assert_eq!(r.time_limit, Some(77));
}

#[test]
fn currency_symbols() {
    assert_eq!(Currency::Btc.symbol(), "BTC");
    assert_eq!(Currency::Bch.symbol(), "BCH");
}

#[test]
fn swap_deadline_getters() {
    let s = law_swap();
    assert_eq!(s.get_time_message_offers(), 1000);
    assert_eq!(s.get_time_start_lock(), 2000);
    assert_eq!(s.get_time_message_redeem(), 3000);
    assert_eq!(s.get_time_mwc_redeem(), 4000);
    assert_eq!(s.get_time_btc_lock(), 5000);
}

#[test]
fn message_clone_keeps_content() {
    let m = Message { content: "abc".to_string() };
    assert_eq!(m.clone().content, "abc");
}

#[test]
fn full_happy_path_walks_the_workflow() {
    // The seller locks first; the buyer deposits, redeems and completes.
    let mut swap = law_swap();
    let mut c = SwapTransactionsConfirmations {
        mwc_lock_conf: None,
        mwc_redeem_conf: None,
        secondary_lock_conf: None,
        secondary_lock_amount: 0,
        secondary_refund_conf: None,
    };
    let r = BuyerOfferCreated::new().process(Input::Check, &mut swap, &c, 10).unwrap();
    assert_eq!(r.next_state_id, StateId::BuyerSendingAcceptOfferMessage);
    let mut accept = BuyerSendingAcceptOfferMessage::new();
    accept.process(Input::Check, &mut swap, &c, 20, || Ok(Message { content: "m1".to_string() })).unwrap();
    let r = accept.process(Input::Execute { refund_address: None, fee_satoshi_per_byte: None }, &mut swap, &c, 30, || Ok(Message { content: String::new() })).unwrap();
    assert_eq!(r.next_state_id, StateId::BuyerWaitingForSellerToLock);
    c.mwc_lock_conf = Some(1);
    let r = BuyerWaitingForSellerToLock::new().process(Input::Check, &mut swap, &c, 40).unwrap();
    assert_eq!(r.next_state_id, StateId::BuyerPostingSecondaryToMultisigAccount);
    let r = BuyerPostingSecondaryToMultisigAccount::new()
        .process(Input::Check, &mut swap, &c, 50, || Ok(((), 0u64, 1000u64)), |_s: ()| Ok(String::new()))
        .unwrap();
    assert_eq!(r.next_state_id, StateId::BuyerWaitingForLockConfirmations);
    c = SwapTransactionsConfirmations { mwc_lock_conf: Some(10), secondary_lock_conf: Some(6), secondary_lock_amount: 1000, ..c };
    let r = BuyerWaitingForLockConfirmations::new().process(Input::Check, &mut swap, &c, 60, || Ok((2usize, true))).unwrap();
    assert_eq!(r.next_state_id, StateId::BuyerSendingInitRedeemMessage);
    let mut init = BuyerSendingInitRedeemMessage::new();
    init.process(Input::Check, &mut swap, &c, 70, || Ok(Message { content: "m2".to_string() })).unwrap();
    let r = init.process(Input::Execute { refund_address: None, fee_satoshi_per_byte: None }, &mut swap, &c, 80, || Ok(Message { content: String::new() })).unwrap();
    assert_eq!(r.next_state_id, StateId::BuyerWaitingForRespondRedeemMessage);
    let r = BuyerWaitingForRespondRedeemMessage::new()
        .process(Input::IncomeMessage(Message { content: "m3".to_string() }), &mut swap, &c, 90, ChainTypes::AutomatedTesting, false, |_m: Message| Ok(grin_core::core::transaction::Transaction::empty()))
        .unwrap();
    assert_eq!(r.next_state_id, StateId::BuyerRedeemMwc);
    let r = BuyerRedeemMwc::new().process(Input::Execute { refund_address: None, fee_satoshi_per_byte: None }, &mut swap, &c, 100, |_t: &grin_core::core::transaction::Transaction| Ok(())).unwrap();
    assert_eq!(r.next_state_id, StateId::BuyerWaitForRedeemMwcConfirmations);
    c.mwc_redeem_conf = Some(6);
    let r = BuyerWaitForRedeemMwcConfirmations::new().process(Input::Check, &mut swap, &c, 110).unwrap();
    assert_eq!(r.next_state_id, StateId::BuyerSwapComplete);
    assert_eq!(swap.posted_msg1, Some(30));
    assert_eq!(swap.posted_redeem, Some(100));
    assert_eq!(swap.message1.unwrap().content, "m1");
    assert_eq!(swap.message2.unwrap().content, "m2");
}
