use buyer_swap::done::BuyerCancelledRefunded;
use buyer_swap::refund::{
    BuyerPostingRefundForSecondary, BuyerWaitingForRefundConfirmations, BuyerWaitingForRefundTime,
};
use buyer_swap::types::{
    Action, Currency, ErrorKind, FeeRate, Input, StateId, Swap, SwapTransactionsConfirmations,
};
use std::cell::RefCell;

fn refund_swap() -> Swap {
    Swap {
        seller_lock_first: false,
        secondary_currency: Currency::Bch,
        secondary_amount: 1000,
        mwc_confirmations: 10,
        secondary_confirmations: 6,
        message1: None,
        message2: None,
        posted_msg1: None,
        posted_redeem: None,
        posted_refund: None,
        redeem_participants: 1,
        has_adaptor_signature: false,
        redeem_tx: grin_core::core::transaction::Transaction::empty(),
        refund_tx: grin_core::core::transaction::Transaction::empty(),
        time_message_offers: 1000,
        time_start_lock: 2000,
        time_message_redeem: 3000,
        time_mwc_redeem: 4000,
        time_btc_lock: 5000,
    }
}

fn refund_confs(refund: Option<u64>) -> SwapTransactionsConfirmations {
    SwapTransactionsConfirmations {
        mwc_lock_conf: Some(10),
        mwc_redeem_conf: None,
        secondary_lock_conf: Some(6),
        secondary_lock_amount: 1000,
        secondary_refund_conf: refund,
    }
}

#[test]
fn refund_time_waits_until_lock_time() {
    let mut st = BuyerWaitingForRefundTime::new();
    let mut swap = refund_swap();
    let r = st.process(Input::Check, &mut swap, &refund_confs(None), 4000).unwrap();
    assert_eq!(r.next_state_id, StateId::BuyerWaitingForRefundTime);
    assert_eq!(r.time_limit, Some(5000));
    match r.action {
        Some(Action::WaitingForBtcRefund { currency, required, current }) => {
            assert_eq!(currency, Currency::Bch);
            assert_eq!(required, 5000);
            assert_eq!(current, 4000);
        },
        other => panic!("unexpected {:?}", other),
    }
    let r = st.process(Input::Check, &mut swap, &refund_confs(None), 5000).unwrap();
    assert_eq!(r.next_state_id, StateId::BuyerWaitingForRefundTime);
    let r = st.process(Input::Check, &mut swap, &refund_confs(None), 5001).unwrap();
    assert_eq!(r.next_state_id, StateId::BuyerPostingRefundForSecondary);
}

#[test]
fn refund_time_is_not_cancellable() {
    let mut st = BuyerWaitingForRefundTime::new();
    let mut swap = refund_swap();
    let e = st.process(Input::Cancel, &mut swap, &refund_confs(None), 100);
    assert!(matches!(e, Err(ErrorKind::InvalidSwapStateInput(ref t)) if t == "BuyerWaitingForRefundTime get Cancel"));
    assert!(!st.is_cancellable());
    assert_eq!(st.get_name(), "Waiting for Secondary to unlock");
    assert_eq!(st.get_state_id(), StateId::BuyerWaitingForRefundTime);
    assert_eq!(st.get_prev_swap_state(), None);
    assert_eq!(st.get_next_swap_state(), Some(StateId::BuyerPostingRefundForSecondary));
}

#[test]
fn posting_refund_check_answers() {
    let mut st = BuyerPostingRefundForSecondary::new();
    let mut swap = refund_swap();
    let r = st.process(Input::Check, &mut swap, &refund_confs(None), 4999, |_a: Option<String>, _f: Option<FeeRate>| Ok(())).unwrap();
    assert_eq!(r.next_state_id, StateId::BuyerWaitingForRefundTime);
    let r = st.process(Input::Check, &mut swap, &refund_confs(Some(0)), 5000, |_a: Option<String>, _f: Option<FeeRate>| Ok(())).unwrap();
    assert_eq!(r.next_state_id, StateId::BuyerWaitingForRefundConfirmations);
    let r = st.process(Input::Check, &mut swap, &refund_confs(None), 5000, |_a: Option<String>, _f: Option<FeeRate>| Ok(())).unwrap();
    assert_eq!(r.next_state_id, StateId::BuyerPostingRefundForSecondary);
    assert!(matches!(r.action, Some(Action::BuyerPublishSecondaryRefundTx(Currency::Bch))));
    assert!(r.time_limit.is_none());
}

#[test]
fn posting_refund_execute_posts_to_the_given_address() {
    let mut st = BuyerPostingRefundForSecondary::new();
    let mut swap = refund_swap();
    let used = RefCell::new(None);
    let fee = RefCell::new(None);
    let r = st
        .process(
            Input::Execute {
                refund_address: Some("refund-here".to_string()),
                fee_satoshi_per_byte: Some(FeeRate { bits: 12.5f32.to_bits() }),
            },
            &mut swap,
            &refund_confs(None),
            5100,
            |a: Option<String>, f: Option<FeeRate>| {
                *used.borrow_mut() = a;
                *fee.borrow_mut() = f.map(|r| f32::from_bits(r.bits));
                Ok(())
            },
        )
        .unwrap();
    assert_eq!(r.next_state_id, StateId::BuyerWaitingForRefundConfirmations);
    assert_eq!(used.borrow().as_deref(), Some("refund-here"));
    assert_eq!(*fee.borrow(), Some(12.5f32));
    assert_eq!(swap.posted_refund, Some(5100));
}

#[test]
fn posting_refund_failure_records_nothing() {
    let mut st = BuyerPostingRefundForSecondary::new();
    let mut swap = refund_swap();
    let e = st.process(
        Input::Execute { refund_address: None, fee_satoshi_per_byte: None },
        &mut swap,
        &refund_confs(None),
        5100,
        |_a: Option<String>, _f: Option<FeeRate>| Err(ErrorKind::Generic("fee too low".to_string())),
    );
    assert!(matches!(e, Err(ErrorKind::Generic(ref t)) if t == "fee too low"));
    assert_eq!(swap.posted_refund, None);
    let e = st.process(Input::Cancel, &mut swap, &refund_confs(None), 5100, |_a: Option<String>, _f: Option<FeeRate>| Ok(()));
    assert!(matches!(e, Err(ErrorKind::InvalidSwapStateInput(ref t)) if t == "BuyerPostingRefundForSecondary get Cancel"));
    assert_eq!(st.get_name(), "Posting Refund for Secondary");
    assert_eq!(st.get_prev_swap_state(), Some(StateId::BuyerWaitingForRefundTime));
    assert_eq!(st.get_next_swap_state(), Some(StateId::BuyerWaitingForRefundConfirmations));
}

#[test]
fn refund_confirmations_done_retry_and_wait() {
    let mut st = BuyerWaitingForRefundConfirmations::new();
    let mut swap = refund_swap();
    let r = st.process(Input::Check, &mut swap, &refund_confs(Some(6)), 6000).unwrap();
    assert_eq!(r.next_state_id, StateId::BuyerCancelledRefunded);
    swap.posted_refund = Some(6000);
    let r = st.process(Input::Check, &mut swap, &refund_confs(None), 6301).unwrap();
    assert_eq!(r.next_state_id, StateId::BuyerPostingRefundForSecondary);
    let r = st.process(Input::Check, &mut swap, &refund_confs(None), 6300).unwrap();
    assert_eq!(r.next_state_id, StateId::BuyerWaitingForRefundConfirmations);
    let r = st.process(Input::Check, &mut swap, &refund_confs(Some(2)), 99999).unwrap();
    assert_eq!(r.next_state_id, StateId::BuyerWaitingForRefundConfirmations);
    match r.action {
        Some(Action::WaitForSecondaryConfirmations { name, currency, required, actual }) => {
            assert_eq!(name, "BCH Refund");
            assert_eq!(currency, Currency::Bch);
            assert_eq!(required, 6);
            assert_eq!(actual, 2);
        },
        other => panic!("unexpected {:?}", other),
    }
    assert_eq!(st.get_name(), "Waiting for Refund confirmations");
    assert_eq!(st.get_next_swap_state(), Some(StateId::BuyerCancelledRefunded));
    assert_eq!(st.get_prev_swap_state(), Some(StateId::BuyerPostingRefundForSecondary));
}

#[test]
fn refunded_swap_stays_refunded() {
    let mut st = BuyerCancelledRefunded::new();
    let mut swap = refund_swap();
    let r = st.process(Input::Check, &mut swap, &refund_confs(Some(6)), 100).unwrap();
    assert_eq!(r.next_state_id, StateId::BuyerCancelledRefunded);
    let e = st.process(Input::Execute { refund_address: None, fee_satoshi_per_byte: None }, &mut swap, &refund_confs(None), 100);
    assert!(matches!(e, Err(ErrorKind::InvalidSwapStateInput(_))));
    assert_eq!(st.get_name(), "Swap is cancelled, refund is redeemed");
    assert_eq!(st.get_prev_swap_state(), Some(StateId::BuyerWaitingForRefundConfirmations));
    assert_eq!(st.get_next_swap_state(), None);
}
