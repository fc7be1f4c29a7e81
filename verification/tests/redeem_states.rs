use buyer_swap::done::{BuyerCancelled, BuyerSwapComplete};
use buyer_swap::redeem::{
    BuyerRedeemMwc, BuyerSendingInitRedeemMessage, BuyerWaitForRedeemMwcConfirmations,
    BuyerWaitingForRespondRedeemMessage,
};
use buyer_swap::types::{
    Action, Currency, ErrorKind, Input, Message, StateId, Swap, SwapTransactionsConfirmations,
};
use grin_core::global::ChainTypes;
use grin_keychain::Keychain;
use std::cell::Cell;

fn redeem_swap() -> Swap {
    Swap {
        seller_lock_first: true,
        secondary_currency: Currency::Btc,
        secondary_amount: 1000,
        mwc_confirmations: 10,
        secondary_confirmations: 6,
        message1: None,
        message2: None,
        posted_msg1: None,
        posted_redeem: None,
        posted_refund: None,
        redeem_participants: 2,
        has_adaptor_signature: true,
        redeem_tx: grin_core::core::transaction::Transaction::empty(),
        refund_tx: grin_core::core::transaction::Transaction::empty(),
        time_message_offers: 1000,
        time_start_lock: 2000,
        time_message_redeem: 3000,
        time_mwc_redeem: 4000,
        time_btc_lock: 5000,
    }
}

fn locked() -> SwapTransactionsConfirmations {
    SwapTransactionsConfirmations {
        mwc_lock_conf: Some(10),
        mwc_redeem_conf: None,
        secondary_lock_conf: Some(6),
        secondary_lock_amount: 1000,
        secondary_refund_conf: None,
    }
}

fn unlocked() -> SwapTransactionsConfirmations {
    SwapTransactionsConfirmations { mwc_lock_conf: Some(9), ..locked() }
}

fn redeem_msg(text: &str) -> Message {
    Message { content: text.to_string() }
}

/// A one input, one output transaction that validates.
fn valid_tx() -> grin_core::core::transaction::Transaction {
    grin_core::global::set_local_chain_type(ChainTypes::AutomatedTesting);
    let keychain = grin_keychain::ExtKeychain::from_random_seed(false).unwrap();
    let builder = grin_core::libtx::proof::ProofBuilder::new(&keychain);
    let key_id1 = grin_keychain::ExtKeychain::derive_key_id(1, 1, 0, 0, 0);
    let key_id2 = grin_keychain::ExtKeychain::derive_key_id(1, 2, 0, 0, 0);
    let tx = grin_core::libtx::build::transaction(
        grin_core::core::transaction::KernelFeatures::Plain { fee: 2.into() },
        &[grin_core::libtx::build::input(5, key_id1), grin_core::libtx::build::output(3, key_id2)],
        &keychain,
        &builder,
    )
    .unwrap();
    tx
}

#[test]
fn init_redeem_builds_once_and_resends() {
    let mut st = BuyerSendingInitRedeemMessage::new();
    let mut swap = redeem_swap();
    let calls = Cell::new(0);
    let r = st
        .process(Input::Check, &mut swap, &locked(), 100, || {
            calls.set(calls.get() + 1);
            Ok(redeem_msg("init-1"))
        })
        .unwrap();
    assert_eq!(r.next_state_id, StateId::BuyerSendingInitRedeemMessage);
    assert_eq!(r.time_limit, Some(3000));
    assert!(matches!(&r.action, Some(Action::BuyerSendInitRedeemMessage(m)) if m.content == "init-1"));
    let r = st
        .process(Input::Check, &mut swap, &locked(), 200, || {
            calls.set(calls.get() + 1);
            Ok(redeem_msg("init-2"))
        })
        .unwrap();
    assert!(matches!(&r.action, Some(Action::BuyerSendInitRedeemMessage(m)) if m.content == "init-1"));
    assert_eq!(calls.get(), 1);
    let r = st.process(Input::Execute { refund_address: None, fee_satoshi_per_byte: None }, &mut swap, &locked(), 300, || Ok(redeem_msg("x")));
    assert_eq!(r.unwrap().next_state_id, StateId::BuyerWaitingForRespondRedeemMessage);
    assert_eq!(swap.message2.as_ref().unwrap().content, "init-1");
    // A rerun after the message was sent moves on.
    let r = st.process(Input::Check, &mut swap, &locked(), 400, || Ok(redeem_msg("x"))).unwrap();
    assert_eq!(r.next_state_id, StateId::BuyerWaitingForRespondRedeemMessage);
}

#[test]
fn init_redeem_needs_locks_and_time() {
    let mut st = BuyerSendingInitRedeemMessage::new();
    let mut swap = redeem_swap();
    let r = st.process(Input::Check, &mut swap, &unlocked(), 100, || Ok(redeem_msg("x"))).unwrap();
    assert_eq!(r.next_state_id, StateId::BuyerWaitingForLockConfirmations);
    let r = st.process(Input::Check, &mut swap, &locked(), 3000, || Ok(redeem_msg("x"))).unwrap();
    assert_eq!(r.next_state_id, StateId::BuyerWaitingForRefundTime);
    let e = st.process(Input::Check, &mut swap, &locked(), 100, || Err(ErrorKind::Generic("k".to_string())));
    assert!(matches!(e, Err(ErrorKind::Generic(_))));
    let r = st.process(Input::Cancel, &mut swap, &locked(), 100, || Ok(redeem_msg("x"))).unwrap();
    assert_eq!(r.next_state_id, StateId::BuyerWaitingForRefundTime);
    assert_eq!(st.get_name(), "Sending Init Redeem Message");
    assert_eq!(st.get_state_id(), StateId::BuyerSendingInitRedeemMessage);
    assert_eq!(st.get_prev_swap_state(), Some(StateId::BuyerWaitingForLockConfirmations));
    assert_eq!(st.get_next_swap_state(), Some(StateId::BuyerWaitingForRespondRedeemMessage));
}

#[test]
fn respond_redeem_check_answers() {
    let swap = redeem_swap();
    let r = BuyerWaitingForRespondRedeemMessage::check_with_refund_validity(&swap, &unlocked(), 100, true);
    assert_eq!(r.next_state_id, StateId::BuyerWaitingForLockConfirmations);
    let r = BuyerWaitingForRespondRedeemMessage::check_with_refund_validity(&swap, &locked(), 100, true);
    assert_eq!(r.next_state_id, StateId::BuyerRedeemMwc);
    let r = BuyerWaitingForRespondRedeemMessage::check_with_refund_validity(&swap, &locked(), 100, false);
    assert_eq!(r.next_state_id, StateId::BuyerWaitingForRespondRedeemMessage);
    assert!(matches!(r.action, Some(Action::BuyerWaitingForRedeemMessage)));
    assert_eq!(r.time_limit, Some(3000));
    let r = BuyerWaitingForRespondRedeemMessage::check_with_refund_validity(&swap, &locked(), 3000, false);
    assert_eq!(r.next_state_id, StateId::BuyerWaitingForRefundTime);
}

#[test]
fn respond_redeem_empty_refund_slate_keeps_waiting() {
    let mut st = BuyerWaitingForRespondRedeemMessage::new();
    let mut swap = redeem_swap();
    let r = st
        .process(Input::Check, &mut swap, &locked(), 100, ChainTypes::AutomatedTesting, false, |_m: Message| Ok(grin_core::core::transaction::Transaction::empty()))
        .unwrap();
    assert_eq!(r.next_state_id, StateId::BuyerWaitingForRespondRedeemMessage);
}

#[test]
fn respond_redeem_valid_refund_slate_goes_to_redeem() {
    let mut st = BuyerWaitingForRespondRedeemMessage::new();
    let mut swap = redeem_swap();
    swap.refund_tx = valid_tx();
    let r = st
        .process(Input::Check, &mut swap, &locked(), 100, ChainTypes::AutomatedTesting, false, |_m: Message| Ok(grin_core::core::transaction::Transaction::empty()))
        .unwrap();
    assert_eq!(r.next_state_id, StateId::BuyerRedeemMwc);
    let r = st
        .process(Input::Check, &mut swap, &locked(), 100, ChainTypes::AutomatedTesting, true, |_m: Message| Ok(grin_core::core::transaction::Transaction::empty()))
        .unwrap();
    assert_eq!(r.next_state_id, StateId::BuyerRedeemMwc);
    // Without confirmed locks the slate is not looked at.
    let r = st
        .process(Input::Check, &mut swap, &unlocked(), 100, ChainTypes::AutomatedTesting, false, |_m: Message| Ok(grin_core::core::transaction::Transaction::empty()))
        .unwrap();
    assert_eq!(r.next_state_id, StateId::BuyerWaitingForLockConfirmations);
}

#[test]
fn respond_redeem_income_message_finalizes() {
    let mut st = BuyerWaitingForRespondRedeemMessage::new();
    let mut swap = redeem_swap();
    let seen = Cell::new(false);
    let r = st
        .process(
            Input::IncomeMessage(redeem_msg("redeem-answer")),
            &mut swap,
            &locked(),
            100,
            ChainTypes::AutomatedTesting,
            false,
            |m: Message| {
                seen.set(m.content == "redeem-answer");
                Ok(valid_tx())
            },
        )
        .unwrap();
    assert_eq!(r.next_state_id, StateId::BuyerRedeemMwc);
    assert!(seen.get());
    let e = st.process(
        Input::IncomeMessage(redeem_msg("bad")),
        &mut swap,
        &locked(),
        100,
        ChainTypes::AutomatedTesting,
        false,
        |_m: Message| Err(ErrorKind::Generic("not a redeem message".to_string())),
    );
    assert!(matches!(e, Err(ErrorKind::Generic(ref t)) if t == "not a redeem message"));
    let e = st.process(
        Input::Execute { refund_address: None, fee_satoshi_per_byte: None },
        &mut swap,
        &locked(),
        100,
        ChainTypes::AutomatedTesting,
        false,
        |_m: Message| Ok(grin_core::core::transaction::Transaction::empty()),
    );
    assert!(matches!(e, Err(ErrorKind::InvalidSwapStateInput(_))));
    assert_eq!(st.get_name(), "Waiting For Redeem respond message from the Seller");
    assert_eq!(st.get_state_id(), StateId::BuyerWaitingForRespondRedeemMessage);
    assert!(st.is_cancellable());
    assert_eq!(st.get_prev_swap_state(), Some(StateId::BuyerSendingInitRedeemMessage));
    assert_eq!(st.get_next_swap_state(), Some(StateId::BuyerRedeemMwc));
}

#[test]
fn redeem_mwc_check_answers() {
    let mut st = BuyerRedeemMwc::new();
    let mut swap = redeem_swap();
    let r = st.process(Input::Check, &mut swap, &locked(), 100, |_t: &grin_core::core::transaction::Transaction| Ok(())).unwrap();
    assert_eq!(r.next_state_id, StateId::BuyerRedeemMwc);
    assert!(matches!(r.action, Some(Action::BuyerPublishMwcRedeemTx)));
    assert_eq!(r.time_limit, Some(4000));
    let seen = SwapTransactionsConfirmations { mwc_redeem_conf: Some(1), ..locked() };
    let r = st.process(Input::Check, &mut swap, &seen, 9000, |_t: &grin_core::core::transaction::Transaction| Ok(())).unwrap();
    assert_eq!(r.next_state_id, StateId::BuyerWaitForRedeemMwcConfirmations);
    let r = st.process(Input::Check, &mut swap, &locked(), 4001, |_t: &grin_core::core::transaction::Transaction| Ok(())).unwrap();
    assert_eq!(r.next_state_id, StateId::BuyerWaitingForRefundTime);
    let r = st.process(Input::Check, &mut swap, &unlocked(), 100, |_t: &grin_core::core::transaction::Transaction| Ok(())).unwrap();
    assert_eq!(r.next_state_id, StateId::BuyerWaitingForLockConfirmations);
}

#[test]
fn redeem_mwc_execute_publishes_only_in_time() {
    let mut st = BuyerRedeemMwc::new();
    let mut swap = redeem_swap();
    let published = Cell::new(0);
    let r = st
        .process(Input::Execute { refund_address: None, fee_satoshi_per_byte: None }, &mut swap, &locked(), 4001, |_t: &grin_core::core::transaction::Transaction| {
            published.set(published.get() + 1);
            Ok(())
        })
        .unwrap();
    assert_eq!(r.next_state_id, StateId::BuyerWaitingForRefundTime);
    let r = st
        .process(Input::Execute { refund_address: None, fee_satoshi_per_byte: None }, &mut swap, &unlocked(), 100, |_t: &grin_core::core::transaction::Transaction| {
            published.set(published.get() + 1);
            Ok(())
        })
        .unwrap();
    assert_eq!(r.next_state_id, StateId::BuyerWaitingForLockConfirmations);
    assert_eq!(published.get(), 0);
    assert_eq!(swap.posted_redeem, None);
    let r = st
        .process(Input::Execute { refund_address: None, fee_satoshi_per_byte: None }, &mut swap, &locked(), 3900, |_t: &grin_core::core::transaction::Transaction| {
            published.set(published.get() + 1);
            Ok(())
        })
        .unwrap();
    assert_eq!(r.next_state_id, StateId::BuyerWaitForRedeemMwcConfirmations);
    assert_eq!(published.get(), 1);
    assert_eq!(swap.posted_redeem, Some(3900));
}

#[test]
fn redeem_mwc_publish_failure_records_nothing() {
    let mut st = BuyerRedeemMwc::new();
    let mut swap = redeem_swap();
    let e = st.process(Input::Execute { refund_address: None, fee_satoshi_per_byte: None }, &mut swap, &locked(), 100, |_t: &grin_core::core::transaction::Transaction| {
        Err(ErrorKind::Generic("node refused".to_string()))
    });
    assert!(matches!(e, Err(ErrorKind::Generic(_))));
    assert_eq!(swap.posted_redeem, None);
    let r = st.process(Input::Cancel, &mut swap, &locked(), 100, |_t: &grin_core::core::transaction::Transaction| Ok(())).unwrap();
    assert_eq!(r.next_state_id, StateId::BuyerWaitingForRefundTime);
    assert_eq!(st.get_name(), "Buyer redeem MWC");
    assert!(st.is_cancellable());
    assert_eq!(st.get_prev_swap_state(), Some(StateId::BuyerWaitingForRespondRedeemMessage));
    assert_eq!(st.get_next_swap_state(), Some(StateId::BuyerWaitForRedeemMwcConfirmations));
}

#[test]
fn redeem_confirmations_complete_retry_and_wait() {
    let mut st = BuyerWaitForRedeemMwcConfirmations::new();
    let mut swap = redeem_swap();
    // Completion compares with the secondary confirmations (6).
    let done = SwapTransactionsConfirmations { mwc_redeem_conf: Some(6), ..locked() };
    let r = st.process(Input::Check, &mut swap, &done, 100).unwrap();
    assert_eq!(r.next_state_id, StateId::BuyerSwapComplete);
    swap.posted_redeem = Some(1000);
    let r = st.process(Input::Check, &mut swap, &locked(), 1301).unwrap();
    assert_eq!(r.next_state_id, StateId::BuyerRedeemMwc);
    let r = st.process(Input::Check, &mut swap, &locked(), 1300).unwrap();
    assert_eq!(r.next_state_id, StateId::BuyerWaitForRedeemMwcConfirmations);
    match r.action {
        Some(Action::WaitForMwcConfirmations { name, required, actual }) => {
            assert_eq!(name, "Redeem Transaction");
            assert_eq!(required, 10);
            assert_eq!(actual, 0);
        },
        other => panic!("unexpected {:?}", other),
    }
    assert!(r.time_limit.is_none());
    let some = SwapTransactionsConfirmations { mwc_redeem_conf: Some(2), ..locked() };
    let r = st.process(Input::Check, &mut swap, &some, 90000).unwrap();
    assert_eq!(r.next_state_id, StateId::BuyerWaitForRedeemMwcConfirmations);
    let e = st.process(Input::Cancel, &mut swap, &locked(), 100);
    assert!(matches!(e, Err(ErrorKind::InvalidSwapStateInput(ref t)) if t == "BuyerWaitForRedeemMwcConfirmations get Cancel"));
    assert!(!st.is_cancellable());
    assert_eq!(st.get_name(), "Waiting For Redeem Tx Confirmations");
    assert_eq!(st.get_next_swap_state(), Some(StateId::BuyerSwapComplete));
    assert_eq!(st.get_prev_swap_state(), Some(StateId::BuyerRedeemMwc));
}

#[test]
fn ended_swaps_answer_check_with_themselves() {
    let mut swap = redeem_swap();
    let mut complete = BuyerSwapComplete::new();
    let r = complete.process(Input::Check, &mut swap, &locked(), 100).unwrap();
    assert_eq!(r.next_state_id, StateId::BuyerSwapComplete);
    assert!(r.action.is_none());
    assert!(matches!(complete.process(Input::Cancel, &mut swap, &locked(), 100), Err(ErrorKind::InvalidSwapStateInput(ref t)) if t == "BuyerSwapComplete get Cancel"));
    assert_eq!(complete.get_name(), "Swap is completed sucessufully");
    assert_eq!(complete.get_next_swap_state(), None);
    assert_eq!(complete.get_prev_swap_state(), Some(StateId::BuyerWaitForRedeemMwcConfirmations));
    let mut cancelled = BuyerCancelled::new();
    let r = cancelled.process(Input::Check, &mut swap, &locked(), 100).unwrap();
    assert_eq!(r.next_state_id, StateId::BuyerCancelled);
    assert_eq!(cancelled.get_name(), "Swap is cancelled, no funds was locked, no refund needed");
    assert_eq!(cancelled.get_prev_swap_state(), None);
    assert_eq!(cancelled.get_next_swap_state(), None);
    assert!(!cancelled.is_cancellable());
}

#[test]
fn finalized_redeem_transaction_is_the_one_published() {
    let mut swap = redeem_swap();
    let finalized = valid_tx();
    let finalized_text = format!("{:?}", finalized);
    let r = BuyerWaitingForRespondRedeemMessage::new()
        .process(
            Input::IncomeMessage(redeem_msg("answer")),
            &mut swap,
            &locked(),
            100,
            ChainTypes::AutomatedTesting,
            false,
            move |_m: Message| Ok(finalized),
        )
        .unwrap();
    assert_eq!(r.next_state_id, StateId::BuyerRedeemMwc);
    assert_eq!(format!("{:?}", swap.redeem_tx), finalized_text);
    let handed = std::cell::RefCell::new(String::new());
    let r = BuyerRedeemMwc::new()
        .process(
            Input::Execute { refund_address: None, fee_satoshi_per_byte: None },
            &mut swap,
            &locked(),
            200,
            |t: &grin_core::core::transaction::Transaction| {
                *handed.borrow_mut() = format!("{:?}", t);
                Ok(())
            },
        )
        .unwrap();
    assert_eq!(r.next_state_id, StateId::BuyerWaitForRedeemMwcConfirmations);
    assert_eq!(*handed.borrow(), finalized_text);
}
