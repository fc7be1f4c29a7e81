//! The values the buyer's workflow reads and answers with.

use vstd::prelude::*;

verus! {

/// The states of the swap workflow that the buyer's handlers name.
#[derive(PartialEq, Eq, Structural, Clone, Copy, Debug)]
pub enum StateId {
    BuyerOfferCreated,
    BuyerSendingAcceptOfferMessage,
    BuyerWaitingForSellerToLock,
    BuyerPostingSecondaryToMultisigAccount,
    BuyerWaitingForLockConfirmations,
    BuyerSendingInitRedeemMessage,
    BuyerWaitingForRespondRedeemMessage,
    BuyerRedeemMwc,
    BuyerWaitForRedeemMwcConfirmations,
    BuyerSwapComplete,
    BuyerCancelled,
    BuyerWaitingForRefundTime,
    BuyerPostingRefundForSecondary,
    BuyerWaitingForRefundConfirmations,
    BuyerCancelledRefunded,
    /// A state of the seller's workflow; the buyer's lock check answers with it
    /// when more of the secondary currency was locked than the deal asks for.
    SellerWaitingForRefundHeight,
}

/// The secondary currency that is traded for MWC.
#[derive(PartialEq, Eq, Structural, Clone, Copy, Debug)]
pub enum Currency {
    Btc,
    Bch,
}

/// The ticker of a currency, as it appears in action names.
pub open spec fn currency_symbol(c: Currency) -> Seq<char> {
    match c {
        Currency::Btc => "BTC"@,
        Currency::Bch => "BCH"@,
    }
}

impl Currency {
    /// The ticker of the currency ("BTC", "BCH").
    pub fn symbol(&self) -> (s: String)
        ensures
            s@ == currency_symbol(*self),
    {
        match self {
            Currency::Btc => String::from_str("BTC"),
            Currency::Bch => String::from_str("BCH"),
        }
    }
}

/// A swap message, in the encoded form that travels between the parties.
#[derive(Debug)]
pub struct Message {
    pub content: String,
}

impl View for Message {
    type V = Seq<char>;

    open spec fn view(&self) -> Seq<char> {
        self.content@
    }
}

impl Clone for Message {
    fn clone(&self) -> (m: Self)
        ensures
            m == *self,
    {
        Message { content: self.content.clone() }
    }
}

/// What the wallet is asked to do before the workflow can go on.
#[derive(Debug)]
pub enum Action {
    /// Send the message that accepts the seller's offer.
    BuyerSendAcceptOfferMessage(Message),
    /// Wait until an MWC transaction has `required` confirmations.
    WaitForMwcConfirmations { name: String, required: u64, actual: u64 },
    /// Deposit `amount` of `currency` to the lock `address`.
    DepositSecondary { currency: Currency, amount: u64, address: String },
    /// Wait until a transaction of the secondary currency has `required` confirmations.
    WaitForSecondaryConfirmations { name: String, currency: Currency, required: u64, actual: u64 },
    /// Send the message that starts the redeem exchange.
    BuyerSendInitRedeemMessage(Message),
    /// Wait for the seller's answer to the redeem message.
    BuyerWaitingForRedeemMessage,
    /// Publish the MWC redeem transaction.
    BuyerPublishMwcRedeemTx,
    /// Wait until the refund time `required` of the secondary lock has come.
    WaitingForBtcRefund { currency: Currency, required: u64, current: u64 },
    /// Publish the refund transaction of the secondary currency.
    BuyerPublishSecondaryRefundTx(Currency),
}

/// An `Action` with its strings and messages taken by their characters.
pub enum ActionView {
    BuyerSendAcceptOfferMessage(Seq<char>),
    WaitForMwcConfirmations { name: Seq<char>, required: u64, actual: u64 },
    DepositSecondary { currency: Currency, amount: u64, address: Seq<char> },
    WaitForSecondaryConfirmations { name: Seq<char>, currency: Currency, required: u64, actual: u64 },
    BuyerSendInitRedeemMessage(Seq<char>),
    BuyerWaitingForRedeemMessage,
    BuyerPublishMwcRedeemTx,
    WaitingForBtcRefund { currency: Currency, required: u64, current: u64 },
    BuyerPublishSecondaryRefundTx(Currency),
}

impl View for Action {
    type V = ActionView;

    open spec fn view(&self) -> ActionView {
        match self {
            Action::BuyerSendAcceptOfferMessage(m) => ActionView::BuyerSendAcceptOfferMessage(m@),
            Action::WaitForMwcConfirmations { name, required, actual } =>
                ActionView::WaitForMwcConfirmations { name: name@, required: *required, actual: *actual },
            Action::DepositSecondary { currency, amount, address } =>
                ActionView::DepositSecondary { currency: *currency, amount: *amount, address: address@ },
            Action::WaitForSecondaryConfirmations { name, currency, required, actual } =>
                ActionView::WaitForSecondaryConfirmations {
                    name: name@,
                    currency: *currency,
                    required: *required,
                    actual: *actual,
                },
            Action::BuyerSendInitRedeemMessage(m) => ActionView::BuyerSendInitRedeemMessage(m@),
            Action::BuyerWaitingForRedeemMessage => ActionView::BuyerWaitingForRedeemMessage,
            Action::BuyerPublishMwcRedeemTx => ActionView::BuyerPublishMwcRedeemTx,
            Action::WaitingForBtcRefund { currency, required, current } =>
                ActionView::WaitingForBtcRefund { currency: *currency, required: *required, current: *current },
            Action::BuyerPublishSecondaryRefundTx(c) => ActionView::BuyerPublishSecondaryRefundTx(*c),
        }
    }
}

/// The answer of a state to an input: the state to go to, what the wallet
/// should do, and until when it has to be done.
#[derive(Debug)]
pub struct StateProcessRespond {
    pub next_state_id: StateId,
    pub action: Option<Action>,
    pub time_limit: Option<i64>,
}

/// A `StateProcessRespond` with its action taken by its view.
pub struct RespondView {
    pub next_state_id: StateId,
    pub action: Option<ActionView>,
    pub time_limit: Option<i64>,
}

impl View for StateProcessRespond {
    type V = RespondView;

    open spec fn view(&self) -> RespondView {
        RespondView {
            next_state_id: self.next_state_id,
            action: match self.action {
                Some(a) => Some(a@),
                None => None,
            },
            time_limit: self.time_limit,
        }
    }
}

/// The answer that only names the next state.
pub open spec fn moved(id: StateId) -> RespondView {
    RespondView { next_state_id: id, action: None, time_limit: None }
}

/// The answer that asks the wallet for `action`, with an optional deadline.
pub open spec fn asked(id: StateId, action: ActionView, time_limit: Option<i64>) -> RespondView {
    RespondView { next_state_id: id, action: Some(action), time_limit }
}

impl StateProcessRespond {
    /// An answer that names the next state, with no action and no deadline.
    pub fn new(next_state_id: StateId) -> (r: Self)
        ensures
            r@ == moved(next_state_id),
    {
        StateProcessRespond { next_state_id, action: None, time_limit: None }
    }

    /// The same answer with `action` to perform.
    pub fn action(self, action: Action) -> (r: Self)
        ensures
            r.next_state_id == self.next_state_id,
            r.action == Some(action),
            r.time_limit == self.time_limit,
    {
        StateProcessRespond { action: Some(action), ..self }
    }

    /// The same answer with the deadline `time_limit`.
    pub fn time_limit(self, time_limit: i64) -> (r: Self)
        ensures
            r.next_state_id == self.next_state_id,
            r.action == self.action,
            r.time_limit == Some(time_limit),
    {
        StateProcessRespond { time_limit: Some(time_limit), ..self }
    }
}

/// What a state is given to process.
#[derive(Debug)]
pub enum Input {
    /// The user asks to cancel the swap.
    Cancel,
    /// Look at the current situation and answer with what comes next.
    Check,
    /// The wallet has performed the action that was asked for; a refund goes
    /// to `refund_address` at the fee rate `fee_satoshi_per_byte`.
    Execute { refund_address: Option<String>, fee_satoshi_per_byte: Option<FeeRate> },
    /// A message arrived from the other party.
    IncomeMessage(Message),
}

/// A fee rate in satoshi per byte, an `f32` held by its bit pattern
/// (`f32::to_bits`); the workflow only hands it on.
#[derive(Clone, Copy, Debug)]
pub struct FeeRate {
    pub bits: u32,
}

/// Why processing an input failed.
#[derive(Debug)]
pub enum ErrorKind {
    /// The state does not take this input.
    InvalidSwapStateInput(String),
    /// Work outside the workflow (keys, network, wallet) failed.
    Generic(String),
}

/// The confirmations the wallet observed for the swap's transactions.
#[derive(Clone, Copy, Debug)]
pub struct SwapTransactionsConfirmations {
    pub mwc_lock_conf: Option<u64>,
    pub mwc_redeem_conf: Option<u64>,
    pub secondary_lock_conf: Option<u64>,
    /// The amount of the secondary currency found on the lock account.
    pub secondary_lock_amount: u64,
    pub secondary_refund_conf: Option<u64>,
}

/// A confirmation count, or 0 when the transaction was not seen.
pub open spec fn confs(c: Option<u64>) -> u64 {
    match c {
        Some(n) => n,
        None => 0,
    }
}

/// The value of an optional time, or 0 when there is none.
pub open spec fn time_or_zero(t: Option<i64>) -> i64 {
    match t {
        Some(v) => v,
        None => 0,
    }
}

/// The part of a swap that the buyer's workflow reads and writes.
pub struct Swap {
    /// Whether the seller locks the MWC before the buyer deposits.
    pub seller_lock_first: bool,
    pub secondary_currency: Currency,
    /// The amount of the secondary currency the buyer has to lock.
    pub secondary_amount: u64,
    pub mwc_confirmations: u64,
    pub secondary_confirmations: u64,
    /// The offer acceptance, once it was sent.
    pub message1: Option<Message>,
    /// The redeem initiation, once it was sent.
    pub message2: Option<Message>,
    pub posted_msg1: Option<i64>,
    pub posted_redeem: Option<i64>,
    pub posted_refund: Option<i64>,
    /// How many participants the redeem slate holds.
    pub redeem_participants: usize,
    /// Whether the redeem adaptor signature is present.
    pub has_adaptor_signature: bool,
    /// The transaction of the redeem slate.
    pub redeem_tx: grin_core::core::transaction::Transaction,
    /// The transaction of the refund slate.
    pub refund_tx: grin_core::core::transaction::Transaction,
    /// Deadline for the offer exchange.
    pub time_message_offers: i64,
    /// Deadline for starting to lock funds.
    pub time_start_lock: i64,
    /// Deadline for the redeem message exchange.
    pub time_message_redeem: i64,
    /// Deadline for publishing the MWC redeem transaction.
    pub time_mwc_redeem: i64,
    /// Time from which the secondary lock can be refunded.
    pub time_btc_lock: i64,
}

impl Swap {
    pub fn get_time_message_offers(&self) -> (t: i64)
        ensures
            t == self.time_message_offers,
    {
        self.time_message_offers
    }

    pub fn get_time_start_lock(&self) -> (t: i64)
        ensures
            t == self.time_start_lock,
    {
        self.time_start_lock
    }

    pub fn get_time_message_redeem(&self) -> (t: i64)
        ensures
            t == self.time_message_redeem,
    {
        self.time_message_redeem
    }

    pub fn get_time_mwc_redeem(&self) -> (t: i64)
        ensures
            t == self.time_mwc_redeem,
    {
        self.time_mwc_redeem
    }

    pub fn get_time_btc_lock(&self) -> (t: i64)
        ensures
            t == self.time_btc_lock,
    {
        self.time_btc_lock
    }
}

/// Both lock transactions have the confirmations the swap asks for.
pub open spec fn locks_confirmed(swap: Swap, conf: SwapTransactionsConfirmations) -> bool {
    &&& confs(conf.mwc_lock_conf) >= swap.mwc_confirmations
    &&& confs(conf.secondary_lock_conf) >= swap.secondary_confirmations
}

/// The text of one decimal digit.
pub open spec fn digit_text(d: nat) -> Seq<char> {
    if d == 0 {
        "0"@
    } else if d == 1 {
        "1"@
    } else if d == 2 {
        "2"@
    } else if d == 3 {
        "3"@
    } else if d == 4 {
        "4"@
    } else if d == 5 {
        "5"@
    } else if d == 6 {
        "6"@
    } else if d == 7 {
        "7"@
    } else if d == 8 {
        "8"@
    } else {
        "9"@
    }
}

/// The decimal text of `n`, without leading zeros.
pub open spec fn decimal_text(n: nat) -> Seq<char>
    decreases n,
{
    if n < 10 {
        digit_text(n)
    } else {
        decimal_text(n / 10) + digit_text(n % 10)
    }
}

fn digit_str(d: u32) -> (s: &'static str)
    requires
        d < 10,
    ensures
        s@ == digit_text(d as nat),
{
    if d == 0 {
        "0"
    } else if d == 1 {
        "1"
    } else if d == 2 {
        "2"
    } else if d == 3 {
        "3"
    } else if d == 4 {
        "4"
    } else if d == 5 {
        "5"
    } else if d == 6 {
        "6"
    } else if d == 7 {
        "7"
    } else if d == 8 {
        "8"
    } else {
        "9"
    }
}

/// The decimal text of `n`.
pub fn decimal(n: u32) -> (s: String)
    ensures
        s@ == decimal_text(n as nat),
    decreases n,
{
    if n < 10 {
        String::from_str(digit_str(n))
    } else {
        let mut s = decimal(n / 10);
        s.append(digit_str(n % 10));
        s
    }
}

/// The text of an optional string: `None`, or `Some("..")` around it.
pub open spec fn optional_string_text(o: Option<String>) -> Seq<char> {
    match o {
        None => "None"@,
        Some(s) => "Some(\""@ + s@ + "\")"@,
    }
}

/// The text of an optional fee rate: `None`, or `Some(FeeRate { bits: .. })`.
pub open spec fn fee_text(o: Option<FeeRate>) -> Seq<char> {
    match o {
        None => "None"@,
        Some(f) => "Some(FeeRate { bits: "@ + decimal_text(f.bits as nat) + " })"@,
    }
}

/// The text of an input, in the layout of Rust's `Debug` form, with string
/// contents written as they are.
pub open spec fn input_text(input: Input) -> Seq<char> {
    match input {
        Input::Cancel => "Cancel"@,
        Input::Check => "Check"@,
        Input::Execute { refund_address, fee_satoshi_per_byte } => "Execute { refund_address: "@
            + optional_string_text(refund_address) + ", fee_satoshi_per_byte: "@ + fee_text(
            fee_satoshi_per_byte,
        ) + " }"@,
        Input::IncomeMessage(m) => "IncomeMessage(Message { content: \""@ + m@ + "\" })"@,
    }
}

impl Input {
    /// The text of the input, as `input_text` gives it.
    pub fn text(&self) -> (t: String)
        ensures
            t@ == input_text(*self),
    {
        match self {
            Input::Cancel => String::from_str("Cancel"),
            Input::Check => String::from_str("Check"),
            Input::Execute { refund_address, fee_satoshi_per_byte } => {
                let mut t = String::from_str("Execute { refund_address: ");
                match refund_address {
                    None => t.append("None"),
                    Some(a) => {
                        t.append("Some(\"");
                        t.append(a.as_str());
                        t.append("\")");
                    },
                }
                t.append(", fee_satoshi_per_byte: ");
                match fee_satoshi_per_byte {
                    None => t.append("None"),
                    Some(f) => {
                        t.append("Some(FeeRate { bits: ");
                        let d = decimal(f.bits);
                        t.append(d.as_str());
                        t.append(" })");
                    },
                }
                t.append(" }");
                assert(t@ =~= input_text(*self));
                t
            },
            Input::IncomeMessage(m) => {
                let mut t = String::from_str("IncomeMessage(Message { content: \"");
                t.append(m.content.as_str());
                t.append("\" })");
                assert(t@ =~= input_text(*self));
                t
            },
        }
    }
}

/// The error text for an input that the state `state` does not take: the
/// state's name, " get ", and the input's text.
pub open spec fn invalid_input_text(state: Seq<char>, input: Input) -> Seq<char> {
    state + " get "@ + input_text(input)
}

/// The error answered to an input that a state does not take.
pub(crate) fn invalid_input(state: &str, input: &Input) -> (e: ErrorKind)
    ensures
        e matches ErrorKind::InvalidSwapStateInput(t) && t@ == invalid_input_text(state@, *input),
{
    let mut text = String::from_str(state);
    text.append(" get ");
    let described = input.text();
    text.append(described.as_str());
    ErrorKind::InvalidSwapStateInput(text)
}

} // verus!
