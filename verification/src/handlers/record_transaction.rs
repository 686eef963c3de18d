//! Giving money to an account and spending from it: the request is
//! validated, recorded on the ledger, and what was recorded is sent to
//! everyone subscribed to the account.

use vstd::prelude::*;
use vstd::string::*;

use crate::appstate::{delivery_ids, subscribers_of, subscription_ids, AppState, Delivery};
use crate::db::record_outcome;
use crate::model::amount::Amount;
use crate::model::error::{ApiError, ApiErrorView};
use crate::model::transaction::{Transaction, TransactionView};
use crate::model::websocket_msg::{SubscriptionView, WebSocketMsg};

verus! {

/// A request to give or to spend: how much, and what for.
#[derive(Debug, PartialEq)]
pub struct GiveMoney {
    pub amount: Amount,
    pub purpose: String,
}

/// What a request that was served leaves behind.
#[derive(Debug, PartialEq)]
pub struct Recorded {
    /// The entry as the ledger stored it.
    pub transaction: Transaction,
    /// What became of the offer of that entry to each subscriber of the
    /// account, in the order of registration.
    pub deliveries: Vec<Delivery>,
}

/// Which way the money goes.
#[derive(Debug, Clone, Copy, PartialEq, Eq, Structural)]
pub enum TransactionType {
    Give,
    Spend,
}

/// The rules on a request, whichever way the money goes: the amount is
/// above zero, and there is a purpose. The amount is judged first.
pub open spec fn validation_outcome(amount: int, purpose: Seq<char>) -> Result<(), ApiErrorView> {
    if amount <= 0 {
        Err(ApiErrorView::InputFailedValidation("Amount must be at least 0.01"@))
    } else if purpose.len() == 0 {
        Err(ApiErrorView::InputFailedValidation("Must provide a purpose"@))
    } else {
        Ok(())
    }
}

/// The amount as the ledger records it: as given for a gift, with its
/// sign turned for spending.
pub open spec fn signed_amount(amount: int, transaction_type: TransactionType) -> int {
    match transaction_type {
        TransactionType::Give => amount,
        TransactionType::Spend => -amount,
    }
}

/// What a request made at `timestamp` comes to on a ledger with this
/// history: the entry that is stored, or the error and nothing stored. A
/// request that breaks the rules on requests never reaches the ledger.
pub open spec fn request_outcome(
    history: Seq<TransactionView>,
    child_name: Seq<char>,
    amount: int,
    purpose: Seq<char>,
    transaction_type: TransactionType,
    timestamp: int,
) -> Result<TransactionView, ApiErrorView> {
    match validation_outcome(amount, purpose) {
        Err(error) => Err(error),
        Ok(()) => record_outcome(
            history,
            TransactionView {
                id: 0,
                timestamp,
                child_name,
                amount: signed_amount(amount, transaction_type),
                purpose,
            },
        ),
    }
}

/// The request made at `timestamp` was served: `r` is its outcome, and the
/// ledger went from `before` to `after` by exactly the entry stored, if
/// one was. What was stored was offered to every subscriber of the
/// account among `subscriptions`, and to nobody else; what was refused
/// was offered to nobody.
pub open spec fn request_served(
    before: Seq<TransactionView>,
    after: Seq<TransactionView>,
    subscriptions: Seq<SubscriptionView>,
    child_name: Seq<char>,
    give_money: GiveMoney,
    transaction_type: TransactionType,
    timestamp: int,
    r: Result<Recorded, ApiError>,
) -> bool {
    match request_outcome(
        before,
        child_name,
        give_money.amount@,
        give_money.purpose@,
        transaction_type,
        timestamp,
    ) {
        Ok(stored) => {
            &&& r matches Ok(recorded)
            &&& recorded.transaction@ == stored
            &&& delivery_ids(recorded.deliveries@) == subscription_ids(
                subscribers_of(subscriptions, child_name),
            )
            &&& after == before.push(stored)
        },
        Err(error) => r matches Err(e) && e@ == error && after == before,
    }
}

/// `chrono::Utc::now` and `DateTime::timestamp_millis`: the time on the
/// system clock, in milliseconds since the Unix epoch. Nothing is claimed
/// of it. A clock set before the epoch makes chrono panic.
#[verifier::external_body]
fn now_millis() -> (millis: i64) {
    chrono::Utc::now().timestamp_millis()
}

/// Holds a request to the rules on requests.
pub fn validate_request_body(give_money: &GiveMoney) -> (r: Result<(), ApiError>)
    ensures
        match validation_outcome(give_money.amount@, give_money.purpose@) {
            Ok(()) => r is Ok,
            Err(error) => r matches Err(e) && e@ == error,
        },
{
    if !give_money.amount.is_positive_nonzero() {
        return Err(
            ApiError::InputFailedValidation(String::from_str("Amount must be at least 0.01")),
        );
    }
    if give_money.purpose.as_str().is_empty() {
        return Err(ApiError::InputFailedValidation(String::from_str("Must provide a purpose")));
    }
    return Ok(());
}

/// Serves a request made at `timestamp`: validates it, records it on the
/// ledger, and offers what was recorded to every subscriber of the
/// account. Whether a subscriber's queue took the offer is told in the
/// deliveries and changes nothing else about the outcome: a full or
/// closed queue never fails the request. A request that is refused is
/// offered to nobody.
pub fn record_transaction(
    app_state: &mut AppState,
    child_name: String,
    give_money: GiveMoney,
    transaction_type: TransactionType,
    timestamp: i64,
) -> (r: Result<Recorded, ApiError>)
    requires
        old(app_state).wf(),
    ensures
        final(app_state).wf(),
        final(app_state).subscriptions() == old(app_state).subscriptions(),
        request_served(
            old(app_state).ledger(),
            final(app_state).ledger(),
            old(app_state).subscriptions(),
            child_name@,
            give_money,
            transaction_type,
            timestamp as int,
            r,
        ),
{
    validate_request_body(&give_money)?;

    let mut amount = give_money.amount;
    if transaction_type == TransactionType::Spend {
        amount = amount.negate();
    }
    proof {
        give_money.amount.lemma_view_in_range();
    }

    let persisted_transaction = app_state.record(
        Transaction::new(0, timestamp, child_name.clone(), amount, give_money.purpose.clone()),
    )?;

    let deliveries = app_state.queue_messages_to_active_websockets_for_child(
        child_name,
        WebSocketMsg::Transaction(persisted_transaction.clone()),
    );

    Ok(Recorded { transaction: persisted_transaction, deliveries })
}

/// Credits `give_money.amount` to the account `child_name`, now.
pub fn give(app_state: &mut AppState, child_name: String, give_money: GiveMoney) -> (r: Result<
    Recorded,
    ApiError,
>)
    requires
        old(app_state).wf(),
    ensures
        final(app_state).wf(),
        final(app_state).subscriptions() == old(app_state).subscriptions(),
        exists|timestamp: i64|
            request_served(
                old(app_state).ledger(),
                final(app_state).ledger(),
                old(app_state).subscriptions(),
                child_name@,
                give_money,
                TransactionType::Give,
                timestamp as int,
                r,
            ),
{
    let timestamp: i64 = now_millis();
    record_transaction(app_state, child_name, give_money, TransactionType::Give, timestamp)
}

/// Debits `give_money.amount` from the account `child_name`, now. The
/// amount is given above zero and recorded below it.
pub fn spend(app_state: &mut AppState, child_name: String, give_money: GiveMoney) -> (r: Result<
    Recorded,
    ApiError,
>)
    requires
        old(app_state).wf(),
    ensures
        final(app_state).wf(),
        final(app_state).subscriptions() == old(app_state).subscriptions(),
        exists|timestamp: i64|
            request_served(
                old(app_state).ledger(),
                final(app_state).ledger(),
                old(app_state).subscriptions(),
                child_name@,
                give_money,
                TransactionType::Spend,
                timestamp as int,
                r,
            ),
{
    let timestamp: i64 = now_millis();
    record_transaction(app_state, child_name, give_money, TransactionType::Spend, timestamp)
}

} // verus!
