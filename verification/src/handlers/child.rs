//! What is known of one account.

use vstd::prelude::*;

use crate::appstate::AppState;
use crate::db::{account_balance, account_history};
use crate::model::amount::Amount;
use crate::model::error::{internal_error, ApiError};
use crate::model::transaction::{transaction_views, Transaction};

verus! {

/// An account: its name, its balance and its transactions, oldest first.
#[derive(Debug, PartialEq)]
pub struct ChildAccountResponse {
    pub child_name: String,
    pub balance: Amount,
    pub transactions: Vec<Transaction>,
}

/// The account `child_name` as the ledger has it. A name that nothing was
/// recorded on is an account with no transactions and a balance of zero. A
/// balance beyond what an amount can hold is a fault of the store.
pub fn get_child(app_state: &AppState, child_name: String) -> (r: Result<
    ChildAccountResponse,
    ApiError,
>)
    requires
        app_state.wf(),
    ensures
        match r {
            Ok(response) => {
                &&& response.child_name@ == child_name@
                &&& response.balance@ == account_balance(app_state.ledger(), child_name@)
                &&& transaction_views(response.transactions@) == account_history(
                    app_state.ledger(),
                    child_name@,
                )
            },
            Err(error) => {
                &&& account_balance(app_state.ledger(), child_name@) > i64::MAX
                &&& error@ == internal_error()
            },
        },
{
    let transactions = app_state.get_db().get_transactions_for_child(child_name.clone())?;

    let balance = if transactions.len() == 0 {
        Amount::from_pence(0)
    } else {
        app_state.get_db().get_account_balance_for_child(child_name.clone())?
    };

    let response = ChildAccountResponse { child_name, balance, transactions: transactions };

    Ok(response)
}

} // verus!
