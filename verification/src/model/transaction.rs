//! One entry of the ledger.

use vstd::prelude::*;

use crate::model::amount::Amount;

verus! {

/// A credit or a debit on one account, as the ledger recorded it.
#[derive(Debug, PartialEq)]
pub struct Transaction {
    /// The number the ledger gave the entry: one for the first, and one
    /// more for each that follows.
    pub id: u8,
    /// The instant of creation, in milliseconds since the Unix epoch, UTC.
    pub timestamp: i64,
    pub child_name: String,
    /// Positive for a credit, negative for a debit.
    pub amount: Amount,
    pub purpose: String,
}

/// A transaction as contracts speak of it.
pub struct TransactionView {
    pub id: int,
    pub timestamp: int,
    pub child_name: Seq<char>,
    /// The amount in pence.
    pub amount: int,
    pub purpose: Seq<char>,
}

impl View for Transaction {
    type V = TransactionView;

    open spec fn view(&self) -> TransactionView {
        TransactionView {
            id: self.id as int,
            timestamp: self.timestamp as int,
            child_name: self.child_name@,
            amount: self.amount@,
            purpose: self.purpose@,
        }
    }
}

/// The views of a run of transactions, in the same order.
pub open spec fn transaction_views(transactions: Seq<Transaction>) -> Seq<TransactionView> {
    Seq::new(transactions.len(), |i: int| transactions[i]@)
}

impl Clone for Transaction {
    fn clone(&self) -> (copy: Transaction)
        ensures
            copy == *self,
    {
        Transaction {
            id: self.id,
            timestamp: self.timestamp,
            child_name: self.child_name.clone(),
            amount: self.amount,
            purpose: self.purpose.clone(),
        }
    }
}

impl Transaction {
    pub fn new(
        id: u8,
        timestamp: i64,
        child_name: String,
        amount: Amount,
        purpose: String,
    ) -> (transaction: Transaction)
        ensures
            transaction.id == id,
            transaction.timestamp == timestamp,
            transaction.child_name == child_name,
            transaction.amount == amount,
            transaction.purpose == purpose,
    {
        Transaction { id, timestamp, child_name, amount, purpose }
    }
}

} // verus!
