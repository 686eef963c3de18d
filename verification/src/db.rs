//! The ledger: every transaction ever recorded, in the order of recording,
//! and the rule that no account's balance goes below zero.

use vstd::prelude::*;
use vstd::string::*;

use crate::model::amount::Amount;
use crate::model::error::{internal_error, ApiError, ApiErrorView};
use crate::model::transaction::{transaction_views, Transaction, TransactionView};

verus! {

/// The most transactions one ledger holds: as many as there are identities
/// from one upwards.
pub const MAX_TRANSACTIONS: usize = 255;

/// The ledger. It alone gives a transaction its identity.
#[derive(Debug)]
pub struct Db {
    transactions: Vec<Transaction>,
}

/// The test that picks the transactions of one account.
pub open spec fn of_account(account: Seq<char>) -> spec_fn(TransactionView) -> bool {
    |t: TransactionView| t.child_name == account
}

/// The transactions of one account, in the order of recording.
pub open spec fn account_history(
    history: Seq<TransactionView>,
    account: Seq<char>,
) -> Seq<TransactionView> {
    history.filter(of_account(account))
}

/// The sum of the amounts of a run of transactions, in pence.
pub open spec fn total(history: Seq<TransactionView>) -> int
    decreases history.len(),
{
    if history.len() == 0 {
        0
    } else {
        total(history.drop_last()) + history.last().amount
    }
}

/// The balance of one account: the sum of the amounts recorded on it.
pub open spec fn account_balance(history: Seq<TransactionView>, account: Seq<char>) -> int {
    total(account_history(history, account))
}

/// What a valid ledger holds: identities that count up from one, and a
/// history in which no account's balance was below zero at any point.
pub open spec fn valid_history(history: Seq<TransactionView>) -> bool {
    &&& history.len() <= MAX_TRANSACTIONS
    &&& forall|i: int| 0 <= i < history.len() ==> (#[trigger] history[i]).id == i + 1
    &&& forall|k: int, account: Seq<char>|
        0 <= k <= history.len() ==> #[trigger] account_balance(history.take(k), account) >= 0
}

/// The reason given when a debit would take `account` below zero.
pub open spec fn overdraw_reason(account: Seq<char>) -> Seq<char> {
    "Transaction will take account "@ + account + " negative"@
}

/// What recording `transaction` on a ledger with this history comes to:
/// the entry as it is stored, or the error and nothing stored.
///
/// A debit needs the balance of its account. A balance too large for an
/// amount to hold cannot be read, which is a fault of the store; a debit
/// larger than the balance is refused. Anything else is stored under the
/// next identity, while there is one.
pub open spec fn record_outcome(
    history: Seq<TransactionView>,
    transaction: TransactionView,
) -> Result<TransactionView, ApiErrorView> {
    let balance = account_balance(history, transaction.child_name);
    if transaction.amount < 0 && balance > i64::MAX {
        Err(internal_error())
    } else if transaction.amount < 0 && balance + transaction.amount < 0 {
        Err(ApiErrorView::InputFailedValidation(overdraw_reason(transaction.child_name)))
    } else if history.len() >= MAX_TRANSACTIONS {
        Err(internal_error())
    } else {
        Ok(TransactionView { id: history.len() as int + 1, ..transaction })
    }
}

/// One more transaction changes the balance of its own account by its
/// amount and no other balance at all.
pub proof fn lemma_balance_after_push(
    history: Seq<TransactionView>,
    transaction: TransactionView,
    account: Seq<char>,
)
    ensures
        account_balance(history.push(transaction), account) == account_balance(history, account)
            + if transaction.child_name == account {
            transaction.amount
        } else {
            0
        },
{
    history.lemma_filter_push(transaction, of_account(account));
    if transaction.child_name == account {
        assert(account_history(history, account).push(transaction).drop_last()
            =~= account_history(history, account));
    }
}

/// A valid history stays valid with one more entry under the next identity,
/// if that entry leaves the balance of its account at zero or above.
pub proof fn lemma_valid_after_push(history: Seq<TransactionView>, transaction: TransactionView)
    requires
        valid_history(history),
        history.len() < MAX_TRANSACTIONS,
        transaction.id == history.len() + 1,
        account_balance(history, transaction.child_name) + transaction.amount >= 0,
    ensures
        valid_history(history.push(transaction)),
{
    let after = history.push(transaction);
    assert(history.take(history.len() as int) =~= history);
    assert forall|k: int, account: Seq<char>| 0 <= k <= after.len() implies #[trigger]
        account_balance(after.take(k), account) >= 0 by {
        if k <= history.len() {
            assert(after.take(k) =~= history.take(k));
        } else {
            assert(after.take(k) =~= after);
            lemma_balance_after_push(history, transaction, account);
            assert(account_balance(history.take(history.len() as int), account) >= 0);
        }
    }
}

/// In a valid ledger no account has ever had a balance below zero: not
/// now, and not after any number of its entries. An account that nothing
/// was recorded on stands at zero.
pub proof fn lemma_balance_never_negative(
    history: Seq<TransactionView>,
    entries: int,
    account: Seq<char>,
)
    requires
        valid_history(history),
        0 <= entries <= history.len(),
    ensures
        account_balance(history.take(entries), account) >= 0,
        account_balance(history, account) >= 0,
        account_history(history, account).len() == 0 ==> account_balance(history, account) == 0,
{
    assert(history.take(history.len() as int) =~= history);
    assert(account_balance(history.take(history.len() as int), account) >= 0);
}

/// In a valid ledger the first entry has the identity one, and every
/// entry has a greater identity than each entry before it.
pub proof fn lemma_identities_count_up(history: Seq<TransactionView>, earlier: int, later: int)
    requires
        valid_history(history),
        0 <= earlier < later < history.len(),
    ensures
        history[0].id == 1,
        history[earlier].id < history[later].id,
{
}

/// Whatever a valid ledger accepts leaves it valid. The entry stored is the
/// transaction under the identity after the last one given, which is one
/// on an empty ledger and greater than every identity given before; the
/// balance of its account moves by its amount, and no other balance moves.
pub proof fn lemma_recording_keeps_ledger_valid(
    history: Seq<TransactionView>,
    transaction: TransactionView,
    account: Seq<char>,
)
    requires
        valid_history(history),
        record_outcome(history, transaction) is Ok,
    ensures
        ({
            let stored = record_outcome(history, transaction)->Ok_0;
            &&& valid_history(history.push(stored))
            &&& stored == TransactionView { id: history.len() as int + 1, ..transaction }
            &&& forall|i: int| 0 <= i < history.len() ==> (#[trigger] history[i]).id < stored.id
            &&& account_balance(history.push(stored), account) == account_balance(history, account)
                + if account == transaction.child_name {
                transaction.amount
            } else {
                0
            }
        }),
{
    let stored = record_outcome(history, transaction)->Ok_0;
    lemma_balance_never_negative(history, 0, transaction.child_name);
    lemma_valid_after_push(history, stored);
    lemma_balance_after_push(history, stored, account);
}

/// A debit that a valid ledger refuses for want of money is larger than
/// the balance, and one that it accepts is not.
pub proof fn lemma_debit_needs_balance(history: Seq<TransactionView>, transaction: TransactionView)
    requires
        valid_history(history),
        transaction.amount < 0,
        history.len() < MAX_TRANSACTIONS,
        account_balance(history, transaction.child_name) <= i64::MAX,
    ensures
        record_outcome(history, transaction) is Ok <==> account_balance(
            history,
            transaction.child_name,
        ) + transaction.amount >= 0,
{
}

impl View for Db {
    type V = Seq<TransactionView>;

    /// The history: every transaction recorded, oldest first.
    closed spec fn view(&self) -> Seq<TransactionView> {
        transaction_views(self.transactions@)
    }
}

impl Db {
    /// The ledger is valid: see [`valid_history`].
    pub open spec fn wf(&self) -> bool {
        valid_history(self@)
    }

    /// An empty ledger.
    pub fn new() -> (db: Db)
        ensures
            db@ == Seq::<TransactionView>::empty(),
            db.wf(),
    {
        let db = Db { transactions: Vec::new() };
        proof {
            assert(db@ =~= Seq::<TransactionView>::empty());
            assert forall|k: int, account: Seq<char>| 0 <= k <= db@.len() implies #[trigger]
                account_balance(db@.take(k), account) >= 0 by {
                assert(db@.take(k) =~= Seq::<TransactionView>::empty());
                reveal(Seq::filter);
            }
        }
        db
    }

    /// Records `transaction`, whose own identity is ignored: the ledger
    /// gives the next one. On an error nothing is recorded.
    pub fn record_transaction_for_child(&mut self, transaction: Transaction) -> (r: Result<
        Transaction,
        ApiError,
    >)
        requires
            old(self).wf(),
        ensures
            final(self).wf(),
            match record_outcome(old(self)@, transaction@) {
                Ok(stored) => r matches Ok(t) && t@ == stored && final(self)@ == old(self)@.push(
                    stored,
                ),
                Err(e) => r matches Err(error) && error@ == e && final(self)@ == old(self)@,
            },
    {
        let ghost history = self@;
        proof {
            assert(history.take(history.len() as int) =~= history);
            assert(account_balance(history.take(history.len() as int), transaction@.child_name)
                >= 0);
        }
        if transaction.amount.is_negative() {
            let balance = self.get_account_balance_for_child_internal(&transaction.child_name)?;
            let new_balance = balance + transaction.amount;
            proof {
                balance.lemma_view_in_range();
            }
            if new_balance.is_negative() {
                let mut reason = String::from_str("Transaction will take account ");
                reason.append(transaction.child_name.as_str());
                reason.append(" negative");
                return Err(ApiError::InputFailedValidation(reason));
            }
        }
        if self.transactions.len() >= MAX_TRANSACTIONS {
            return Err(ApiError::internal());
        }
        let stored = Transaction {
            id: (self.transactions.len() + 1) as u8,
            timestamp: transaction.timestamp,
            child_name: transaction.child_name,
            amount: transaction.amount,
            purpose: transaction.purpose,
        };
        self.transactions.push(stored.clone());
        proof {
            assert(self@ =~= history.push(stored@));
            lemma_valid_after_push(history, stored@);
        }
        Ok(stored)
    }

    /// The transactions of `child_name`, oldest first.
    pub fn get_transactions_for_child(&self, child_name: String) -> (r: Result<
        Vec<Transaction>,
        ApiError,
    >)
        ensures
            r matches Ok(transactions) && transaction_views(transactions@) == account_history(
                self@,
                child_name@,
            ),
    {
        let mut transactions: Vec<Transaction> = Vec::new();
        let mut i: usize = 0;
        proof {
            assert(self@.take(0) =~= Seq::<TransactionView>::empty());
            reveal(Seq::filter);
            assert(transaction_views(transactions@) =~= account_history(
                self@.take(0),
                child_name@,
            ));
        }
        while i < self.transactions.len()
            invariant
                i <= self.transactions.len(),
                transaction_views(transactions@) == account_history(
                    self@.take(i as int),
                    child_name@,
                ),
            decreases self.transactions.len() - i,
        {
            let transaction = &self.transactions[i];
            proof {
                assert(self@.take(i + 1) =~= self@.take(i as int).push(transaction@));
                self@.take(i as int).lemma_filter_push(transaction@, of_account(child_name@));
            }
            if transaction.child_name == child_name {
                let ghost before = transactions@;
                transactions.push(transaction.clone());
                assert(transaction_views(transactions@) =~= transaction_views(before).push(
                    transaction@,
                ));
            }
            i = i + 1;
        }
        assert(self@.take(i as int) =~= self@);
        Ok(transactions)
    }

    /// The balance of `child_name`: the sum of all that was recorded on the
    /// account, and zero for an account that nothing was recorded on. A sum
    /// beyond what an amount can hold is a fault of the store.
    pub fn get_account_balance_for_child(&self, child_name: String) -> (r: Result<
        Amount,
        ApiError,
    >)
        requires
            self.wf(),
        ensures
            match r {
                Ok(balance) => balance@ == account_balance(self@, child_name@),
                Err(error) => account_balance(self@, child_name@) > i64::MAX && error@
                    == internal_error(),
            },
    {
        self.get_account_balance_for_child_internal(&child_name)
    }

    fn get_account_balance_for_child_internal(&self, child_name: &String) -> (r: Result<
        Amount,
        ApiError,
    >)
        requires
            self.wf(),
        ensures
            match r {
                Ok(balance) => balance@ == account_balance(self@, child_name@),
                Err(error) => account_balance(self@, child_name@) > i64::MAX && error@
                    == internal_error(),
            },
    {
        let mut sum: i128 = 0;
        let mut i: usize = 0;
        proof {
            assert(self@.take(0) =~= Seq::<TransactionView>::empty());
            reveal(Seq::filter);
        }
        while i < self.transactions.len()
            invariant
                i <= self.transactions.len() <= MAX_TRANSACTIONS,
                self@.len() == self.transactions.len(),
                sum == account_balance(self@.take(i as int), child_name@),
                -(i * 0x8000_0000_0000_0000) <= sum <= i * 0x8000_0000_0000_0000,
            decreases self.transactions.len() - i,
        {
            let transaction = &self.transactions[i];
            proof {
                assert(self@.take(i + 1) =~= self@.take(i as int).push(transaction@));
                lemma_balance_after_push(self@.take(i as int), transaction@, child_name@);
            }
            if transaction.child_name == *child_name {
                sum = sum + transaction.amount.serialize_for_db() as i128;
            }
            i = i + 1;
        }
        assert(self@.take(i as int) =~= self@);
        if sum > i64::MAX as i128 {
            Err(ApiError::internal())
        } else {
            Ok(Amount::from_pence(sum as i64))
        }
    }
}

} // verus!
