//! The state that every operation works on: the ledger, and the registry of
//! live subscriptions that recorded transactions are sent to.

use vstd::prelude::*;

use crate::db::{record_outcome, valid_history, Db};
use crate::model::error::ApiError;
use crate::model::transaction::{Transaction, TransactionView};
use crate::model::websocket_msg::{
    open_channel, ActiveWebsocket, DeliveryError, SubscriptionView, WebSocketMsg,
    SUBSCRIBER_QUEUE_CAPACITY,
};

verus! {

/// The ledger and the registry of subscriptions.
#[derive(Debug)]
pub struct AppState {
    db: Db,
    open_websockets: Vec<ActiveWebsocket>,
}

/// What became of one message for one subscription.
#[derive(Debug, PartialEq)]
pub struct Delivery {
    /// The identity of the subscription.
    pub id: String,
    /// Whether the message is on its queue, or why it is not.
    pub result: Result<(), DeliveryError>,
}

/// The views of a run of subscriptions, in the same order.
pub open spec fn subscription_views(websockets: Seq<ActiveWebsocket>) -> Seq<SubscriptionView> {
    Seq::new(websockets.len(), |i: int| websockets[i]@)
}

/// The test that picks the subscriptions to one account.
pub open spec fn listening_to(account: Seq<char>) -> spec_fn(SubscriptionView) -> bool {
    |s: SubscriptionView| s.child_name == account
}

/// The test that picks every subscription but those that go by `id`.
pub open spec fn other_than(id: Seq<char>) -> spec_fn(SubscriptionView) -> bool {
    |s: SubscriptionView| s.id != id
}

/// The subscriptions to one account, in the order of registration.
pub open spec fn subscribers_of(
    subscriptions: Seq<SubscriptionView>,
    account: Seq<char>,
) -> Seq<SubscriptionView> {
    subscriptions.filter(listening_to(account))
}

/// The identities of a run of subscriptions, in the same order.
pub open spec fn subscription_ids(subscriptions: Seq<SubscriptionView>) -> Seq<Seq<char>> {
    Seq::new(subscriptions.len(), |i: int| subscriptions[i].id)
}

/// The identities that a run of deliveries went to, in the same order.
pub open spec fn delivery_ids(deliveries: Seq<Delivery>) -> Seq<Seq<char>> {
    Seq::new(deliveries.len(), |i: int| deliveries[i].id@)
}

/// A message for `account` is offered to a subscription if and only if the
/// subscription is to `account`: every subscription to it is among the
/// subscribers, and every subscriber is a registered subscription to it.
pub proof fn lemma_subscribers_are_the_listeners(
    subscriptions: Seq<SubscriptionView>,
    account: Seq<char>,
)
    ensures
        forall|i: int|
            0 <= i < subscriptions.len() && (#[trigger] subscriptions[i]).child_name == account
                ==> subscribers_of(subscriptions, account).contains(subscriptions[i]),
        forall|j: int|
            0 <= j < subscribers_of(subscriptions, account).len() ==> {
                &&& (#[trigger] subscribers_of(subscriptions, account)[j]).child_name == account
                &&& subscriptions.contains(subscribers_of(subscriptions, account)[j])
            },
{
    let subscribers = subscribers_of(subscriptions, account);
    assert forall|i: int|
        0 <= i < subscriptions.len() && (#[trigger] subscriptions[i]).child_name
            == account implies subscribers.contains(subscriptions[i]) by {
        subscriptions.lemma_filter_contains(listening_to(account), i);
    }
    assert forall|j: int| 0 <= j < subscribers.len() implies {
        &&& (#[trigger] subscribers[j]).child_name == account
        &&& subscriptions.contains(subscribers[j])
    } by {
        subscriptions.lemma_filter_pred(listening_to(account), j);
        assert(subscribers.contains(subscribers[j]));
        subscriptions.lemma_filter_contains_rev(listening_to(account), subscribers[j]);
    }
}

/// A subscription to another account is not among the subscribers of
/// `account`, so no message for `account` is offered to it.
pub proof fn lemma_other_accounts_are_left_out(
    subscriptions: Seq<SubscriptionView>,
    account: Seq<char>,
    subscription: SubscriptionView,
)
    requires
        subscription.child_name != account,
    ensures
        !subscribers_of(subscriptions, account).contains(subscription),
{
    let subscribers = subscribers_of(subscriptions, account);
    if subscribers.contains(subscription) {
        let j = choose|j: int| 0 <= j < subscribers.len() && subscribers[j] == subscription;
        subscriptions.lemma_filter_pred(listening_to(account), j);
    }
}

/// After a subscription is removed by its identity, nothing that goes by
/// that identity receives anything, and whoever else was subscribed to an
/// account still is.
pub proof fn lemma_removal_spares_the_others(subscriptions: Seq<SubscriptionView>, id: Seq<char>)
    ensures
        forall|j: int|
            0 <= j < subscriptions.filter(other_than(id)).len() ==> (
            #[trigger] subscriptions.filter(other_than(id))[j]).id != id,
        forall|i: int|
            0 <= i < subscriptions.len() && (#[trigger] subscriptions[i]).id != id
                ==> subscriptions.filter(other_than(id)).contains(subscriptions[i]),
{
    let rest = subscriptions.filter(other_than(id));
    assert forall|j: int| 0 <= j < rest.len() implies (#[trigger] rest[j]).id != id by {
        subscriptions.lemma_filter_pred(other_than(id), j);
    }
    assert forall|i: int|
        0 <= i < subscriptions.len() && (#[trigger] subscriptions[i]).id != id implies rest.contains(
        subscriptions[i],
    ) by {
        subscriptions.lemma_filter_contains(other_than(id), i);
    }
}

impl AppState {
    /// The history of the ledger.
    pub closed spec fn ledger(&self) -> Seq<TransactionView> {
        self.db@
    }

    /// The live subscriptions, in the order of registration.
    pub closed spec fn subscriptions(&self) -> Seq<SubscriptionView> {
        subscription_views(self.open_websockets@)
    }

    /// The state is valid: its ledger is.
    pub open spec fn wf(&self) -> bool {
        valid_history(self.ledger())
    }

    /// A state around `db`, with nobody subscribed.
    pub fn new(db: Db) -> (state: AppState)
        ensures
            state.ledger() == db@,
            state.subscriptions() == Seq::<SubscriptionView>::empty(),
    {
        let state = AppState { db: db, open_websockets: Vec::new() };
        assert(state.subscriptions() =~= Seq::<SubscriptionView>::empty());
        state
    }

    /// The ledger, to read.
    pub fn get_db(&self) -> (db: &Db)
        ensures
            db@ == self.ledger(),
    {
        return &self.db;
    }

    /// Records `transaction` on the ledger, as
    /// [`Db::record_transaction_for_child`] does. The subscriptions stay.
    pub fn record(&mut self, transaction: Transaction) -> (r: Result<Transaction, ApiError>)
        requires
            old(self).wf(),
        ensures
            final(self).wf(),
            final(self).subscriptions() == old(self).subscriptions(),
            match record_outcome(old(self).ledger(), transaction@) {
                Ok(stored) => r matches Ok(t) && t@ == stored && final(self).ledger() == old(
                    self,
                ).ledger().push(stored),
                Err(e) => r matches Err(error) && error@ == e && final(self).ledger() == old(
                    self,
                ).ledger(),
            },
    {
        self.db.record_transaction_for_child(transaction)
    }

    /// Adds `websocket` to the live subscriptions, after those that are
    /// there.
    pub fn register_open_websocket(&mut self, websocket: ActiveWebsocket)
        ensures
            final(self).subscriptions() == old(self).subscriptions().push(websocket@),
            final(self).ledger() == old(self).ledger(),
    {
        self.open_websockets.push(websocket);
        assert(self.subscriptions() =~= old(self).subscriptions().push(websocket@));
    }

    /// Opens a queue for a new subscriber to `child_name` and registers the
    /// subscription under `id`. Hands back the subscription, to put a
    /// close signal on the queue with, and the end of the queue that the
    /// subscriber reads.
    pub fn subscribe(&mut self, id: String, child_name: String) -> (opened: (
        ActiveWebsocket,
        tokio::sync::mpsc::Receiver<WebSocketMsg>,
    ))
        ensures
            opened.0@ == (SubscriptionView { id: id@, child_name: child_name@ }),
            final(self).subscriptions() == old(self).subscriptions().push(opened.0@),
            final(self).ledger() == old(self).ledger(),
    {
        let (sender, receiver) = open_channel(SUBSCRIBER_QUEUE_CAPACITY);
        let websocket = ActiveWebsocket::new(id, child_name, sender);
        self.register_open_websocket(websocket.clone());
        (websocket, receiver)
    }

    /// Removes every subscription that goes by `id`. The others stay, in
    /// their order.
    pub fn deregister_open_websocket(&mut self, id: String)
        ensures
            final(self).subscriptions() == old(self).subscriptions().filter(other_than(id@)),
            final(self).ledger() == old(self).ledger(),
    {
        let ghost before = self.subscriptions();
        let ghost mut seen: int = 0;
        let mut i: usize = 0;
        proof {
            assert(before.take(0) =~= Seq::<SubscriptionView>::empty());
            reveal(Seq::filter);
            assert(before.skip(0) =~= before);
            assert(self.subscriptions() =~= before.take(0).filter(other_than(id@)) + before.skip(
                0,
            ));
        }
        while i < self.open_websockets.len()
            invariant
                0 <= seen <= before.len(),
                i <= self.open_websockets.len(),
                i == before.take(seen).filter(other_than(id@)).len(),
                self.subscriptions() == before.take(seen).filter(other_than(id@)) + before.skip(
                    seen,
                ),
                self.ledger() == old(self).ledger(),
            decreases before.len() - seen,
        {
            let ghost kept = before.take(seen).filter(other_than(id@));
            proof {
                assert(self.subscriptions()[i as int] == before.skip(seen)[0]);
                assert(seen < before.len());
                assert(before.take(seen + 1) =~= before.take(seen).push(before[seen]));
                before.take(seen).lemma_filter_push(before[seen], other_than(id@));
            }
            if self.open_websockets[i].has_id(&id) {
                let ghost current = self.subscriptions();
                self.open_websockets.remove(i);
                proof {
                    assert(self.subscriptions() =~= current.remove(i as int));
                    assert(current.remove(i as int) =~= kept + before.skip(seen + 1));
                }
            } else {
                proof {
                    assert(self.subscriptions() =~= kept.push(before[seen]) + before.skip(
                        seen + 1,
                    ));
                }
                i = i + 1;
            }
            proof {
                seen = seen + 1;
            }
        }
        proof {
            assert(seen == before.len()) by {
                if seen < before.len() {
                    assert(self.subscriptions().len() == i + (before.len() - seen));
                }
            }
            assert(before.take(seen) =~= before);
            assert(before.skip(seen) =~= Seq::<SubscriptionView>::empty());
        }
    }

    /// Offers `msg` to every subscription to `child_name`, and to no other,
    /// in the order of registration, and reports what became of each offer.
    /// An offer that fails stops neither the call nor the offers after it.
    pub fn queue_messages_to_active_websockets_for_child(
        &self,
        child_name: String,
        msg: WebSocketMsg,
    ) -> (deliveries: Vec<Delivery>)
        ensures
            delivery_ids(deliveries@) == subscription_ids(
                subscribers_of(self.subscriptions(), child_name@),
            ),
    {
        let mut deliveries: Vec<Delivery> = Vec::new();
        let mut i: usize = 0;
        let ghost all = self.subscriptions();
        proof {
            assert(all.take(0) =~= Seq::<SubscriptionView>::empty());
            reveal(Seq::filter);
            assert(delivery_ids(deliveries@) =~= subscription_ids(
                subscribers_of(all.take(0), child_name@),
            ));
        }
        while i < self.open_websockets.len()
            invariant
                i <= self.open_websockets.len(),
                all == self.subscriptions(),
                delivery_ids(deliveries@) == subscription_ids(
                    subscribers_of(all.take(i as int), child_name@),
                ),
            decreases self.open_websockets.len() - i,
        {
            let websocket = &self.open_websockets[i];
            proof {
                assert(all.take(i + 1) =~= all.take(i as int).push(websocket@));
                all.take(i as int).lemma_filter_push(websocket@, listening_to(child_name@));
            }
            if websocket.listens_to(&child_name) {
                let ghost so_far = deliveries@;
                let result = websocket.send_message(msg.clone());
                deliveries.push(Delivery { id: websocket.get_id(), result });
                proof {
                    let matched = subscribers_of(all.take(i as int), child_name@);
                    assert(delivery_ids(deliveries@) =~= delivery_ids(so_far).push(
                        websocket@.id,
                    ));
                    assert(subscription_ids(matched.push(websocket@)) =~= subscription_ids(
                        matched,
                    ).push(websocket@.id));
                }
            }
            i = i + 1;
        }
        assert(all.take(i as int) =~= all);
        return deliveries;
    }
}

} // verus!
