//! What travels to a subscriber, and the subscriber's end of the registry.

use vstd::prelude::*;
use vstd::string::*;

use crate::model::transaction::Transaction;

verus! {

/// The sending half of a bounded tokio channel. Nothing of its state is
/// known here: a channel is shared with whoever holds the receiving half.
#[verifier::external_type_specification]
#[verifier::external_body]
#[verifier::reject_recursive_types(T)]
pub struct ExSender<T>(tokio::sync::mpsc::Sender<T>);

/// The receiving half of a bounded tokio channel.
#[verifier::external_type_specification]
#[verifier::external_body]
#[verifier::reject_recursive_types(T)]
pub struct ExReceiver<T>(tokio::sync::mpsc::Receiver<T>);

/// How many messages may wait for one subscriber.
pub const SUBSCRIBER_QUEUE_CAPACITY: usize = 32;

/// A message on its way to one subscriber.
#[derive(Debug, PartialEq)]
pub enum WebSocketMsg {
    /// The connection is to be closed.
    CloseSocket(),
    /// A transaction was recorded on the subscriber's account.
    Transaction(Transaction),
}

/// Why a message did not reach a subscriber's queue.
#[derive(Debug, Clone, Copy, PartialEq, Eq, Structural)]
pub enum DeliveryError {
    /// The queue holds as many messages as it can.
    QueueFull,
    /// Nobody reads the queue any more.
    Closed,
}

/// One live subscription: who listens, to which account, and the queue
/// that leads to them.
#[derive(Debug)]
pub struct ActiveWebsocket {
    id: String,
    child_name: String,
    send_channel: tokio::sync::mpsc::Sender<WebSocketMsg>,
}

/// A subscription as contracts speak of it.
pub struct SubscriptionView {
    pub id: Seq<char>,
    pub child_name: Seq<char>,
}

impl Clone for WebSocketMsg {
    fn clone(&self) -> (copy: WebSocketMsg)
        ensures
            copy == *self,
    {
        match self {
            WebSocketMsg::CloseSocket() => WebSocketMsg::CloseSocket(),
            WebSocketMsg::Transaction(transaction) => WebSocketMsg::Transaction(
                transaction.clone(),
            ),
        }
    }
}

/// `tokio::sync::mpsc::channel`: a new bounded channel that holds up to
/// `capacity` messages. It panics on a capacity of zero and on one above an
/// eighth of `usize::MAX`, so neither is admitted.
#[verifier::external_body]
pub(crate) fn open_channel(capacity: usize) -> (ends: (
    tokio::sync::mpsc::Sender<WebSocketMsg>,
    tokio::sync::mpsc::Receiver<WebSocketMsg>,
))
    requires
        0 < capacity <= usize::MAX / 8,
{
    tokio::sync::mpsc::channel(capacity)
}

/// `tokio::sync::mpsc::Sender::try_send`: puts `msg` on the queue if there
/// is room and somebody still reads it, without waiting. Which of the
/// three it is depends on the other end, so nothing is claimed of it.
#[verifier::external_body]
fn try_send(channel: &tokio::sync::mpsc::Sender<WebSocketMsg>, msg: WebSocketMsg) -> (r: Result<
    (),
    DeliveryError,
>) {
    match channel.try_send(msg) {
        Ok(()) => Ok(()),
        Err(tokio::sync::mpsc::error::TrySendError::Full(_)) => Err(DeliveryError::QueueFull),
        Err(tokio::sync::mpsc::error::TrySendError::Closed(_)) => Err(DeliveryError::Closed),
    }
}

/// `Sender::clone`: one more sending half of the same channel. Whatever
/// is sent on either arrives at the one receiving half.
#[verifier::external_body]
fn clone_sender(channel: &tokio::sync::mpsc::Sender<WebSocketMsg>) -> (copy:
    tokio::sync::mpsc::Sender<WebSocketMsg>) {
    channel.clone()
}

impl DeliveryError {
    /// The text of [`DeliveryError::message`].
    pub open spec fn message_spec(self) -> Seq<char> {
        match self {
            DeliveryError::QueueFull => "no available capacity"@,
            DeliveryError::Closed => "channel closed"@,
        }
    }

    /// The reason in words.
    pub fn message(&self) -> (m: String)
        ensures
            m@ == self.message_spec(),
    {
        match self {
            DeliveryError::QueueFull => String::from_str("no available capacity"),
            DeliveryError::Closed => String::from_str("channel closed"),
        }
    }
}

impl View for ActiveWebsocket {
    type V = SubscriptionView;

    closed spec fn view(&self) -> SubscriptionView {
        SubscriptionView { id: self.id@, child_name: self.child_name@ }
    }
}

impl Clone for ActiveWebsocket {
    /// The same subscription once more: the same names, and a queue that
    /// leads to the same subscriber.
    fn clone(&self) -> (copy: ActiveWebsocket)
        ensures
            copy@ == self@,
    {
        ActiveWebsocket {
            id: self.id.clone(),
            child_name: self.child_name.clone(),
            send_channel: clone_sender(&self.send_channel),
        }
    }
}

impl ActiveWebsocket {
    pub fn new(
        id: String,
        child_name: String,
        send_channel: tokio::sync::mpsc::Sender<WebSocketMsg>,
    ) -> (websocket: ActiveWebsocket)
        ensures
            websocket@ == (SubscriptionView { id: id@, child_name: child_name@ }),
    {
        ActiveWebsocket { id: id, child_name: child_name, send_channel: send_channel }
    }

    pub fn get_id(&self) -> (id: String)
        ensures
            id@ == self@.id,
    {
        return self.id.clone();
    }

    pub fn get_child_name(&self) -> (child_name: String)
        ensures
            child_name@ == self@.child_name,
    {
        return self.child_name.clone();
    }

    /// Whether the subscription listens to `account`.
    pub fn listens_to(&self, account: &String) -> (b: bool)
        ensures
            b == (self@.child_name == account@),
    {
        self.child_name == *account
    }

    /// Whether the subscription goes by the identity `id`.
    pub fn has_id(&self, id: &String) -> (b: bool)
        ensures
            b == (self@.id == id@),
    {
        self.id == *id
    }

    /// Puts `msg` on the subscriber's queue without waiting for room. A
    /// full queue or a closed one loses the message and says so.
    pub fn send_message(&self, msg: WebSocketMsg) -> (r: Result<(), DeliveryError>) {
        return try_send(&self.send_channel, msg);
    }

    /// The text of [`ActiveWebsocket::get_log_prefix`].
    pub open spec fn log_prefix(self) -> Seq<char> {
        "["@ + self@.id + "::"@ + self@.child_name + "]"@
    }

    /// What a log line about this subscription starts with.
    pub fn get_log_prefix(&self) -> (prefix: String)
        ensures
            prefix@ == self.log_prefix(),
    {
        let mut prefix = String::from_str("[");
        prefix.append(self.id.as_str());
        prefix.append("::");
        prefix.append(self.child_name.as_str());
        prefix.append("]");
        return prefix;
    }
}

} // verus!
