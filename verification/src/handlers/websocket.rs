//! The decisions of the two loops that serve one subscriber's connection:
//! the one that forwards queued messages to it, and the one that watches
//! what it sends.

use vstd::prelude::*;
use vstd::string::*;

use crate::model::transaction::Transaction;
use crate::model::websocket_msg::WebSocketMsg;

verus! {

/// What the connection handed to the loop that watches it.
#[derive(Debug, PartialEq)]
pub enum IncomingFrame {
    /// A text message.
    Text(String),
    /// The subscriber closes the connection.
    Close,
    /// Any other message.
    Other,
    /// The connection failed.
    Error,
    /// The connection has ended.
    End,
}

/// What the watching loop does next.
#[derive(Debug, Clone, Copy, PartialEq, Eq, Structural)]
pub enum IncomingAction {
    /// Nothing; it reads on.
    KeepReading,
    /// It puts a close signal on the subscriber's queue and stops.
    SignalCloseAndStop,
}

/// What the forwarding loop does next.
#[derive(Debug, PartialEq)]
pub enum OutgoingAction {
    /// It sends the transaction to the subscriber and waits for more.
    Forward(Transaction),
    /// It sends a close frame to the subscriber and stops.
    SayGoodbyeAndStop,
}

/// What the forwarding loop does with what it took from the queue: a
/// transaction is forwarded; a close signal ends the loop, and so does a
/// queue that nobody can write to any more.
pub fn on_outgoing_message(msg: Option<WebSocketMsg>) -> (action: OutgoingAction)
    ensures
        action == match msg {
            Some(WebSocketMsg::Transaction(transaction)) => OutgoingAction::Forward(transaction),
            Some(WebSocketMsg::CloseSocket()) => OutgoingAction::SayGoodbyeAndStop,
            None => OutgoingAction::SayGoodbyeAndStop,
        },
{
    match msg {
        Some(WebSocketMsg::CloseSocket()) => OutgoingAction::SayGoodbyeAndStop,
        Some(WebSocketMsg::Transaction(t)) => OutgoingAction::Forward(t),
        None => OutgoingAction::SayGoodbyeAndStop,
    }
}

/// What the watching loop does with what the connection handed it: what
/// the subscriber says is ignored; a close, a failure and the end of the
/// connection all unwind the forwarding loop and end this one.
pub fn on_incoming_frame(frame: &IncomingFrame) -> (action: IncomingAction)
    ensures
        action == match *frame {
            IncomingFrame::Text(_) => IncomingAction::KeepReading,
            IncomingFrame::Other => IncomingAction::KeepReading,
            IncomingFrame::Close => IncomingAction::SignalCloseAndStop,
            IncomingFrame::Error => IncomingAction::SignalCloseAndStop,
            IncomingFrame::End => IncomingAction::SignalCloseAndStop,
        },
{
    match frame {
        IncomingFrame::Text(_) => IncomingAction::KeepReading,
        IncomingFrame::Close => IncomingAction::SignalCloseAndStop,
        IncomingFrame::Other => IncomingAction::KeepReading,
        IncomingFrame::Error => IncomingAction::SignalCloseAndStop,
        IncomingFrame::End => IncomingAction::SignalCloseAndStop,
    }
}

/// The reason that a close frame gives.
pub fn goodbye_reason() -> (reason: String)
    ensures
        reason@ == "Goodbye"@,
{
    String::from_str("Goodbye")
}

/// The text of the warning about a message that could not be handed on.
pub open spec fn failure_warning(
    log_prefix: Seq<char>,
    msg_type: Seq<char>,
    channel_name: Seq<char>,
    error: Seq<char>,
) -> Seq<char> {
    log_prefix + " Failed to add "@ + msg_type + " message to "@ + channel_name + " channel: "@
        + error
}

/// The warning to log about `result`: none if it is a success, and else
/// one that names the kind of message, the channel and the error.
pub fn log_on_error(
    log_prefix: &str,
    msg_type: &str,
    channel_name: &str,
    result: &Result<(), String>,
) -> (warning: Option<String>)
    ensures
        match *result {
            Ok(()) => warning is None,
            Err(error) => warning matches Some(line) && line@ == failure_warning(
                log_prefix@,
                msg_type@,
                channel_name@,
                error@,
            ),
        },
{
    match result {
        Ok(()) => None,
        Err(e) => {
            let mut line = String::from_str(log_prefix);
            line.append(" Failed to add ");
            line.append(msg_type);
            line.append(" message to ");
            line.append(channel_name);
            line.append(" channel: ");
            line.append(e.as_str());
            Some(line)
        },
    }
}

} // verus!
