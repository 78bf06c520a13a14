//! The records of a session's history, and the frames they hold.

use tokio_tungstenite::tungstenite::Message;
use vstd::prelude::*;

verus! {

/// A frame of the transport. The session carries frames through and never
/// reads what one holds.
#[verifier::external_type_specification]
#[verifier::external_body]
pub struct ExMessage(Message);

/// `Message::clone`, which `tungstenite` derives: the copy is a frame equal to
/// the one it was made from.
pub assume_specification[ <Message as Clone>::clone ](frame: &Message) -> (copy: Message)
    ensures
        copy == *frame,
;

/// One entry of a session's history: a frame with the time at which it was
/// captured, in milliseconds since the Unix epoch, and its direction.
#[derive(Debug, PartialEq, Eq)]
pub enum WebSocketMessage {
    /// A frame that the caller submitted for writing.
    Send(i64, Message),
    /// A frame that arrived from the network.
    Receive(i64, Message),
}

impl WebSocketMessage {
    /// The frame of the record.
    pub open spec fn frame(self) -> Message {
        match self {
            WebSocketMessage::Send(_, frame) => frame,
            WebSocketMessage::Receive(_, frame) => frame,
        }
    }

    /// The capture time of the record.
    pub open spec fn time(self) -> i64 {
        match self {
            WebSocketMessage::Send(time, _) => time,
            WebSocketMessage::Receive(time, _) => time,
        }
    }

    /// The frame that the record holds.
    pub fn message(&self) -> (frame: &Message)
        ensures
            *frame == self.frame(),
    {
        match self {
            WebSocketMessage::Send(_, frame) => frame,
            WebSocketMessage::Receive(_, frame) => frame,
        }
    }

    /// The time at which the record was captured.
    pub fn timestamp(&self) -> (time: i64)
        ensures
            time == self.time(),
    {
        match self {
            WebSocketMessage::Send(time, _) => *time,
            WebSocketMessage::Receive(time, _) => *time,
        }
    }

    /// Whether the record is of a frame that arrived from the network.
    pub fn is_receive(&self) -> (yes: bool)
        ensures
            yes == (*self is Receive),
    {
        match self {
            WebSocketMessage::Receive(_, _) => true,
            WebSocketMessage::Send(_, _) => false,
        }
    }
}

impl Clone for WebSocketMessage {
    fn clone(&self) -> (copy: Self)
        ensures
            copy == *self,
    {
        match self {
            WebSocketMessage::Send(time, frame) => WebSocketMessage::Send(*time, frame.clone()),
            WebSocketMessage::Receive(time, frame) => WebSocketMessage::Receive(
                *time,
                frame.clone(),
            ),
        }
    }
}

} // verus!
