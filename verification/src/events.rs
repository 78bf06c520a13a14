//! Sessions over time: the events that reach a session and what a sequence
//! of them leaves behind.

use crate::message::WebSocketMessage;
use crate::session::SessionView;
use tokio_tungstenite::tungstenite::Message;
use vstd::prelude::*;

verus! {

/// One atomic step on a session, named by the operation that takes it.
pub enum Event {
    /// `send_message_at` with this time and frame.
    Submit(i64, Message),
    /// `disconnect`.
    Disconnect,
    /// `connect_finished` with success.
    Opened,
    /// `connect_finished` with this reason for failure.
    Refused(Seq<char>),
    /// `receive_at` with this time and frame.
    Arrived(i64, Message),
    /// `next_outbound`.
    Dispatch,
    /// `write_failed` with this reason.
    WriteFailed(Seq<char>),
}

impl SessionView {
    /// The session after one event.
    pub open spec fn step(self, event: Event) -> SessionView {
        match event {
            Event::Submit(time, frame) => self.submitted(time, frame),
            Event::Disconnect => self.disconnected(),
            Event::Opened => self.opened(),
            Event::Refused(reason) => self.refused(reason),
            Event::Arrived(time, frame) => self.arrived(time, frame),
            Event::Dispatch => self.dispatched(),
            Event::WriteFailed(reason) => self.write_failed(reason),
        }
    }

    /// The session after the events of `trace`, taken in order.
    pub open spec fn run(self, trace: Seq<Event>) -> SessionView
        decreases trace.len(),
    {
        if trace.len() == 0 {
            self
        } else {
            self.run(trace.drop_last()).step(trace.last())
        }
    }

    /// The frames that one event hands to the network: the head of the queue
    /// when the dispatch loop asks on a connected session with something
    /// queued, and nothing otherwise.
    pub open spec fn writes(self, event: Event) -> Seq<Message> {
        if event is Dispatch && self.next_outbound() is Write {
            seq![self.outbox.first()]
        } else {
            Seq::empty()
        }
    }

    /// The frames that one event puts into the queue: the frame of a
    /// submission that the session accepts, and nothing otherwise.
    pub open spec fn takes(self, event: Event) -> Seq<Message> {
        match event {
            Event::Submit(_, frame) if self.accepts() => seq![frame],
            _ => Seq::empty(),
        }
    }

    /// The records that one event appends to the history: a sent record for
    /// an accepted submission, a received record for a frame that arrives on a
    /// connected session, and nothing otherwise.
    pub open spec fn records(self, event: Event) -> Seq<WebSocketMessage> {
        match event {
            Event::Submit(time, frame) if self.accepts() => seq![
                WebSocketMessage::Send(time, frame),
            ],
            Event::Arrived(time, frame) if self.status is Connect => seq![
                WebSocketMessage::Receive(time, frame),
            ],
            _ => Seq::empty(),
        }
    }

    /// All frames handed to the network over `trace`, in the order of the
    /// writes.
    pub open spec fn written(self, trace: Seq<Event>) -> Seq<Message>
        decreases trace.len(),
    {
        if trace.len() == 0 {
            Seq::empty()
        } else {
            self.written(trace.drop_last()) + self.run(trace.drop_last()).writes(trace.last())
        }
    }

    /// All frames put into the queue over `trace`, in the order of the
    /// submissions.
    pub open spec fn taken(self, trace: Seq<Event>) -> Seq<Message>
        decreases trace.len(),
    {
        if trace.len() == 0 {
            Seq::empty()
        } else {
            self.taken(trace.drop_last()) + self.run(trace.drop_last()).takes(trace.last())
        }
    }

    /// All records appended over `trace`, in the order of the events that
    /// made them.
    pub open spec fn appended(self, trace: Seq<Event>) -> Seq<WebSocketMessage>
        decreases trace.len(),
    {
        if trace.len() == 0 {
            Seq::empty()
        } else {
            self.appended(trace.drop_last()) + self.run(trace.drop_last()).records(trace.last())
        }
    }
}

/// The received records of a history, in their order.
pub open spec fn received(history: Seq<WebSocketMessage>) -> Seq<WebSocketMessage> {
    history.filter(|record: WebSocketMessage| record is Receive)
}

/// The sent records of a history, in their order.
pub open spec fn sent(history: Seq<WebSocketMessage>) -> Seq<WebSocketMessage> {
    history.filter(|record: WebSocketMessage| record is Send)
}

/// The received records that the arrival events of `trace` stand for, in
/// the order of the events, whatever the session does with them.
pub open spec fn arrivals(trace: Seq<Event>) -> Seq<WebSocketMessage>
    decreases trace.len(),
{
    if trace.len() == 0 {
        Seq::empty()
    } else {
        arrivals(trace.drop_last()) + match trace.last() {
            Event::Arrived(time, frame) => seq![WebSocketMessage::Receive(time, frame)],
            _ => Seq::empty(),
        }
    }
}

/// The submissions of `batch` as events, in order: each pair is a capture
/// time and a frame.
pub open spec fn submissions(batch: Seq<(i64, Message)>) -> Seq<Event> {
    Seq::new(batch.len(), |i: int| Event::Submit(batch[i].0, batch[i].1))
}

/// The frames of `batch`, in order.
pub open spec fn frames(batch: Seq<(i64, Message)>) -> Seq<Message> {
    Seq::new(batch.len(), |i: int| batch[i].1)
}

/// The dispatch loop asking `n` times in a row.
pub open spec fn dispatches(n: nat) -> Seq<Event> {
    Seq::new(n, |i: int| Event::Dispatch)
}

} // verus!
