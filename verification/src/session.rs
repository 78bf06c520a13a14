//! The record of one session and the atomic steps taken on it.
//!
//! A session holds its status, the append-only history of the frames it
//! exchanged, the address it was opened for and the queue of frames that wait
//! to be written. Each method is one step: the caller's operations, and the
//! decisions of the lifecycle controller, the receive loop and the dispatch
//! loop. The loops themselves only perform what a step hands back.

use crate::clock::now_millis;
use crate::message::WebSocketMessage;
use crate::status::{StatusView, WebSocketStatus};
use std::collections::VecDeque;
use tokio_tungstenite::tungstenite::Message;
use url::Url;
use vstd::prelude::*;

verus! {

/// The address of the remote end. The session keeps it and never reads it.
#[verifier::external_type_specification]
#[verifier::external_body]
pub struct ExUrl(Url);

/// A session as a mathematical value.
pub struct SessionView {
    /// The current status.
    pub status: StatusView,
    /// The records appended so far, oldest first.
    pub history: Seq<WebSocketMessage>,
    /// The frames that wait to be written, next first.
    pub outbox: Seq<Message>,
    /// The address the session was opened for.
    pub url: Url,
}

/// What the dispatch loop does next.
#[derive(Debug, PartialEq, Eq)]
pub enum Outbound {
    /// The session is not connected: leave the loop.
    Stop,
    /// Connected with nothing queued: wait for a submission, then ask again.
    Wait,
    /// Write this frame to the network, then ask again.
    Write(Message),
}

impl SessionView {
    /// The session that `connect` hands out: connecting, with nothing
    /// recorded and nothing queued.
    pub open spec fn fresh(url: Url) -> SessionView {
        SessionView {
            status: StatusView::Connecting,
            history: Seq::empty(),
            outbox: Seq::empty(),
            url,
        }
    }

    /// The session with its status overwritten.
    pub open spec fn with_status(self, status: StatusView) -> SessionView {
        SessionView { status, ..self }
    }

    /// The session with one more record at the end of its history.
    pub open spec fn recorded(self, record: WebSocketMessage) -> SessionView {
        SessionView { history: self.history.push(record), ..self }
    }

    /// The session brought to a terminal status: whatever was queued is
    /// discarded together.
    pub open spec fn ended(self, status: StatusView) -> SessionView {
        SessionView { status, outbox: Seq::empty(), ..self }
    }

    /// Whether a submission is taken: exactly while the status is live.
    pub open spec fn accepts(self) -> bool {
        !self.status.is_terminal()
    }

    /// A submission at `time`. On a live session the frame is recorded as
    /// sent and joins the end of the queue; on a terminal one nothing changes.
    pub open spec fn submitted(self, time: i64, frame: Message) -> SessionView {
        if self.accepts() {
            SessionView {
                history: self.history.push(WebSocketMessage::Send(time, frame)),
                outbox: self.outbox.push(frame),
                ..self
            }
        } else {
            self
        }
    }

    /// A request for shutdown. A live session ends as `Disconnect`; a
    /// terminal one keeps the status it ended with.
    pub open spec fn disconnected(self) -> SessionView {
        if self.status.is_terminal() {
            self
        } else {
            self.ended(StatusView::Disconnect)
        }
    }

    /// The handshake succeeded. Only a connecting session becomes connected.
    pub open spec fn opened(self) -> SessionView {
        if self.status is Connecting {
            self.with_status(StatusView::Connect)
        } else {
            self
        }
    }

    /// The handshake failed for `reason`. Only a connecting session takes
    /// the failure; what it had queued is discarded.
    pub open spec fn refused(self, reason: Seq<char>) -> SessionView {
        if self.status is Connecting {
            self.ended(StatusView::ConnectError(reason))
        } else {
            self
        }
    }

    /// A frame arrived at `time`. A connected session records it as
    /// received; any other leaves it unrecorded.
    pub open spec fn arrived(self, time: i64, frame: Message) -> SessionView {
        if self.status is Connect {
            self.recorded(WebSocketMessage::Receive(time, frame))
        } else {
            self
        }
    }

    /// What the dispatch loop is told when it asks.
    pub open spec fn next_outbound(self) -> Outbound {
        if !(self.status is Connect) {
            Outbound::Stop
        } else if self.outbox.len() == 0 {
            Outbound::Wait
        } else {
            Outbound::Write(self.outbox.first())
        }
    }

    /// The session after the dispatch loop asked: the frame it was told to
    /// write has left the queue, and nothing else changed.
    pub open spec fn dispatched(self) -> SessionView {
        if self.status is Connect && self.outbox.len() > 0 {
            SessionView { outbox: self.outbox.drop_first(), ..self }
        } else {
            self
        }
    }

    /// A write to the network failed for `reason`. Only a connected session
    /// takes the failure; what it still had queued is abandoned.
    pub open spec fn write_failed(self, reason: Seq<char>) -> SessionView {
        if self.status is Connect {
            self.ended(StatusView::SendError(reason))
        } else {
            self
        }
    }
}

/// One session: status, history, address and outbound queue.
#[derive(Debug)]
pub struct WebSocketSession {
    status: WebSocketStatus,
    messages: Vec<WebSocketMessage>,
    url: Url,
    outbox: VecDeque<Message>,
}

impl View for WebSocketSession {
    type V = SessionView;

    closed spec fn view(&self) -> SessionView {
        SessionView {
            status: self.status@,
            history: self.messages@,
            outbox: self.outbox@,
            url: self.url,
        }
    }
}

impl WebSocketSession {
    /// A session for `url` in the state in which `connect` hands it out.
    pub(crate) fn new(url: Url) -> (session: WebSocketSession)
        ensures
            session@ == SessionView::fresh(url),
    {
        WebSocketSession {
            status: WebSocketStatus::Connecting,
            messages: Vec::new(),
            url,
            outbox: VecDeque::new(),
        }
    }

    /// The current status.
    pub fn get_status(&self) -> (status: WebSocketStatus)
        ensures
            status@ == self@.status,
    {
        self.status.clone()
    }

    /// Overwrites the status, whatever it was. Nothing else changes. Keeping
    /// to forward moves is left to the caller.
    pub fn set_status(&mut self, status: WebSocketStatus)
        ensures
            final(self)@ == old(self)@.with_status(status@),
    {
        self.status = status;
    }

    /// Appends `record` to the history. Nothing else changes.
    pub fn add_message(&mut self, record: WebSocketMessage)
        ensures
            final(self)@ == old(self)@.recorded(record),
    {
        self.messages.push(record);
    }

    /// A snapshot of the history, oldest record first.
    pub fn history(&self) -> (snapshot: Vec<WebSocketMessage>)
        ensures
            snapshot@ == self@.history,
    {
        let mut snapshot: Vec<WebSocketMessage> = Vec::new();
        let mut i: usize = 0;
        while i < self.messages.len()
            invariant
                i <= self.messages.len(),
                snapshot@ == self.messages@.take(i as int),
            decreases self.messages.len() - i,
        {
            snapshot.push(self.messages[i].clone());
            i += 1;
        }
        snapshot
    }

    /// The address the session was opened for.
    pub fn url(&self) -> (url: &Url)
        ensures
            *url == self@.url,
    {
        &self.url
    }

    /// How many frames wait to be written.
    pub fn queued(&self) -> (n: usize)
        ensures
            n == self@.outbox.len(),
    {
        self.outbox.len()
    }

    /// Submits `frame` for writing, as captured at `time`. A live session
    /// records it as sent and queues it behind what already waits, and the
    /// result is `true`; a terminal session is left as it is, with `false`.
    pub fn send_message_at(&mut self, time: i64, frame: Message) -> (accepted: bool)
        ensures
            accepted == old(self)@.accepts(),
            final(self)@ == old(self)@.submitted(time, frame),
    {
        if self.status.is_terminal() {
            return false;
        }
        self.messages.push(WebSocketMessage::Send(time, frame.clone()));
        self.outbox.push_back(frame);
        true
    }

    /// Submits `frame` for writing, captured at the time the clock gives.
    /// The outcome is that of `send_message_at` for that time.
    pub fn send_message(&mut self, frame: Message) -> (accepted: bool)
        ensures
            accepted == old(self)@.accepts(),
            exists|time: i64| final(self)@ == old(self)@.submitted(time, frame),
    {
        let time = now_millis();
        self.send_message_at(time, frame)
    }

    /// Requests shutdown. A live session becomes `Disconnect` and drops what
    /// it had queued; a terminal one keeps its status.
    pub fn disconnect(&mut self)
        ensures
            final(self)@ == old(self)@.disconnected(),
    {
        if !self.status.is_terminal() {
            self.status = WebSocketStatus::Disconnect;
            self.outbox.clear();
        }
    }

    /// Takes the outcome of the handshake: `Ok` on success, the reason on
    /// failure. The result says whether the two loops are to be started, which
    /// is exactly when a connecting session has just become connected.
    pub fn connect_finished(&mut self, outcome: Result<(), String>) -> (start: bool)
        ensures
            final(self)@ == match outcome {
                Ok(_) => old(self)@.opened(),
                Err(reason) => old(self)@.refused(reason@),
            },
            start == (old(self)@.status is Connecting && outcome is Ok),
    {
        match self.status {
            WebSocketStatus::Connecting => {},
            _ => {
                return false;
            },
        }
        match outcome {
            Ok(_) => {
                self.status = WebSocketStatus::Connect;
                true
            },
            Err(reason) => {
                self.status = WebSocketStatus::ConnectError(reason);
                self.outbox.clear();
                false
            },
        }
    }

    /// Takes a frame that arrived at `time`. A connected session records it
    /// and the receive loop goes on (`true`); otherwise the frame is left
    /// unrecorded and the loop is to stop (`false`).
    pub fn receive_at(&mut self, time: i64, frame: Message) -> (go_on: bool)
        ensures
            go_on == (old(self)@.status is Connect),
            final(self)@ == old(self)@.arrived(time, frame),
    {
        if !self.status.is_connect() {
            return false;
        }
        self.messages.push(WebSocketMessage::Receive(time, frame));
        true
    }

    /// Takes a frame that arrived now, captured at the time the clock gives.
    /// The outcome is that of `receive_at` for that time.
    pub fn receive(&mut self, frame: Message) -> (go_on: bool)
        ensures
            go_on == (old(self)@.status is Connect),
            exists|time: i64| final(self)@ == old(self)@.arrived(time, frame),
    {
        let time = now_millis();
        self.receive_at(time, frame)
    }

    /// Tells the dispatch loop what to do next. While connected, the frame
    /// at the head of the queue leaves it and is handed out for writing, or
    /// the loop is told to wait if nothing is queued. Otherwise the loop is
    /// told to stop and the queue is not touched.
    pub fn next_outbound(&mut self) -> (step: Outbound)
        ensures
            step == old(self)@.next_outbound(),
            final(self)@ == old(self)@.dispatched(),
    {
        if !self.status.is_connect() {
            return Outbound::Stop;
        }
        match self.outbox.pop_front() {
            Some(frame) => Outbound::Write(frame),
            None => Outbound::Wait,
        }
    }

    /// Takes the failure of a write, with its reason. A connected session
    /// becomes `SendError(reason)` and abandons what it still had queued; any
    /// other is left as it is. The dispatch loop stops either way.
    pub fn write_failed(&mut self, reason: String)
        ensures
            final(self)@ == old(self)@.write_failed(reason@),
    {
        if self.status.is_connect() {
            self.status = WebSocketStatus::SendError(reason);
            self.outbox.clear();
        }
    }
}

} // verus!
