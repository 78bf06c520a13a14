//! The status of a session: the single indicator of its health.

use vstd::prelude::*;

verus! {

/// The health of a session. `Connecting` and `Connect` are the live values;
/// the other three are terminal.
#[derive(Debug)]
pub enum WebSocketStatus {
    /// The handshake is in flight.
    Connecting,
    /// The handshake succeeded and both loops may run.
    Connect,
    /// The caller asked for shutdown.
    Disconnect,
    /// The handshake failed, with the reason.
    ConnectError(String),
    /// A write to the network failed, with the reason.
    SendError(String),
}

/// A status as a mathematical value: each reason is a sequence of characters.
pub enum StatusView {
    Connecting,
    Connect,
    Disconnect,
    ConnectError(Seq<char>),
    SendError(Seq<char>),
}

impl StatusView {
    /// A terminal status is any but `Connecting` and `Connect`.
    pub open spec fn is_terminal(self) -> bool {
        !(self is Connecting) && !(self is Connect)
    }

    /// The transitions that move forward: from `Connecting` to `Connect` or
    /// to a failed handshake, from `Connect` to a failed write, and from either
    /// live value to `Disconnect`. Nothing leaves a terminal value.
    pub open spec fn can_move_to(self, next: StatusView) -> bool {
        match self {
            StatusView::Connecting => next is Connect || next is ConnectError || next is Disconnect,
            StatusView::Connect => next is SendError || next is Disconnect,
            _ => false,
        }
    }
}

impl View for WebSocketStatus {
    type V = StatusView;

    open spec fn view(&self) -> StatusView {
        match *self {
            WebSocketStatus::Connecting => StatusView::Connecting,
            WebSocketStatus::Connect => StatusView::Connect,
            WebSocketStatus::Disconnect => StatusView::Disconnect,
            WebSocketStatus::ConnectError(reason) => StatusView::ConnectError(reason@),
            WebSocketStatus::SendError(reason) => StatusView::SendError(reason@),
        }
    }
}

impl Clone for WebSocketStatus {
    fn clone(&self) -> (copy: Self)
        ensures
            copy@ == self@,
    {
        match self {
            WebSocketStatus::Connecting => WebSocketStatus::Connecting,
            WebSocketStatus::Connect => WebSocketStatus::Connect,
            WebSocketStatus::Disconnect => WebSocketStatus::Disconnect,
            WebSocketStatus::ConnectError(reason) => WebSocketStatus::ConnectError(reason.clone()),
            WebSocketStatus::SendError(reason) => WebSocketStatus::SendError(reason.clone()),
        }
    }
}

impl PartialEq for WebSocketStatus {
    fn eq(&self, other: &Self) -> (same: bool) {
        match self {
            WebSocketStatus::Connecting => matches!(other, WebSocketStatus::Connecting),
            WebSocketStatus::Connect => matches!(other, WebSocketStatus::Connect),
            WebSocketStatus::Disconnect => matches!(other, WebSocketStatus::Disconnect),
            WebSocketStatus::ConnectError(a) => match other {
                WebSocketStatus::ConnectError(b) => *a == *b,
                _ => false,
            },
            WebSocketStatus::SendError(a) => match other {
                WebSocketStatus::SendError(b) => *a == *b,
                _ => false,
            },
        }
    }
}

impl vstd::std_specs::cmp::PartialEqSpecImpl for WebSocketStatus {
    open spec fn obeys_eq_spec() -> bool {
        true
    }

    open spec fn eq_spec(&self, other: &Self) -> bool {
        self@ == other@
    }
}

impl Eq for WebSocketStatus {}

impl WebSocketStatus {
    /// Whether the status is `Connect`.
    pub fn is_connect(&self) -> (yes: bool)
        ensures
            yes == (self@ is Connect),
    {
        match self {
            WebSocketStatus::Connect => true,
            _ => false,
        }
    }

    /// Whether the status is terminal: neither `Connecting` nor `Connect`.
    pub fn is_terminal(&self) -> (yes: bool)
        ensures
            yes == self@.is_terminal(),
    {
        match self {
            WebSocketStatus::Connecting => false,
            WebSocketStatus::Connect => false,
            _ => true,
        }
    }
}

} // verus!
