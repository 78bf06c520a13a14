//! Opening a session.

use crate::session::{SessionView, WebSocketSession};
use url::Url;
use vstd::prelude::*;

verus! {

/// The entry point from which sessions are opened.
#[derive(Default, PartialEq, Eq, Debug)]
pub struct WebSocketSender {}

impl Clone for WebSocketSender {
    fn clone(&self) -> (copy: Self) {
        WebSocketSender {}
    }
}

impl WebSocketSender {
    /// Opens a session for `url` and hands it out at once: its status is
    /// `Connecting`, nothing is recorded and nothing is queued. The handshake
    /// itself is for whoever runs the network, who reports its outcome with
    /// `connect_finished`.
    pub fn connect(url: Url) -> (session: WebSocketSession)
        ensures
            session@ == SessionView::fresh(url),
    {
        WebSocketSession::new(url)
    }
}

} // verus!
