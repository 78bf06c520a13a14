//! What holds of every session, whatever sequence of events reaches it.

use crate::events::{arrivals, dispatches, frames, received, sent, submissions, Event};
use crate::message::WebSocketMessage;
use crate::session::SessionView;
use crate::status::StatusView;
use tokio_tungstenite::tungstenite::Message;
use url::Url;
use vstd::prelude::*;

verus! {

/// Running two traces one after the other is running their concatenation,
/// and what is written, queued and recorded adds up accordingly.
pub proof fn run_is_compositional(s: SessionView, first: Seq<Event>, second: Seq<Event>)
    ensures
        s.run(first + second) == s.run(first).run(second),
        s.written(first + second) == s.written(first) + s.run(first).written(second),
        s.taken(first + second) == s.taken(first) + s.run(first).taken(second),
        s.appended(first + second) == s.appended(first) + s.run(first).appended(second),
    decreases second.len(),
{
    if second.len() > 0 {
        run_is_compositional(s, first, second.drop_last());
        assert((first + second).drop_last() =~= first + second.drop_last());
    }
}

/// A single event leaves the status as it is or moves it forward; it never
/// leaves a terminal status.
pub proof fn step_moves_forward(s: SessionView, event: Event)
    ensures
        s.step(event).status == s.status || s.status.can_move_to(s.step(event).status),
        s.status.is_terminal() ==> s.step(event) == s,
{
}

/// A session whose status is terminal stays exactly as it is under every
/// sequence of events: its status, history and queue do not change, nothing
/// is written to the network, nothing is queued and nothing is recorded.
pub proof fn terminal_session_is_still(s: SessionView, trace: Seq<Event>)
    requires
        s.status.is_terminal(),
    ensures
        s.run(trace) == s,
        s.written(trace) == Seq::<Message>::empty(),
        s.taken(trace) == Seq::<Message>::empty(),
        s.appended(trace) == Seq::<WebSocketMessage>::empty(),
    decreases trace.len(),
{
    if trace.len() > 0 {
        terminal_session_is_still(s, trace.drop_last());
        step_moves_forward(s, trace.last());
    }
}

/// Forward-only status: once the status read after `i` events of a trace is
/// terminal, the status read after any `j >= i` events is that same value,
/// and so never again `Connecting` or `Connect`.
pub proof fn status_never_returns(s: SessionView, trace: Seq<Event>, i: int, j: int)
    requires
        0 <= i <= j <= trace.len(),
        s.run(trace.take(i)).status.is_terminal(),
    ensures
        s.run(trace.take(j)).status == s.run(trace.take(i)).status,
        !(s.run(trace.take(j)).status is Connecting),
        !(s.run(trace.take(j)).status is Connect),
{
    let head = trace.take(i);
    let rest = trace.subrange(i, j);
    assert(trace.take(j) =~= head + rest);
    run_is_compositional(s, head, rest);
    terminal_session_is_still(s.run(head), rest);
}

/// A session that is connected before and after a trace was connected after
/// every prefix of it.
pub proof fn connected_throughout(s: SessionView, trace: Seq<Event>, k: int)
    requires
        s.run(trace).status is Connect,
        0 <= k <= trace.len(),
    ensures
        !s.run(trace.take(k)).status.is_terminal(),
        s.status is Connect ==> s.run(trace.take(k)).status is Connect,
    decreases k,
{
    if s.run(trace.take(k)).status.is_terminal() {
        assert(trace.take(trace.len() as int) =~= trace);
        status_never_returns(s, trace, k, trace.len() as int);
    }
    if s.status is Connect && k > 0 {
        connected_throughout(s, trace, k - 1);
        let before = s.run(trace.take(k - 1));
        assert(trace.take(k).drop_last() =~= trace.take(k - 1));
        step_moves_forward(before, trace[k - 1]);
    }
}

/// The history is append-only: after any trace it is the history before,
/// followed by the records that the events of the trace made, in their order.
pub proof fn history_is_append_only(s: SessionView, trace: Seq<Event>)
    ensures
        s.run(trace).history == s.history + s.appended(trace),
        s.history.is_prefix_of(s.run(trace).history),
    decreases trace.len(),
{
    if trace.len() > 0 {
        history_is_append_only(s, trace.drop_last());
    }
}

/// Each direction keeps its order: the received records of the history after
/// a trace are those before it followed by the received records that the
/// trace made, and the same holds of the sent records. Records of the other
/// direction may stand between them but never reorder them.
pub proof fn directions_keep_their_order(s: SessionView, trace: Seq<Event>)
    ensures
        received(s.run(trace).history) == received(s.history) + received(s.appended(trace)),
        sent(s.run(trace).history) == sent(s.history) + sent(s.appended(trace)),
{
    history_is_append_only(s, trace);
    Seq::filter_distributes_over_add(
        s.history,
        s.appended(trace),
        |record: WebSocketMessage| record is Receive,
    );
    Seq::filter_distributes_over_add(
        s.history,
        s.appended(trace),
        |record: WebSocketMessage| record is Send,
    );
}

/// While a session stays connected, every frame that arrives is recorded,
/// in the order of arrival: the received records that a trace makes are the
/// frames of its arrival events, one for one.
pub proof fn received_frames_keep_arrival_order(s: SessionView, trace: Seq<Event>)
    requires
        s.status is Connect,
        s.run(trace).status is Connect,
    ensures
        received(s.appended(trace)) == arrivals(trace),
        received(s.run(trace).history) == received(s.history) + arrivals(trace),
    decreases trace.len(),
{
    let keep = |record: WebSocketMessage| record is Receive;
    if trace.len() == 0 {
        assert(Seq::<WebSocketMessage>::empty().filter(keep) =~= Seq::empty()) by {
            reveal(Seq::filter);
        }
    } else {
        let init = trace.drop_last();
        connected_throughout(s, trace, trace.len() - 1);
        received_frames_keep_arrival_order(s, init);
        let made = s.run(init).records(trace.last());
        Seq::filter_distributes_over_add(s.appended(init), made, keep);
        assert(made.filter(keep) =~= match trace.last() {
            Event::Arrived(time, frame) => seq![WebSocketMessage::Receive(time, frame)],
            _ => Seq::empty(),
        }) by {
            reveal(Seq::filter);
            if made.len() == 1 {
                assert(made.drop_last().filter(keep) =~= Seq::empty());
            }
        }
    }
    directions_keep_their_order(s, trace);
}

/// The queue is first in, first out: over any trace, the frames written to
/// the network are a prefix of what was queued at the start followed by the
/// accepted submissions, in their order; and while the session is live, the
/// frames written followed by the frames still queued are exactly those.
pub proof fn queue_is_fifo(s: SessionView, trace: Seq<Event>)
    ensures
        s.written(trace).is_prefix_of(s.outbox + s.taken(trace)),
        !s.run(trace).status.is_terminal() ==> s.written(trace) + s.run(trace).outbox
            == s.outbox + s.taken(trace),
    decreases trace.len(),
{
    if trace.len() > 0 {
        let init = trace.drop_last();
        let before = s.run(init);
        let event = trace.last();
        queue_is_fifo(s, init);
        step_moves_forward(before, event);
        if !before.status.is_terminal() && !before.step(event).status.is_terminal() {
            let took = s.taken(init);
            assert((s.outbox + took) + before.takes(event) =~= s.outbox + (took + before.takes(
                event,
            )));
        }
    }
}

/// Submissions to a live session queue up in their order: the status is
/// untouched, the frames join the end of the queue one after the other, a
/// sent record is made for each, and nothing is written yet.
pub proof fn submissions_queue_in_order(s: SessionView, batch: Seq<(i64, Message)>)
    requires
        s.accepts(),
    ensures
        s.run(submissions(batch)).status == s.status,
        s.run(submissions(batch)).outbox == s.outbox + frames(batch),
        s.taken(submissions(batch)) == frames(batch),
        s.written(submissions(batch)) == Seq::<Message>::empty(),
        s.appended(submissions(batch)).len() == batch.len(),
    decreases batch.len(),
{
    if batch.len() > 0 {
        let init = batch.drop_last();
        submissions_queue_in_order(s, init);
        assert(submissions(batch).drop_last() =~= submissions(init));
    }
}

/// On a connected session the dispatch loop takes the queue from its head:
/// asking `n` times hands out the first `n` queued frames in their order and
/// leaves the rest queued, with nothing else changed.
pub proof fn dispatch_drains_in_order(s: SessionView, n: nat)
    requires
        s.status is Connect,
        n <= s.outbox.len(),
    ensures
        s.written(dispatches(n)) == s.outbox.take(n as int),
        s.run(dispatches(n)) == (SessionView { outbox: s.outbox.skip(n as int), ..s }),
    decreases n,
{
    if n == 0 {
        assert(s.outbox.skip(0) =~= s.outbox);
    } else {
        let m = (n - 1) as nat;
        dispatch_drains_in_order(s, m);
        assert(dispatches(n).drop_last() =~= dispatches(m));
        assert(s.run(dispatches(m)).outbox.drop_first() =~= s.outbox.skip(n as int));
    }
}

/// Frames submitted while the handshake is in flight are all written, in
/// the order of submission, once the session is connected: after the
/// submissions the queue holds exactly their frames, and when the handshake
/// succeeds and the dispatch loop asks once per frame, the frames written are
/// those, in that order, and the queue is empty.
pub proof fn early_sends_are_written_in_order(url: Url, batch: Seq<(i64, Message)>)
    ensures
        ({
            let queued = SessionView::fresh(url).run(submissions(batch));
            let drain = seq![Event::Opened] + dispatches(batch.len());
            &&& queued.status is Connecting
            &&& queued.outbox == frames(batch)
            &&& queued.written(drain) == frames(batch)
            &&& queued.run(drain).status is Connect
            &&& queued.run(drain).outbox == Seq::<Message>::empty()
        }),
{
    let fresh = SessionView::fresh(url);
    submissions_queue_in_order(fresh, batch);
    let queued = fresh.run(submissions(batch));
    let open = seq![Event::Opened];
    assert(queued.run(open.drop_last()) == queued);
    assert(queued.written(open.drop_last()) == Seq::<Message>::empty());
    let n = batch.len();
    run_is_compositional(queued, open, dispatches(n));
    dispatch_drains_in_order(queued.opened(), n);
}

/// Frames submitted while the handshake is in flight are discarded together
/// when it fails: the queue is empty at once, and whatever events follow,
/// nothing is ever written and the session stays as the failure left it.
pub proof fn early_sends_are_discarded_together(
    url: Url,
    batch: Seq<(i64, Message)>,
    reason: Seq<char>,
    later: Seq<Event>,
)
    ensures
        ({
            let queued = SessionView::fresh(url).run(submissions(batch));
            let failed = queued.step(Event::Refused(reason));
            &&& failed.status == StatusView::ConnectError(reason)
            &&& failed.outbox == Seq::<Message>::empty()
            &&& failed.written(later) == Seq::<Message>::empty()
            &&& failed.run(later) == failed
        }),
{
    let fresh = SessionView::fresh(url);
    submissions_queue_in_order(fresh, batch);
    let failed = fresh.run(submissions(batch)).step(Event::Refused(reason));
    terminal_session_is_still(failed, later);
}

} // verus!
