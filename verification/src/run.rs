//! The decisions of the realtime client's receive loop.
//!
//! The loop alternates between two duties: writing out the messages that
//! senders have queued, and reading the frames that Slack sends. The program
//! that owns the socket and the queue performs each [`RunAction`] and reports
//! what came of it as a [`RunEvent`]; [`step`] decides what to do next.
use vstd::prelude::*;

use crate::client::WsMessage;
use crate::error::Error;

verus! {

/// A frame read from the websocket.
#[derive(Debug)]
pub enum Frame {
    Text(String),
    Binary,
    Ping,
    Pong,
    Close,
}

/// Where the loop stands.
#[derive(Debug, PartialEq, Eq, Structural)]
pub enum RunState {
    /// Taking the next message that senders queued.
    Polling,
    /// Writing a queued message on the socket.
    Writing,
    /// Waiting for a frame from Slack.
    Reading,
    /// Writing a ping after a failed read.
    Pinging,
    /// The handler is taking an event.
    Handling,
    /// The loop has ended.
    Stopped,
}

/// What came of the last action.
#[derive(Debug)]
pub enum RunEvent {
    /// The queue gave a message.
    Outgoing(WsMessage),
    /// The queue holds no message.
    QueueEmpty,
    /// Every sender is gone.
    QueueDisconnected,
    /// The socket took the frame.
    Written,
    /// The socket refused the frame, for the reason given.
    WriteFailed(String),
    /// Reading from the socket failed (it timed out or the connection broke).
    ReadFailed,
    /// A frame arrived.
    Received(Frame),
    /// The handler returned.
    Handled,
}

/// What the loop does next.
#[derive(Debug)]
pub enum RunAction {
    /// Take the next queued message, without waiting.
    PollQueue,
    /// Write this text frame.
    WriteText(String),
    /// Tell the handler that the connection closes, close the socket and end
    /// with the outcome of closing it.
    CloseSocket,
    /// Tell the handler that the connection closes and end with this error.
    Fail(Error),
    /// End with this error.
    Abort(Error),
    /// Wait for the next frame.
    ReadFrame,
    /// Write a ping frame, to learn whether the connection still lives.
    WritePing,
    /// Read an event out of this text and hand it to the handler.
    HandleEvent(String),
}

/// The state and action with which the loop begins, once the handler has
/// been told that the connection is open.
pub fn start() -> (r: (RunState, RunAction))
    ensures
        r.0 == RunState::Polling,
        r.1 is PollQueue,
{
    (RunState::Polling, RunAction::PollQueue)
}

/// `event` is an outcome of the action that leads to `state`.
pub open spec fn expects(state: RunState, event: RunEvent) -> bool {
    match state {
        RunState::Polling => event is Outgoing || event is QueueEmpty || event is QueueDisconnected,
        RunState::Writing => event is Written || event is WriteFailed,
        RunState::Pinging => event is Written || event is WriteFailed,
        RunState::Reading => event is ReadFailed || event is Received,
        RunState::Handling => event is Handled,
        RunState::Stopped => false,
    }
}

/// Whether `event` is an outcome of the action that leads to `state`.
pub fn fits(state: &RunState, event: &RunEvent) -> (b: bool)
    ensures
        b == expects(*state, *event),
{
    match state {
        RunState::Polling => match event {
            RunEvent::Outgoing(_) | RunEvent::QueueEmpty | RunEvent::QueueDisconnected => true,
            _ => false,
        },
        RunState::Writing | RunState::Pinging => match event {
            RunEvent::Written | RunEvent::WriteFailed(_) => true,
            _ => false,
        },
        RunState::Reading => match event {
            RunEvent::ReadFailed | RunEvent::Received(_) => true,
            _ => false,
        },
        RunState::Handling => match event {
            RunEvent::Handled => true,
            _ => false,
        },
        RunState::Stopped => false,
    }
}

/// `r` is what the loop does after `event`: the state it moves to and the
/// action it takes.
///
/// Queued messages are written one by one until the queue is empty; a queued
/// `Close` ends the loop through the handler's `on_close`, and so does a queue
/// whose senders are all gone, with an error. Then one frame is read: a text
/// frame goes to the handler as an event, other frames are passed over, and a
/// failed read is answered with a ping. After each of these the queue is
/// polled again. A frame that the socket refuses ends the loop with its error.
pub open spec fn decided(event: RunEvent, r: (RunState, RunAction)) -> bool {
    match event {
        RunEvent::Outgoing(WsMessage::Text(t)) => r.0 == RunState::Writing && r.1 == RunAction::WriteText(t),
        RunEvent::Outgoing(WsMessage::Close) => r.0 == RunState::Stopped && r.1 is CloseSocket,
        RunEvent::QueueDisconnected => {
            &&& r.0 == RunState::Stopped
            &&& r.1 matches RunAction::Fail(Error::Internal(m))
            &&& m@ == "rx disconnected"@
        },
        RunEvent::QueueEmpty => r.0 == RunState::Reading && r.1 is ReadFrame,
        RunEvent::Written => r.0 == RunState::Polling && r.1 is PollQueue,
        RunEvent::WriteFailed(e) => {
            &&& r.0 == RunState::Stopped
            &&& r.1 matches RunAction::Abort(Error::WebSocket(m))
            &&& m == e
        },
        RunEvent::ReadFailed => r.0 == RunState::Pinging && r.1 is WritePing,
        RunEvent::Received(Frame::Text(t)) => r.0 == RunState::Handling && r.1 == RunAction::HandleEvent(t),
        RunEvent::Received(_) => r.0 == RunState::Polling && r.1 is PollQueue,
        RunEvent::Handled => r.0 == RunState::Polling && r.1 is PollQueue,
    }
}

/// Decides what the loop does after `event`, the outcome of the action that
/// led to `state`.
pub fn step(state: RunState, event: RunEvent) -> (r: (RunState, RunAction))
    requires
        expects(state, event),
    ensures
        decided(event, r),
{
    match event {
        RunEvent::Outgoing(WsMessage::Text(t)) => (RunState::Writing, RunAction::WriteText(t)),
        RunEvent::Outgoing(WsMessage::Close) => (RunState::Stopped, RunAction::CloseSocket),
        RunEvent::QueueDisconnected => (
            RunState::Stopped,
            RunAction::Fail(Error::Internal("rx disconnected".to_owned())),
        ),
        RunEvent::QueueEmpty => (RunState::Reading, RunAction::ReadFrame),
        RunEvent::Written => (RunState::Polling, RunAction::PollQueue),
        RunEvent::WriteFailed(e) => (RunState::Stopped, RunAction::Abort(Error::WebSocket(e))),
        RunEvent::ReadFailed => (RunState::Pinging, RunAction::WritePing),
        RunEvent::Received(Frame::Text(t)) => (RunState::Handling, RunAction::HandleEvent(t)),
        RunEvent::Received(_) => (RunState::Polling, RunAction::PollQueue),
        RunEvent::Handled => (RunState::Polling, RunAction::PollQueue),
    }
}

/// Once the loop has ended, no outcome moves it again.
pub proof fn lemma_stopped_is_final(event: RunEvent)
    ensures
        !expects(RunState::Stopped, event),
{
}

/// The loop waits for a frame from Slack only when it has found the queue of
/// outgoing messages empty: every queued message is written before the next
/// read.
pub proof fn lemma_reads_only_after_queue_drained(state: RunState, event: RunEvent, next: (RunState, RunAction))
    requires
        expects(state, event),
        decided(event, next),
        next.1 is ReadFrame,
    ensures
        state == RunState::Polling,
        event is QueueEmpty,
{
}

/// The loop ends exactly on a queued `Close`, on a queue whose senders are all
/// gone, and on a frame that the socket refuses.
pub proof fn lemma_stops_only_on_close_or_failure(state: RunState, event: RunEvent, next: (RunState, RunAction))
    requires
        expects(state, event),
        decided(event, next),
    ensures
        next.0 == RunState::Stopped <==> (event matches RunEvent::Outgoing(WsMessage::Close)
            || event is QueueDisconnected || event is WriteFailed),
{
}

/// `actions` are what the loop does when, from `state`, the outcomes of its
/// actions are `events`: one state and action after each outcome, each
/// outcome one that the previous action can have.
pub open spec fn runs(state: RunState, events: Seq<RunEvent>, actions: Seq<(RunState, RunAction)>) -> bool
    decreases events.len(),
{
    &&& events.len() == actions.len()
    &&& events.len() > 0 ==> {
        &&& expects(state, events[0])
        &&& decided(events[0], actions[0])
        &&& runs(actions[0].0, events.drop_first(), actions.drop_first())
    }
}

/// What the queue and the socket answer when senders queued the texts
/// `texts` and then a `Close`, and the socket takes every frame: each text
/// given, then written, and at last the `Close`.
pub open spec fn queue_events(texts: Seq<String>) -> Seq<RunEvent>
    decreases texts.len(),
{
    if texts.len() == 0 {
        seq![RunEvent::Outgoing(WsMessage::Close)]
    } else {
        seq![RunEvent::Outgoing(WsMessage::Text(texts[0])), RunEvent::Written] + queue_events(
            texts.drop_first(),
        )
    }
}

/// Messages queued before a `Close` are written one by one, in the order in
/// which they were queued, each write followed by a poll of the queue; then
/// the `Close` ends the loop through the handler's `on_close`, and nothing
/// ends it before.
pub proof fn lemma_queue_written_in_order(texts: Seq<String>, actions: Seq<(RunState, RunAction)>)
    requires
        runs(RunState::Polling, queue_events(texts), actions),
    ensures
        actions.len() == 2 * texts.len() + 1,
        forall|i: int|
            #![trigger texts[i]]
            0 <= i < texts.len() ==> {
                &&& actions[2 * i] == (RunState::Writing, RunAction::WriteText(texts[i]))
                &&& actions[2 * i + 1].0 == RunState::Polling
                &&& actions[2 * i + 1].1 is PollQueue
            },
        actions.last().0 == RunState::Stopped,
        actions.last().1 is CloseSocket,
    decreases texts.len(),
{
    let events = queue_events(texts);
    if texts.len() > 0 {
        let rest = texts.drop_first();
        let e1 = events.drop_first();
        let a1 = actions.drop_first();
        assert(events[0] == RunEvent::Outgoing(WsMessage::Text(texts[0])));
        assert(actions[0] == (RunState::Writing, RunAction::WriteText(texts[0])));
        assert(runs(RunState::Writing, e1, a1));
        assert(e1[0] == RunEvent::Written);
        assert(a1[0].0 == RunState::Polling);
        assert(e1.drop_first() =~= queue_events(rest));
        let a2 = a1.drop_first();
        assert(runs(RunState::Polling, queue_events(rest), a2));
        lemma_queue_written_in_order(rest, a2);
        assert forall|i: int| 0 <= i < texts.len() implies {
            &&& actions[2 * i] == (RunState::Writing, RunAction::WriteText(#[trigger] texts[i]))
            &&& actions[2 * i + 1].0 == RunState::Polling
            &&& actions[2 * i + 1].1 is PollQueue
        } by {
            if i > 0 {
                assert(texts[i] == rest[i - 1]);
                assert(actions[2 * i] == a2[2 * (i - 1)]);
                assert(actions[2 * i + 1] == a2[2 * (i - 1) + 1]);
            }
        }
        assert(actions.last() == a2.last());
    }
}

} // verus!
