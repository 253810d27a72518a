use vstd::prelude::*;
use crate::canvas::PixelEdit;
use crate::error::CanvasError;
use crate::frame::{decode_frame, decode_spec, FRAME_LEN};
use crate::keys::{get_server_keys, image_key_of, pubsub_key_of};

verus! {

/// The life of one streaming connection: `Open`, then `Reading`, then `Closed`.
#[derive(Clone, Copy, Debug, PartialEq, Eq, Structural)]
pub enum SessionState {
    Open,
    Reading,
    Closed,
}

/// What happens on a streaming connection.
pub enum SessionEvent {
    /// The session's store connection is held and its bridge task runs.
    Started,
    /// The store could not give the session its connection or its canvas.
    StoreFailed,
    /// An inbound binary frame.
    Frame(Vec<u8>),
    /// A transport-level control frame (ping or pong), which carries no edit.
    Control,
    /// Reading from the connection failed.
    TransportFailed,
    /// The peer closed the connection.
    PeerClosed,
}

/// What the connection's driver does next.
pub enum SessionAction {
    /// Nothing.
    Idle,
    /// Make sure the canvas exists (fetch-or-init) before any edit is written;
    /// a failure comes back as `StoreFailed`.
    InitCanvas,
    /// Write this edit to the canvas; a rejected edit leaves the session reading.
    Write(PixelEdit),
    /// Cancel the bridge task, await it and release the store connection; the
    /// session ended for this reason.
    Teardown(CanvasError),
}

/// One session, bound to one canvas.
pub struct Session {
    pub image_key: String,
    pub pubsub_key: String,
    pub state: SessionState,
}

/// The next state and the action for an event.
pub open spec fn step_spec(s: SessionState, event: SessionEvent) -> (SessionState, SessionAction) {
    match s {
        SessionState::Closed => (SessionState::Closed, SessionAction::Idle),
        SessionState::Open => match event {
            SessionEvent::Started => (SessionState::Reading, SessionAction::InitCanvas),
            SessionEvent::StoreFailed => (SessionState::Closed, SessionAction::Teardown(CanvasError::StoreUnavailable)),
            SessionEvent::Frame(_) => (SessionState::Closed, SessionAction::Teardown(CanvasError::ProtocolError)),
            SessionEvent::Control => (SessionState::Open, SessionAction::Idle),
            _ => (SessionState::Closed, SessionAction::Teardown(CanvasError::TransportError)),
        },
        SessionState::Reading => match event {
            SessionEvent::Started => (SessionState::Reading, SessionAction::Idle),
            SessionEvent::StoreFailed => (SessionState::Closed, SessionAction::Teardown(CanvasError::StoreUnavailable)),
            SessionEvent::Frame(bytes) => match decode_spec(bytes@) {
                Ok(edit) => (SessionState::Reading, SessionAction::Write(edit)),
                Err(_) => (SessionState::Closed, SessionAction::Teardown(CanvasError::ProtocolError)),
            },
            SessionEvent::Control => (SessionState::Reading, SessionAction::Idle),
            _ => (SessionState::Closed, SessionAction::Teardown(CanvasError::TransportError)),
        },
    }
}

/// The final state and the actions of a run of events.
pub open spec fn run(s: SessionState, events: Seq<SessionEvent>) -> (SessionState, Seq<SessionAction>)
    decreases events.len(),
{
    if events.len() == 0 {
        (s, Seq::empty())
    } else {
        let (next, action) = step_spec(s, events[0]);
        let (last, rest) = run(next, events.drop_first());
        (last, seq![action] + rest)
    }
}

/// How many teardowns a sequence of actions holds.
pub open spec fn teardown_count(actions: Seq<SessionAction>) -> nat
    decreases actions.len(),
{
    if actions.len() == 0 {
        0
    } else {
        (if actions[0] is Teardown { 1nat } else { 0nat }) + teardown_count(actions.drop_first())
    }
}

/// `n` idle actions.
pub open spec fn idles(n: nat) -> Seq<SessionAction> {
    Seq::new(n, |i: int| SessionAction::Idle)
}

impl Session {
    /// A new session for the canvas `server_id`, with its keys resolved.
    pub fn open(server_id: String) -> (r: Session)
        ensures
            r.image_key@ == image_key_of(server_id@),
            r.pubsub_key@ == pubsub_key_of(server_id@),
            r.state == SessionState::Open,
    {
        let keys = get_server_keys(server_id);
        Session { image_key: keys.image, pubsub_key: keys.pubsub, state: SessionState::Open }
    }

    /// Takes one event and says what to do about it.
    pub fn on_event(&mut self, event: SessionEvent) -> (r: SessionAction)
        ensures
            (final(self).state, r) == step_spec(old(self).state, event),
            final(self).image_key == old(self).image_key,
            final(self).pubsub_key == old(self).pubsub_key,
    {
        match self.state {
            SessionState::Closed => SessionAction::Idle,
            SessionState::Open => match event {
                SessionEvent::Started => {
                    self.state = SessionState::Reading;
                    SessionAction::InitCanvas
                },
                SessionEvent::StoreFailed => {
                    self.state = SessionState::Closed;
                    SessionAction::Teardown(CanvasError::StoreUnavailable)
                },
                SessionEvent::Frame(_) => {
                    self.state = SessionState::Closed;
                    SessionAction::Teardown(CanvasError::ProtocolError)
                },
                SessionEvent::Control => SessionAction::Idle,
                _ => {
                    self.state = SessionState::Closed;
                    SessionAction::Teardown(CanvasError::TransportError)
                },
            },
            SessionState::Reading => match event {
                SessionEvent::Started => SessionAction::Idle,
                SessionEvent::StoreFailed => {
                    self.state = SessionState::Closed;
                    SessionAction::Teardown(CanvasError::StoreUnavailable)
                },
                SessionEvent::Frame(bytes) => match decode_frame(bytes.as_slice()) {
                    Ok(edit) => SessionAction::Write(edit),
                    Err(_) => {
                        self.state = SessionState::Closed;
                        SessionAction::Teardown(CanvasError::ProtocolError)
                    },
                },
                SessionEvent::Control => SessionAction::Idle,
                _ => {
                    self.state = SessionState::Closed;
                    SessionAction::Teardown(CanvasError::TransportError)
                },
            },
        }
    }

    /// Whether the session has ended.
    pub fn is_closed(&self) -> (r: bool)
        ensures
            r == (self.state == SessionState::Closed),
    {
        self.state == SessionState::Closed
    }
}

/// A closed session stays closed and does nothing, whatever comes.
pub proof fn lemma_closed_is_inert(events: Seq<SessionEvent>)
    ensures
        run(SessionState::Closed, events) == (SessionState::Closed, idles(events.len())),
    decreases events.len(),
{
    if events.len() > 0 {
        lemma_closed_is_inert(events.drop_first());
        assert(seq![SessionAction::Idle] + idles((events.len() - 1) as nat) =~= idles(events.len()));
    }
}

/// An event that closes a session that was not yet closed brings exactly one
/// teardown, and nothing after it is acted on.
pub proof fn lemma_closing_event(s: SessionState, event: SessionEvent, rest: Seq<SessionEvent>)
    requires
        s != SessionState::Closed,
        step_spec(s, event).0 == SessionState::Closed,
    ensures
        run(s, seq![event] + rest) == (SessionState::Closed, seq![step_spec(s, event).1] + idles(rest.len())),
{
    let events = seq![event] + rest;
    assert(events[0] == event);
    assert(events.drop_first() =~= rest);
    lemma_closed_is_inert(rest);
}

/// A frame shorter than five bytes ends a session that was not yet closed with
/// a protocol error, and no frame after it is written.
pub proof fn lemma_short_frame_ends_session(s: SessionState, bytes: Vec<u8>, rest: Seq<SessionEvent>)
    requires
        s != SessionState::Closed,
        bytes@.len() < FRAME_LEN,
    ensures
        run(s, seq![SessionEvent::Frame(bytes)] + rest) == (
        SessionState::Closed,
        seq![SessionAction::Teardown(CanvasError::ProtocolError)] + idles(rest.len()),
        ),
{
    lemma_closing_event(s, SessionEvent::Frame(bytes), rest);
}

/// A peer close or a transport failure ends a session that was not yet closed
/// with one teardown (bridge cancelled and awaited, connection released), and
/// nothing after it is acted on.
pub proof fn lemma_disconnect_ends_session(s: SessionState, event: SessionEvent, rest: Seq<SessionEvent>)
    requires
        s != SessionState::Closed,
        event is PeerClosed || event is TransportFailed,
    ensures
        run(s, seq![event] + rest) == (
        SessionState::Closed,
        seq![SessionAction::Teardown(CanvasError::TransportError)] + idles(rest.len()),
        ),
{
    lemma_closing_event(s, event, rest);
}

/// A store failure while the session opens ends it with `StoreUnavailable`.
pub proof fn lemma_store_failure_at_open(rest: Seq<SessionEvent>)
    ensures
        run(SessionState::Open, seq![SessionEvent::StoreFailed] + rest) == (
        SessionState::Closed,
        seq![SessionAction::Teardown(CanvasError::StoreUnavailable)] + idles(rest.len()),
        ),
{
    lemma_closing_event(SessionState::Open, SessionEvent::StoreFailed, rest);
}

/// Over any run of events, a session that was not yet closed tears down (and
/// so releases its store connection) exactly once if it ends closed, and never
/// otherwise; a closed session does nothing more.
pub proof fn lemma_teardown_exactly_once(s: SessionState, events: Seq<SessionEvent>)
    ensures
        teardown_count(run(s, events).1) == (if s != SessionState::Closed && run(s, events).0
            == SessionState::Closed {
            1nat
        } else {
            0nat
        }),
        run(s, events).1.len() == events.len(),
        s == SessionState::Closed ==> run(s, events).0 == SessionState::Closed,
    decreases events.len(),
{
    if events.len() > 0 {
        let (next, action) = step_spec(s, events[0]);
        lemma_teardown_exactly_once(next, events.drop_first());
        let rest = run(next, events.drop_first()).1;
        let all = seq![action] + rest;
        assert(all[0] == action);
        assert(all.drop_first() =~= rest);
        assert(teardown_count(all) == (if action is Teardown { 1nat } else { 0nat }) + teardown_count(rest));
    }
}

/// Every write that a run asks for comes after the canvas was initialized, or
/// the run started in `Reading`, where that was already done.
pub proof fn lemma_writes_follow_init(s: SessionState, events: Seq<SessionEvent>, i: int)
    requires
        0 <= i < run(s, events).1.len(),
        run(s, events).1[i] is Write,
    ensures
        s == SessionState::Reading || exists|j: int| 0 <= j < i && (#[trigger] run(s, events).1[j]) is InitCanvas,
    decreases events.len(),
{
    lemma_teardown_exactly_once(s, events);
    let (next, action) = step_spec(s, events[0]);
    let rest = run(next, events.drop_first()).1;
    let all = seq![action] + rest;
    assert(run(s, events).1 == all);
    if i > 0 {
        assert(rest[i - 1] is Write);
        lemma_writes_follow_init(next, events.drop_first(), i - 1);
        if s != SessionState::Reading {
            if exists|j: int| 0 <= j < i - 1 && (#[trigger] rest[j]) is InitCanvas {
                let j = choose|j: int| 0 <= j < i - 1 && (#[trigger] rest[j]) is InitCanvas;
                assert(all[j + 1] == rest[j]);
            } else {
                assert(next == SessionState::Reading);
                assert(all[0] is InitCanvas);
            }
        }
    }
}

/// What wakes the bridge task.
pub enum BridgeEvent {
    /// A notification arrived on the canvas channel.
    Notification,
    /// The wait for a notification timed out.
    WaitElapsed,
    /// The subscription failed.
    Failed,
}

/// What the bridge task does next.
#[derive(Clone, Copy, Debug, PartialEq, Eq, Structural)]
pub enum BridgeAction {
    /// Hand the notification to the session's sink, then wait again.
    Forward,
    /// Wait again.
    Wait,
    /// End the subscription.
    Stop,
}

/// The bridge's decision on waking: once its session has asked it to stop, it
/// stops at the first wake, whatever woke it.
pub fn bridge_step(cancelled: bool, event: &BridgeEvent) -> (r: BridgeAction)
    ensures
        cancelled ==> r == BridgeAction::Stop,
        event is Failed ==> r == BridgeAction::Stop,
        !cancelled && event is Notification ==> r == BridgeAction::Forward,
        !cancelled && event is WaitElapsed ==> r == BridgeAction::Wait,
{
    if cancelled {
        return BridgeAction::Stop;
    }
    match event {
        BridgeEvent::Notification => BridgeAction::Forward,
        BridgeEvent::WaitElapsed => BridgeAction::Wait,
        BridgeEvent::Failed => BridgeAction::Stop,
    }
}

} // verus!
