//! The per-room connection lifecycle, as a state machine that the runtime
//! drives: it performs each action and reports what happened as an event.

use crate::codec::{received_frames, BiliWebsocketMessage, Decoded, FrameError};
use crate::events::{frame_event, BiliMessage, MessageView};
use vstd::prelude::*;

verus! {

#[derive(Debug, Clone, Copy, PartialEq, Eq, Structural)]
pub enum ConnectionState {
    Idle,
    Connecting,
    Authenticated,
    Streaming,
    Reconnecting,
    ShuttingDown,
    Stopped,
}

/// What the runtime reports back to the worker.
#[derive(Debug, Clone, Copy, PartialEq, Eq, Structural)]
pub enum WorkerEvent {
    /// The worker was started.
    Started,
    /// The socket is open.
    SocketOpened,
    /// The socket could not be opened.
    ConnectFailed,
    /// The handshake frame was sent.
    HandshakeSent,
    /// The handshake frame could not be sent.
    HandshakeFailed,
    /// The heartbeat task is running.
    HeartbeatStarted,
    /// One whole frame was read and its events published.
    FrameReceived,
    /// Reading failed at the transport level.
    ReadFailed,
    /// The peer closed the connection.
    PeerClosed,
    /// The pause before reconnecting is over.
    RetryDelayElapsed,
    /// The read loop and the heartbeat task have both ended.
    TasksExited,
}

/// What the worker asks the runtime to do next.
#[derive(Debug, Clone, Copy, PartialEq, Eq, Structural)]
pub enum WorkerAction {
    OpenSocket,
    SendHandshake,
    StartHeartbeat,
    ReadFrame,
    /// Abort the heartbeat task, close the socket and pause before reconnecting.
    AbortAndRetry,
    /// Abort the heartbeat task, close the socket and wind down.
    AbortAndExit,
    /// Close what is open and wind down.
    Exit,
    /// Nothing: the event does not apply in this state.
    Nothing,
}

/// The lifecycle. The shutdown flag is read at loop boundaries: while
/// connecting and after each frame or read failure, never in the middle of a read.
pub open spec fn transition(s: ConnectionState, e: WorkerEvent, shutdown: bool) -> (
    ConnectionState,
    WorkerAction,
) {
    match s {
        ConnectionState::Idle => if e == WorkerEvent::Started {
            (ConnectionState::Connecting, WorkerAction::OpenSocket)
        } else {
            (s, WorkerAction::Nothing)
        },
        ConnectionState::Connecting => if shutdown {
            (ConnectionState::ShuttingDown, WorkerAction::Exit)
        } else {
            match e {
                WorkerEvent::SocketOpened => (ConnectionState::Connecting, WorkerAction::SendHandshake),
                WorkerEvent::HandshakeSent => (
                    ConnectionState::Authenticated,
                    WorkerAction::StartHeartbeat,
                ),
                WorkerEvent::ConnectFailed | WorkerEvent::HandshakeFailed => (
                    ConnectionState::Reconnecting,
                    WorkerAction::AbortAndRetry,
                ),
                _ => (s, WorkerAction::Nothing),
            }
        },
        ConnectionState::Authenticated => if e == WorkerEvent::HeartbeatStarted {
            (ConnectionState::Streaming, WorkerAction::ReadFrame)
        } else {
            (s, WorkerAction::Nothing)
        },
        ConnectionState::Streaming => match e {
            WorkerEvent::FrameReceived => if shutdown {
                (ConnectionState::ShuttingDown, WorkerAction::AbortAndExit)
            } else {
                (ConnectionState::Streaming, WorkerAction::ReadFrame)
            },
            WorkerEvent::ReadFailed | WorkerEvent::PeerClosed => if shutdown {
                (ConnectionState::ShuttingDown, WorkerAction::AbortAndExit)
            } else {
                (ConnectionState::Reconnecting, WorkerAction::AbortAndRetry)
            },
            _ => (s, WorkerAction::Nothing),
        },
        ConnectionState::Reconnecting => if e == WorkerEvent::RetryDelayElapsed {
            (ConnectionState::Connecting, WorkerAction::OpenSocket)
        } else {
            (s, WorkerAction::Nothing)
        },
        ConnectionState::ShuttingDown => if e == WorkerEvent::TasksExited {
            (ConnectionState::Stopped, WorkerAction::Nothing)
        } else {
            (s, WorkerAction::Nothing)
        },
        ConnectionState::Stopped => (s, WorkerAction::Nothing),
    }
}

/// The next state and action of the lifecycle.
pub fn next(s: ConnectionState, e: WorkerEvent, shutdown: bool) -> (r: (
    ConnectionState,
    WorkerAction,
))
    ensures
        r == transition(s, e, shutdown),
{
    match s {
        ConnectionState::Idle => if e == WorkerEvent::Started {
            (ConnectionState::Connecting, WorkerAction::OpenSocket)
        } else {
            (s, WorkerAction::Nothing)
        },
        ConnectionState::Connecting => if shutdown {
            (ConnectionState::ShuttingDown, WorkerAction::Exit)
        } else {
            match e {
                WorkerEvent::SocketOpened => (ConnectionState::Connecting, WorkerAction::SendHandshake),
                WorkerEvent::HandshakeSent => (
                    ConnectionState::Authenticated,
                    WorkerAction::StartHeartbeat,
                ),
                WorkerEvent::ConnectFailed | WorkerEvent::HandshakeFailed => (
                    ConnectionState::Reconnecting,
                    WorkerAction::AbortAndRetry,
                ),
                _ => (s, WorkerAction::Nothing),
            }
        },
        ConnectionState::Authenticated => if e == WorkerEvent::HeartbeatStarted {
            (ConnectionState::Streaming, WorkerAction::ReadFrame)
        } else {
            (s, WorkerAction::Nothing)
        },
        ConnectionState::Streaming => match e {
            WorkerEvent::FrameReceived => if shutdown {
                (ConnectionState::ShuttingDown, WorkerAction::AbortAndExit)
            } else {
                (ConnectionState::Streaming, WorkerAction::ReadFrame)
            },
            WorkerEvent::ReadFailed | WorkerEvent::PeerClosed => if shutdown {
                (ConnectionState::ShuttingDown, WorkerAction::AbortAndExit)
            } else {
                (ConnectionState::Reconnecting, WorkerAction::AbortAndRetry)
            },
            _ => (s, WorkerAction::Nothing),
        },
        ConnectionState::Reconnecting => if e == WorkerEvent::RetryDelayElapsed {
            (ConnectionState::Connecting, WorkerAction::OpenSocket)
        } else {
            (s, WorkerAction::Nothing)
        },
        ConnectionState::ShuttingDown => if e == WorkerEvent::TasksExited {
            (ConnectionState::Stopped, WorkerAction::Nothing)
        } else {
            (s, WorkerAction::Nothing)
        },
        ConnectionState::Stopped => (s, WorkerAction::Nothing),
    }
}

/// The state after a run of events, each with the value the shutdown flag
/// had when it was handled.
pub open spec fn run(s: ConnectionState, events: Seq<(WorkerEvent, bool)>) -> ConnectionState
    decreases events.len(),
{
    if events.len() == 0 {
        s
    } else {
        run(transition(s, events[0].0, events[0].1).0, events.drop_first())
    }
}

/// A transport failure while streaming, with the flag down, leads back to
/// connecting: first to `Reconnecting` (abort the heartbeat, pause), then,
/// when the pause is over, to `Connecting` with a new socket to open. The
/// lifecycle never raises the flag itself: no action does.
pub proof fn lemma_reconnect(failure: WorkerEvent)
    requires
        failure == WorkerEvent::ReadFailed || failure == WorkerEvent::PeerClosed,
    ensures
        transition(ConnectionState::Streaming, failure, false) == (
            ConnectionState::Reconnecting,
            WorkerAction::AbortAndRetry,
        ),
        transition(ConnectionState::Reconnecting, WorkerEvent::RetryDelayElapsed, false) == (
            ConnectionState::Connecting,
            WorkerAction::OpenSocket,
        ),
        run(
            ConnectionState::Streaming,
            seq![(failure, false), (WorkerEvent::RetryDelayElapsed, false)],
        ) == ConnectionState::Connecting,
{
    let evs = seq![(failure, false), (WorkerEvent::RetryDelayElapsed, false)];
    let rest = evs.drop_first();
    assert(rest.drop_first() =~= Seq::<(WorkerEvent, bool)>::empty());
    assert(run(ConnectionState::Connecting, rest.drop_first()) == ConnectionState::Connecting);
    assert(rest[0] == (WorkerEvent::RetryDelayElapsed, false));
    assert(run(ConnectionState::Reconnecting, rest) == ConnectionState::Connecting);
}

/// Once shutting down, whatever happens, the worker never connects again:
/// it only reaches `Stopped`, and never asks to open a socket.
pub proof fn lemma_shutting_down_is_final(
    s: ConnectionState,
    events: Seq<(WorkerEvent, bool)>,
)
    requires
        s == ConnectionState::ShuttingDown || s == ConnectionState::Stopped,
    ensures
        run(s, events) == ConnectionState::ShuttingDown || run(s, events)
            == ConnectionState::Stopped,
        forall|e: WorkerEvent, f: bool| #[trigger]
            transition(s, e, f).1 == WorkerAction::Nothing,
    decreases events.len(),
{
    if events.len() > 0 {
        lemma_shutting_down_is_final(
            transition(s, events[0].0, events[0].1).0,
            events.drop_first(),
        );
    }
}

/// With the flag raised, the next frame boundary (a frame read, or a read
/// that failed) ends streaming: the heartbeat is aborted, and no reconnect
/// follows, whatever comes after.
pub proof fn lemma_shutdown(boundary: WorkerEvent, after: Seq<(WorkerEvent, bool)>)
    requires
        boundary == WorkerEvent::FrameReceived || boundary == WorkerEvent::ReadFailed
            || boundary == WorkerEvent::PeerClosed,
    ensures
        transition(ConnectionState::Streaming, boundary, true) == (
            ConnectionState::ShuttingDown,
            WorkerAction::AbortAndExit,
        ),
        run(ConnectionState::ShuttingDown, after) != ConnectionState::Connecting,
        run(ConnectionState::ShuttingDown, after) != ConnectionState::Reconnecting,
{
    lemma_shutting_down_is_final(ConnectionState::ShuttingDown, after);
}


/// The events that decoded frames normalize to, in order.
pub open spec fn events_of(ds: Seq<Decoded>) -> Seq<MessageView>
    decreases ds.len(),
{
    if ds.len() == 0 {
        seq![]
    } else {
        let first: Seq<MessageView> = match ds[0] {
            Ok(inner) => match frame_event(inner.body) {
                Some(e) => seq![e],
                None => seq![],
            },
            Err(_) => seq![],
        };
        first + events_of(ds.drop_first())
    }
}

/// The decoding errors among decoded frames, in order.
pub open spec fn errors_of(ds: Seq<Decoded>) -> Seq<FrameError>
    decreases ds.len(),
{
    if ds.len() == 0 {
        seq![]
    } else {
        let first: Seq<FrameError> = match ds[0] {
            Ok(_) => seq![],
            Err(e) => seq![e],
        };
        first + errors_of(ds.drop_first())
    }
}

/// The view of each event.
pub open spec fn views(v: Seq<BiliMessage>) -> Seq<MessageView> {
    v.map_values(|m: BiliMessage| m@)
}

/// What one received frame gives: the events to publish, and the errors to
/// log. Neither ends the connection.
pub struct FrameOutcome {
    pub events: Vec<BiliMessage>,
    pub errors: Vec<FrameError>,
}

/// Decodes the bytes of one received frame and normalizes what it carries.
pub fn process_frame(buf: Vec<u8>) -> (r: FrameOutcome)
    ensures
        views(r.events@) == events_of(received_frames(buf@)),
        r.errors@ == errors_of(received_frames(buf@)),
{
    let ghost bytes = buf@;
    let mut ds: Vec<Decoded> = match BiliWebsocketMessage::from_binary(buf) {
        Ok(m) => m.parse(),
        Err(e) => {
            let mut v: Vec<Decoded> = Vec::new();
            v.push(Err(e));
            v
        },
    };
    assert(ds@ =~= received_frames(bytes));
    let mut events: Vec<BiliMessage> = Vec::new();
    let mut errors: Vec<FrameError> = Vec::new();
    while ds.len() > 0
        invariant
            events_of(received_frames(bytes)) == views(events@) + events_of(ds@),
            errors_of(received_frames(bytes)) == errors@ + errors_of(ds@),
        decreases ds@.len(),
    {
        let ghost before = ds@;
        let ghost ev = events@;
        let ghost er = errors@;
        let d = ds.remove(0);
        assert(ds@ =~= before.drop_first());
        match d {
            Ok(inner) => {
                match BiliMessage::from_raw_wesocket_message(inner) {
                    Some(m) => {
                        events.push(m);
                        assert(views(events@) =~= views(ev) + seq![m@]);
                    },
                    None => {},
                }
            },
            Err(e) => {
                errors.push(e);
            },
        }
        assert(views(events@) + events_of(ds@) =~= views(ev) + events_of(before));
        assert(errors@ + errors_of(ds@) =~= er + errors_of(before));
    }
    assert(views(events@) + events_of(ds@) =~= views(events@));
    assert(errors@ + errors_of(ds@) =~= errors@);
    FrameOutcome { events, errors }
}

/// One room's worker: which room it serves, as whom, and where in the
/// lifecycle it stands.
pub struct WorkerSession {
    pub room_id: i64,
    pub user_id: Option<u64>,
    pub state: ConnectionState,
}

impl WorkerSession {
    pub open spec fn spec_state(&self) -> ConnectionState {
        self.state
    }

    pub fn new(room_id: i64, user_id: Option<u64>) -> (r: Self)
        ensures
            r.room_id == room_id,
            r.user_id == user_id,
            r.spec_state() == ConnectionState::Idle,
    {
        WorkerSession { room_id, user_id, state: ConnectionState::Idle }
    }

    pub fn state(&self) -> (r: ConnectionState)
        ensures
            r == self.spec_state(),
    {
        self.state
    }

    /// Takes one event, moves along the lifecycle, and says what to do next.
    pub fn handle(&mut self, e: WorkerEvent, shutdown: bool) -> (r: WorkerAction)
        ensures
            (final(self).spec_state(), r) == transition(old(self).spec_state(), e, shutdown),
            final(self).room_id == old(self).room_id,
            final(self).user_id == old(self).user_id,
    {
        let (s, a) = next(self.state, e, shutdown);
        self.state = s;
        a
    }

    /// The handshake frame for this room and user.
    pub fn handshake(&self) -> (r: Option<BiliWebsocketMessage>)
        ensures
            crate::codec::is_handshake_frame(r, self.room_id, self.user_id.unwrap_or(0)),
    {
        BiliWebsocketMessage::entry(self.room_id, self.user_id)
    }

    /// The events and errors of one received frame. The lifecycle state is
    /// left as it is: what a frame holds never moves the worker.
    pub fn on_frame(&self, buf: Vec<u8>) -> (r: FrameOutcome)
        ensures
            views(r.events@) == events_of(received_frames(buf@)),
            r.errors@ == errors_of(received_frames(buf@)),
    {
        process_frame(buf)
    }
}

} // verus!
