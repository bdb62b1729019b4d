//! The streaming subscription engine: what becomes of each attempt to
//! receive an event, and the queue of the events received.
//!
//! The engine decides; its caller owns the connection. The caller tries to
//! receive a frame, hands the outcome to `poll_once`, and does what the
//! returned action says before it tries again.

use crate::codec::{decode, is_decoded_frame};
use crate::commands::StreamingMessage;
use crate::error::ErrorKind;
use vstd::prelude::*;

verus! {

/// How long the caller waits after an attempt that found no frame, in
/// milliseconds.
pub const POLL_INTERVAL_MS: u64 = 100;

/// The states of the engine, in the order in which it passes through them.
#[derive(Clone, Copy, Debug, PartialEq, Eq, Structural)]
pub enum EngineState {
    /// No streaming connection yet.
    Disconnected,
    /// The streaming connection is open; polling has not started.
    Subscribing,
    /// Events are received and queued.
    Polling,
    /// Receiving has ended for good.
    Closed,
}

/// What the caller does after an attempt to receive.
#[derive(Clone, Copy, Debug, PartialEq, Eq, Structural)]
pub enum PollAction {
    /// Try again at once.
    Continue,
    /// Wait for the given number of milliseconds, then try again.
    Sleep(u64),
    /// Stop trying: the engine does not poll.
    Stop,
}

/// The model of the engine: its state and the events queued, oldest first.
pub struct EngineView {
    pub state: EngineState,
    pub queue: Seq<StreamingMessage>,
}

/// The engine and the action after an attempt to receive gave `received`.
///
/// While polling, an event is appended to the queue; `WouldBlock` changes
/// nothing and asks for a pause; any other error closes the engine. An
/// engine that does not poll stays as it is.
pub open spec fn engine_step(
    engine: EngineView,
    received: Result<StreamingMessage, ErrorKind>,
) -> (EngineView, PollAction) {
    if engine.state != EngineState::Polling {
        (engine, PollAction::Stop)
    } else {
        match received {
            Ok(event) => (
                EngineView { state: EngineState::Polling, queue: engine.queue.push(event) },
                PollAction::Continue,
            ),
            Err(ErrorKind::WouldBlock) => (engine, PollAction::Sleep(POLL_INTERVAL_MS)),
            Err(_) => (
                EngineView { state: EngineState::Closed, queue: engine.queue },
                PollAction::Stop,
            ),
        }
    }
}

/// Whether `decoded` is what an attempt to receive gives once its frame is
/// decoded: the error of the attempt, or the outcome of decoding the frame
/// as an event.
pub open spec fn is_received_event(
    decoded: Result<StreamingMessage, ErrorKind>,
    received: Result<Vec<u8>, ErrorKind>,
) -> bool {
    match received {
        Ok(frame) => is_decoded_frame(decoded, frame@),
        Err(error) => decoded == Err::<StreamingMessage, ErrorKind>(error),
    }
}

/// The streaming subscription engine.
pub struct StreamEngine {
    state: EngineState,
    queue: Vec<StreamingMessage>,
}

impl View for StreamEngine {
    type V = EngineView;

    closed spec fn view(&self) -> EngineView {
        EngineView { state: self.state, queue: self.queue@ }
    }
}

impl StreamEngine {
    /// An engine without a connection and without events.
    pub fn new() -> (engine: StreamEngine)
        ensures
            engine@.state == EngineState::Disconnected,
            engine@.queue.len() == 0,
    {
        StreamEngine { state: EngineState::Disconnected, queue: Vec::new() }
    }

    /// The state of the engine.
    pub fn state(&self) -> (state: EngineState)
        ensures
            state == self@.state,
    {
        self.state
    }

    /// The number of events queued.
    pub fn queued(&self) -> (n: usize)
        ensures
            n == self@.queue.len(),
    {
        self.queue.len()
    }

    /// Records that the streaming connection is open: `Disconnected`
    /// becomes `Subscribing`. In another state nothing changes, and the
    /// result is `false`.
    pub fn connected(&mut self) -> (moved: bool)
        ensures
            moved == (old(self)@.state == EngineState::Disconnected),
            final(self)@.queue == old(self)@.queue,
            final(self)@.state == if moved {
                EngineState::Subscribing
            } else {
                old(self)@.state
            },
    {
        match self.state {
            EngineState::Disconnected => {
                self.state = EngineState::Subscribing;
                true
            },
            _ => false,
        }
    }

    /// Records that polling starts: `Subscribing` becomes `Polling`. In
    /// another state nothing changes, and the result is `false`.
    pub fn start_polling(&mut self) -> (moved: bool)
        ensures
            moved == (old(self)@.state == EngineState::Subscribing),
            final(self)@.queue == old(self)@.queue,
            final(self)@.state == if moved {
                EngineState::Polling
            } else {
                old(self)@.state
            },
    {
        match self.state {
            EngineState::Subscribing => {
                self.state = EngineState::Polling;
                true
            },
            _ => false,
        }
    }

    /// Closes the engine. The events queued stay.
    pub fn close(&mut self)
        ensures
            final(self)@.state == EngineState::Closed,
            final(self)@.queue == old(self)@.queue,
    {
        self.state = EngineState::Closed;
    }

    /// Takes in what an attempt to receive gave, its frame already decoded.
    pub fn deliver(&mut self, received: Result<StreamingMessage, ErrorKind>) -> (action: PollAction)
        ensures
            (final(self)@, action) == engine_step(old(self)@, received),
    {
        match self.state {
            EngineState::Polling => {},
            _ => {
                return PollAction::Stop;
            },
        }
        match received {
            Ok(event) => {
                self.queue.push(event);
                PollAction::Continue
            },
            Err(ErrorKind::WouldBlock) => PollAction::Sleep(POLL_INTERVAL_MS),
            Err(_) => {
                self.state = EngineState::Closed;
                PollAction::Stop
            },
        }
    }

    /// Takes in what an attempt to receive a frame gave: the frame, or the
    /// error of the attempt. A frame is decoded as an event; a frame that is
    /// no event closes the engine as a transport error does.
    pub fn poll_once(&mut self, received: Result<Vec<u8>, ErrorKind>) -> (action: PollAction)
        ensures
            exists|decoded: Result<StreamingMessage, ErrorKind>|
                #[trigger] is_received_event(decoded, received) && (final(self)@, action)
                    == engine_step(old(self)@, decoded),
    {
        let decoded: Result<StreamingMessage, ErrorKind> = match received {
            Ok(frame) => decode(frame.as_slice()),
            Err(error) => Err(error),
        };
        assert(is_received_event(decoded, received));
        self.deliver(decoded)
    }

    /// Calls the handler once for each event queued, oldest first, and
    /// empties the queue. It does not wait.
    pub fn handle_available<F: Fn(StreamingMessage)>(&mut self, handler: F)
        requires
            forall|event: StreamingMessage| handler.requires((event,)),
        ensures
            final(self)@.queue.len() == 0,
            final(self)@.state == old(self)@.state,
            forall|i: int|
                0 <= i < old(self)@.queue.len() ==> handler.ensures(
                    (#[trigger] old(self)@.queue[i],),
                    (),
                ),
    {
        let events = self.drain_available();
        for event in iter: events
            invariant
                iter.seq() == old(self)@.queue,
                forall|event: StreamingMessage| handler.requires((event,)),
                forall|i: int|
                    0 <= i < iter.index() ==> handler.ensures(
                        (#[trigger] old(self)@.queue[i],),
                        (),
                    ),
        {
            handler(event);
        }
    }

    /// Hands out the events queued, oldest first, and empties the queue. It
    /// does not wait: the result is empty if nothing is queued.
    pub fn drain_available(&mut self) -> (events: Vec<StreamingMessage>)
        ensures
            events@ == old(self)@.queue,
            final(self)@.queue.len() == 0,
            final(self)@.state == old(self)@.state,
    {
        let mut events: Vec<StreamingMessage> = Vec::new();
        std::mem::swap(&mut events, &mut self.queue);
        events
    }
}

/// `WouldBlock` is no failure. Whatever the state of the engine, it leaves
/// the state and the queue as they are; while polling it asks only for a
/// pause.
pub proof fn lemma_would_block_changes_nothing(engine: EngineView)
    ensures
        engine_step(engine, Err(ErrorKind::WouldBlock)).0 == engine,
        engine.state == EngineState::Polling ==> engine_step(engine, Err(ErrorKind::WouldBlock)).1
            == PollAction::Sleep(POLL_INTERVAL_MS),
        !ErrorKind::WouldBlock.is_fatal(),
{
}

/// An error other than `WouldBlock` closes a polling engine and leaves the
/// events queued as they are.
pub proof fn lemma_failure_closes(engine: EngineView, error: ErrorKind)
    requires
        engine.state == EngineState::Polling,
        error.is_fatal(),
    ensures
        engine_step(engine, Err(error)).0.state == EngineState::Closed,
        engine_step(engine, Err(error)).0.queue == engine.queue,
        engine_step(engine, Err(error)).1 == PollAction::Stop,
{
}

/// A closed engine stays closed and queues nothing more, whatever is
/// received.
pub proof fn lemma_closed_is_final(
    engine: EngineView,
    received: Result<StreamingMessage, ErrorKind>,
)
    requires
        engine.state == EngineState::Closed,
    ensures
        engine_step(engine, received) == (engine, PollAction::Stop),
{
}

/// Each event received while polling is queued behind those received before
/// it, and none is dropped.
pub proof fn lemma_events_queue_in_order(
    engine: EngineView,
    first: StreamingMessage,
    second: StreamingMessage,
)
    requires
        engine.state == EngineState::Polling,
    ensures
        engine_step(engine_step(engine, Ok(first)).0, Ok(second)).0.queue == engine.queue.push(
            first,
        ).push(second),
        engine_step(engine_step(engine, Ok(first)).0, Ok(second)).0.state == EngineState::Polling,
{
}

} // verus!
