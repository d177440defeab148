//! The transform receive path: a reader that never gives up.
//!
//! The host connects, reads and sleeps; the machine here decides, from the
//! outcome of each of these, what the host does next and which records reach
//! the subscriber.

use vstd::prelude::*;
use crate::codec::{decode_transform, record_matrix, TransformMatrix, TRANSFORM_DATA_SIZE};

verus! {

/// How long the host waits after a failed connect before it tries again.
pub const BACKOFF_MILLIS: u64 = 1000;

/// Where the inbound connection stands.
#[derive(Debug, Clone, Copy, PartialEq, Eq, Structural)]
pub enum ReceiveState {
    /// No connection, and no attempt under way.
    Disconnected,
    /// A connect is under way, or will be after the backoff.
    Connecting,
    /// Connected, and reading records.
    Connected,
}

/// Why a connection was given up.
#[derive(Debug, Clone, Copy, PartialEq, Eq, Structural)]
pub enum Disconnect {
    /// A record came with another length than 64 bytes.
    ShortRead,
    /// The producer closed the stream between two records.
    StreamClosed,
    /// The read failed for any other reason.
    ReadError,
}

/// What became of the operation that the host performed.
#[derive(Debug, Clone, PartialEq, Eq)]
pub enum ReceiveEvent {
    /// The inbound endpoint was opened.
    Connected,
    /// The inbound endpoint could not be opened.
    ConnectFailed,
    /// A read ended with these bytes: a full record, or what came before the
    /// stream broke off.
    Record(Vec<u8>),
    /// The stream ended with no byte of a further record read.
    StreamClosed,
    /// The read failed.
    ReadFailed,
}

/// What the host is to do next.
#[derive(Debug, Clone, PartialEq, Eq)]
pub enum ReceiveAction {
    /// Open the inbound endpoint now.
    Connect,
    /// Wait this many milliseconds, then open the inbound endpoint.
    Backoff(u64),
    /// Read the next record of 64 bytes.
    Read,
    /// Hand this matrix to the subscriber, then read the next record.
    Publish(TransformMatrix),
    /// Note why the connection is given up, then open the endpoint anew.
    Reconnect(Disconnect),
}

/// An action as a plain value: a matrix by its elements.
pub enum ActionView {
    Connect,
    Backoff(u64),
    Read,
    Publish(Seq<u32>),
    Reconnect(Disconnect),
}

impl View for ReceiveAction {
    type V = ActionView;

    open spec fn view(&self) -> ActionView {
        match *self {
            ReceiveAction::Connect => ActionView::Connect,
            ReceiveAction::Backoff(ms) => ActionView::Backoff(ms),
            ReceiveAction::Read => ActionView::Read,
            ReceiveAction::Publish(m) => ActionView::Publish(m@),
            ReceiveAction::Reconnect(why) => ActionView::Reconnect(why),
        }
    }
}

/// The operation whose outcome a state waits for.
pub open spec fn awaited(state: ReceiveState) -> ActionView {
    match state {
        ReceiveState::Disconnected => ActionView::Connect,
        ReceiveState::Connecting => ActionView::Connect,
        ReceiveState::Connected => ActionView::Read,
    }
}

/// The state after an event.
pub open spec fn next_state(state: ReceiveState, event: ReceiveEvent) -> ReceiveState {
    match (state, event) {
        (ReceiveState::Connected, ReceiveEvent::Record(bytes)) => if bytes@.len() == 64 {
            ReceiveState::Connected
        } else {
            ReceiveState::Connecting
        },
        (ReceiveState::Connected, ReceiveEvent::StreamClosed) => ReceiveState::Connecting,
        (ReceiveState::Connected, ReceiveEvent::ReadFailed) => ReceiveState::Connecting,
        (ReceiveState::Connected, _) => ReceiveState::Connected,
        (_, ReceiveEvent::Connected) => ReceiveState::Connected,
        (_, ReceiveEvent::ConnectFailed) => ReceiveState::Connecting,
        (_, _) => state,
    }
}

/// What the host is told to do after an event.
pub open spec fn next_action(state: ReceiveState, event: ReceiveEvent) -> ActionView {
    match (state, event) {
        (ReceiveState::Connected, ReceiveEvent::Record(bytes)) => if bytes@.len() == 64 {
            ActionView::Publish(record_matrix(bytes@))
        } else {
            ActionView::Reconnect(Disconnect::ShortRead)
        },
        (ReceiveState::Connected, ReceiveEvent::StreamClosed) => ActionView::Reconnect(
            Disconnect::StreamClosed,
        ),
        (ReceiveState::Connected, ReceiveEvent::ReadFailed) => ActionView::Reconnect(
            Disconnect::ReadError,
        ),
        (ReceiveState::Connected, _) => ActionView::Read,
        (_, ReceiveEvent::Connected) => ActionView::Read,
        (_, ReceiveEvent::ConnectFailed) => ActionView::Backoff(BACKOFF_MILLIS),
        (_, _) => ActionView::Connect,
    }
}

/// The reader of the inbound channel.
#[derive(Debug)]
pub struct TransformReceiver {
    state: ReceiveState,
}

impl View for TransformReceiver {
    type V = ReceiveState;

    closed spec fn view(&self) -> ReceiveState {
        self.state
    }
}

impl TransformReceiver {
    /// A reader that has no connection yet.
    pub fn new() -> (r: Self)
        ensures
            r@ == ReceiveState::Disconnected,
    {
        TransformReceiver { state: ReceiveState::Disconnected }
    }

    /// Where the connection stands.
    pub fn state(&self) -> (s: ReceiveState)
        ensures
            s == self@,
    {
        self.state
    }

    /// Sets a reader without a connection to connecting, and says which
    /// operation the reader waits for: a connect, or a read once connected.
    pub fn start(&mut self) -> (action: ReceiveAction)
        ensures
            action@ == awaited(old(self)@),
            final(self)@ == if old(self)@ == ReceiveState::Disconnected {
                ReceiveState::Connecting
            } else {
                old(self)@
            },
    {
        match self.state {
            ReceiveState::Disconnected => {
                self.state = ReceiveState::Connecting;
                ReceiveAction::Connect
            },
            ReceiveState::Connecting => ReceiveAction::Connect,
            ReceiveState::Connected => ReceiveAction::Read,
        }
    }

    /// Takes the outcome of the host's last operation and decides the next.
    ///
    /// While connected, a record of 64 bytes is decoded and published; any
    /// other end of a read gives the connection up and asks for a new one.
    /// While not connected, a connect that failed is tried again after the
    /// backoff, without end. An event that does not fit the state changes
    /// nothing: the operation that the state waits for is asked for again.
    pub fn step(&mut self, event: ReceiveEvent) -> (action: ReceiveAction)
        ensures
            final(self)@ == next_state(old(self)@, event),
            action@ == next_action(old(self)@, event),
            action matches ReceiveAction::Publish(m) ==> m.wf(),
    {
        match self.state {
            ReceiveState::Connected => match event {
                ReceiveEvent::Record(bytes) => {
                    if bytes.len() == TRANSFORM_DATA_SIZE {
                        let decoded = decode_transform(bytes.as_slice());
                        ReceiveAction::Publish(decoded.matrix)
                    } else {
                        self.state = ReceiveState::Connecting;
                        ReceiveAction::Reconnect(Disconnect::ShortRead)
                    }
                },
                ReceiveEvent::StreamClosed => {
                    self.state = ReceiveState::Connecting;
                    ReceiveAction::Reconnect(Disconnect::StreamClosed)
                },
                ReceiveEvent::ReadFailed => {
                    self.state = ReceiveState::Connecting;
                    ReceiveAction::Reconnect(Disconnect::ReadError)
                },
                _ => ReceiveAction::Read,
            },
            _ => match event {
                ReceiveEvent::Connected => {
                    self.state = ReceiveState::Connected;
                    ReceiveAction::Read
                },
                ReceiveEvent::ConnectFailed => {
                    self.state = ReceiveState::Connecting;
                    ReceiveAction::Backoff(BACKOFF_MILLIS)
                },
                _ => ReceiveAction::Connect,
            },
        }
    }
}

/// A read that ends short of a full record publishes nothing and asks for
/// exactly one thing: a new connection.
pub proof fn lemma_short_read_reconnects(bytes: Vec<u8>)
    requires
        bytes@.len() != 64,
    ensures
        next_action(ReceiveState::Connected, ReceiveEvent::Record(bytes)) == ActionView::Reconnect(
            Disconnect::ShortRead,
        ),
        next_state(ReceiveState::Connected, ReceiveEvent::Record(bytes))
            == ReceiveState::Connecting,
{
}

/// A matrix is published only for a full record read while connected, and
/// it is the matrix which that record holds.
pub proof fn lemma_publish_only_full_records(state: ReceiveState, event: ReceiveEvent)
    ensures
        next_action(state, event) matches ActionView::Publish(m) ==> state
            == ReceiveState::Connected && (event matches ReceiveEvent::Record(bytes)
            ==> bytes@.len() == 64 && m == record_matrix(bytes@)) && event is Record,
{
}

/// No outcome ends the reader: a connection that is lost or refused always
/// leads to another connect, and a connection that holds to another read.
pub proof fn lemma_receiver_goes_on(state: ReceiveState, event: ReceiveEvent)
    ensures
        next_state(state, event) == ReceiveState::Connected ==> (next_action(state, event) is Read
            || next_action(state, event) is Publish),
        next_state(state, event) != ReceiveState::Connected ==> (next_action(state, event)
            is Connect || next_action(state, event) is Backoff || next_action(state, event)
            is Reconnect),
        next_action(state, event) matches ActionView::Backoff(ms) ==> ms == 1000,
{
}

} // verus!
