//! The state machine of one accepted connection.
//!
//! The machine does no input or output of its own. It is told what happened
//! (an `Event`) and answers with what to do next (an `Action`); whoever owns
//! the sockets performs the action and reports its outcome as the next event.
//! The first action of every connection is `Action::Receive`.
//!
//! The steps are strictly sequential: greeting, method selection, request,
//! connect through the network client, reply, relay. Any failure closes the
//! connection; the failures that the protocol answers are answered first.

use crate::socks5::{
    failure_reply_code, host_text, method_selection, method_selection_bytes, parse, parse_request,
    reply, reply_bytes, Failure, ATYP_DOMAIN, CMD_CONNECT, MIN_GREETING_LEN, MIN_REQUEST_LEN,
    READ_BUFFER_LEN, REPLY_COMMAND_NOT_SUPPORTED, REPLY_CONNECTION_REFUSED, REPLY_SUCCEEDED,
    SOCKS_VERSION,
};
use vstd::prelude::*;

verus! {

/// How a connection ended.
#[derive(Clone, Copy, Debug, PartialEq, Eq, Structural)]
pub enum Outcome {
    /// The relay ran and one of its directions finished.
    Completed,
    /// The connection was given up before the relay.
    Failed(Failure),
}

/// Where a connection stands. Each phase but the last waits for the outcome
/// of one action.
#[derive(Clone, Copy, Debug, PartialEq, Eq, Structural)]
pub enum Phase {
    /// Waiting for the client's greeting.
    AwaitGreeting,
    /// Writing the method selection.
    SendingMethod,
    /// Waiting for the client's request.
    AwaitRequest,
    /// Writing the reply that tells the client why it is turned away.
    Rejecting(Failure),
    /// Waiting for the network client to open the tunneled stream.
    Connecting,
    /// Writing the reply that tells the client that the stream is open.
    Confirming,
    /// Copying bytes in both directions.
    Relaying,
    /// Done; the sockets are to be dropped.
    Closed(Outcome),
}

/// One of the two directions of the relay.
#[derive(Clone, Copy, Debug, PartialEq, Eq, Structural)]
pub enum Direction {
    ClientToNetwork,
    NetworkToClient,
}

/// What happened to the action last asked for.
#[derive(Debug, PartialEq, Eq)]
pub enum Event {
    /// A read from the client returned these bytes (none at end of stream).
    Received(Vec<u8>),
    /// All bytes of a write reached the client.
    Sent,
    /// A read from or a write to the client failed.
    IoFailed,
    /// The tunneled stream is open.
    Connected,
    /// The network client could not open the tunneled stream.
    ConnectFailed,
    /// One direction of the relay finished, at end of stream or with an error.
    RelayEnded { direction: Direction, failed: bool },
}

/// An event as a mathematical value.
pub enum EventView {
    Received(Seq<u8>),
    Sent,
    IoFailed,
    Connected,
    ConnectFailed,
    RelayEnded { direction: Direction, failed: bool },
}

/// What to do next.
#[derive(Debug, PartialEq, Eq)]
pub enum Action {
    /// Read once from the client, at most `limit` bytes.
    Receive { limit: usize },
    /// Write all of these bytes to the client.
    Send(Vec<u8>),
    /// Ask the network client for a stream to this host and port.
    Connect { host: String, port: u16 },
    /// Copy both directions at once until either of them finishes.
    Relay,
    /// Drop both sockets, together with whatever is still in flight.
    Close,
}

/// An action as a mathematical value.
pub enum ActionView {
    Receive { limit: usize },
    Send(Seq<u8>),
    Connect { host: Seq<char>, port: u16 },
    Relay,
    Close,
}

impl View for Event {
    type V = EventView;

    open spec fn view(&self) -> EventView {
        match self {
            Event::Received(data) => EventView::Received(data@),
            Event::Sent => EventView::Sent,
            Event::IoFailed => EventView::IoFailed,
            Event::Connected => EventView::Connected,
            Event::ConnectFailed => EventView::ConnectFailed,
            Event::RelayEnded { direction, failed } => EventView::RelayEnded {
                direction: *direction,
                failed: *failed,
            },
        }
    }
}

impl View for Action {
    type V = ActionView;

    open spec fn view(&self) -> ActionView {
        match self {
            Action::Receive { limit } => ActionView::Receive { limit: *limit },
            Action::Send(bytes) => ActionView::Send(bytes@),
            Action::Connect { host, port } => ActionView::Connect { host: host@, port: *port },
            Action::Relay => ActionView::Relay,
            Action::Close => ActionView::Close,
        }
    }
}

/// The one read that every connection starts with, and that follows the
/// method selection.
pub open spec fn receive() -> ActionView {
    ActionView::Receive { limit: READ_BUFFER_LEN }
}

/// Giving up without a word to the client.
pub open spec fn fail(failure: Failure) -> (Phase, ActionView) {
    (Phase::Closed(Outcome::Failed(failure)), ActionView::Close)
}

/// Giving up for `failure`: with the reply that the protocol has for it, if
/// it has one, and silently otherwise.
pub open spec fn refuse(failure: Failure) -> (Phase, ActionView) {
    match failure_reply_code(failure) {
        Some(code) => (Phase::Rejecting(failure), ActionView::Send(reply_bytes(code))),
        None => fail(failure),
    }
}

/// The transition function: the phase that follows `phase` on `event`, and
/// the action to perform.
///
/// A failed read or write closes the connection, whatever was being sent. An
/// event that does not answer the pending action closes it too. `Closed`
/// is final.
pub open spec fn step(phase: Phase, event: EventView) -> (Phase, ActionView) {
    match phase {
        Phase::AwaitGreeting => match event {
            EventView::Received(data) => if data.len() < MIN_GREETING_LEN {
                fail(Failure::InvalidHandshake)
            } else {
                (Phase::SendingMethod, ActionView::Send(method_selection_bytes()))
            },
            EventView::IoFailed => fail(Failure::Io),
            _ => fail(Failure::UnexpectedEvent),
        },
        Phase::SendingMethod => match event {
            EventView::Sent => (Phase::AwaitRequest, receive()),
            EventView::IoFailed => fail(Failure::Io),
            _ => fail(Failure::UnexpectedEvent),
        },
        Phase::AwaitRequest => match event {
            EventView::Received(data) => match parse(data) {
                Ok(request) => (
                    Phase::Connecting,
                    ActionView::Connect { host: host_text(request), port: request.port },
                ),
                Err(failure) => refuse(failure),
            },
            EventView::IoFailed => fail(Failure::Io),
            _ => fail(Failure::UnexpectedEvent),
        },
        Phase::Rejecting(failure) => match event {
            EventView::Sent => fail(failure),
            EventView::IoFailed => fail(Failure::Io),
            _ => fail(Failure::UnexpectedEvent),
        },
        Phase::Connecting => match event {
            EventView::Connected => (
                Phase::Confirming,
                ActionView::Send(reply_bytes(REPLY_SUCCEEDED)),
            ),
            EventView::ConnectFailed => refuse(Failure::ConnectFailed),
            _ => fail(Failure::UnexpectedEvent),
        },
        Phase::Confirming => match event {
            EventView::Sent => (Phase::Relaying, ActionView::Relay),
            EventView::IoFailed => fail(Failure::Io),
            _ => fail(Failure::UnexpectedEvent),
        },
        Phase::Relaying => match event {
            EventView::RelayEnded { .. } => (
                Phase::Closed(Outcome::Completed),
                ActionView::Close,
            ),
            _ => fail(Failure::UnexpectedEvent),
        },
        Phase::Closed(outcome) => (Phase::Closed(outcome), ActionView::Close),
    }
}

/// How far a phase is from the start of a connection.
pub open spec fn progress(phase: Phase) -> nat {
    match phase {
        Phase::AwaitGreeting => 0,
        Phase::SendingMethod => 1,
        Phase::AwaitRequest => 2,
        Phase::Connecting => 3,
        Phase::Confirming => 4,
        Phase::Relaying => 5,
        Phase::Rejecting(_) => 6,
        Phase::Closed(_) => 7,
    }
}

/// The phase reached from `phase` after all of `events`, in order.
pub open spec fn run(phase: Phase, events: Seq<EventView>) -> Phase
    decreases events.len(),
{
    if events.len() == 0 {
        phase
    } else {
        step(run(phase, events.drop_last()), events.last()).0
    }
}

/// Every event moves an open connection forward, and only a closed one
/// stays where it is.
pub proof fn lemma_step_advances(phase: Phase, event: EventView)
    ensures
        phase is Closed ==> step(phase, event) == (phase, ActionView::Close),
        !(phase is Closed) ==> progress(step(phase, event).0) > progress(phase),
{
}

/// No connection stays open for more than seven events, whatever they are.
pub proof fn lemma_closes_within_seven(events: Seq<EventView>)
    requires
        events.len() >= 7,
    ensures
        run(Phase::AwaitGreeting, events) is Closed,
{
    lemma_run_progress(Phase::AwaitGreeting, events);
}

/// After `n` events a connection has made at least `n` steps of progress or
/// is closed.
pub proof fn lemma_run_progress(phase: Phase, events: Seq<EventView>)
    ensures
        run(phase, events) is Closed || progress(run(phase, events)) >= progress(phase)
            + events.len(),
    decreases events.len(),
{
    if events.len() > 0 {
        lemma_run_progress(phase, events.drop_last());
        lemma_step_advances(run(phase, events.drop_last()), events.last());
    }
}

/// A greeting of fewer than two bytes closes the connection at once, and
/// nothing is written to the client.
pub proof fn lemma_short_greeting(data: Seq<u8>)
    requires
        data.len() < MIN_GREETING_LEN,
    ensures
        step(Phase::AwaitGreeting, EventView::Received(data)) == fail(Failure::InvalidHandshake),
{
}

/// A request of fewer than ten bytes closes the connection at once, and
/// nothing is written to the client.
pub proof fn lemma_short_request(data: Seq<u8>)
    requires
        data.len() < MIN_REQUEST_LEN,
    ensures
        step(Phase::AwaitRequest, EventView::Received(data)) == fail(Failure::InvalidRequest),
{
}

/// A request with any command other than CONNECT is answered with exactly
/// the bytes `05 07 00 01 00 00 00 00 00 00`, and the connection closes as
/// soon as they are written.
pub proof fn lemma_command_refused(data: Seq<u8>)
    requires
        data.len() >= MIN_REQUEST_LEN,
        data[0] == SOCKS_VERSION,
        data[1] != CMD_CONNECT,
    ensures
        step(Phase::AwaitRequest, EventView::Received(data)) == (
            Phase::Rejecting(Failure::UnsupportedCommand(data[1])),
            ActionView::Send(seq![5u8, 7u8, 0u8, 1u8, 0u8, 0u8, 0u8, 0u8, 0u8, 0u8]),
        ),
        step(Phase::Rejecting(Failure::UnsupportedCommand(data[1])), EventView::Sent) == fail(
            Failure::UnsupportedCommand(data[1]),
        ),
{
    assert(reply_bytes(REPLY_COMMAND_NOT_SUPPORTED) =~= seq![
        5u8,
        7u8,
        0u8,
        1u8,
        0u8,
        0u8,
        0u8,
        0u8,
        0u8,
        0u8,
    ]);
}

/// A domain name whose length byte reaches past the bytes received closes the
/// connection for that reason, and nothing is written to the client.
pub proof fn lemma_domain_length_refused(data: Seq<u8>)
    requires
        data.len() >= MIN_REQUEST_LEN,
        data[0] == SOCKS_VERSION,
        data[1] == CMD_CONNECT,
        data[3] == ATYP_DOMAIN,
        data.len() < 5 + data[4] + 2,
    ensures
        step(Phase::AwaitRequest, EventView::Received(data)) == fail(
            Failure::InvalidDomainLength,
        ),
{
}

/// A request with another version than 5 closes the connection without a
/// reply.
pub proof fn lemma_version_refused(data: Seq<u8>)
    requires
        data.len() >= MIN_REQUEST_LEN,
        data[0] != SOCKS_VERSION,
    ensures
        step(Phase::AwaitRequest, EventView::Received(data)) == fail(
            Failure::UnsupportedVersion(data[0]),
        ),
{
}

/// Once either direction of the relay has finished, cleanly or not, the
/// next step drops the whole connection: the other direction is not waited
/// for.
pub proof fn lemma_relay_ends_together(direction: Direction, failed: bool)
    ensures
        step(Phase::Relaying, EventView::RelayEnded { direction, failed }) == (
            Phase::Closed(Outcome::Completed),
            ActionView::Close,
        ),
{
}

/// A failed connect is answered with "connection refused", and the
/// connection closes as soon as the reply is written.
pub proof fn lemma_connect_failure_refused()
    ensures
        step(Phase::Connecting, EventView::ConnectFailed) == (
            Phase::Rejecting(Failure::ConnectFailed),
            ActionView::Send(reply_bytes(REPLY_CONNECTION_REFUSED)),
        ),
        step(Phase::Rejecting(Failure::ConnectFailed), EventView::Sent) == fail(
            Failure::ConnectFailed,
        ),
{
}

/// One accepted connection.
#[derive(Debug)]
pub struct Connection {
    phase: Phase,
}

impl View for Connection {
    type V = Phase;

    closed spec fn view(&self) -> Phase {
        self.phase
    }
}

/// Builds the action that gives up for `failure`, and the phase that goes
/// with it.
fn refuse_with(failure: Failure) -> (r: (Phase, Action))
    ensures
        (r.0, r.1@) == refuse(failure),
{
    match failure.reply_code() {
        Some(code) => (Phase::Rejecting(failure), Action::Send(reply(code))),
        None => (Phase::Closed(Outcome::Failed(failure)), Action::Close),
    }
}

impl Connection {
    /// A connection that was just accepted, and the read to start it with.
    pub fn accept() -> (r: (Connection, Action))
        ensures
            r.0@ == Phase::AwaitGreeting,
            r.1@ == receive(),
    {
        (Connection { phase: Phase::AwaitGreeting }, Action::Receive { limit: READ_BUFFER_LEN })
    }

    /// The phase that the connection is in.
    pub fn phase(&self) -> (phase: Phase)
        ensures
            phase == self@,
    {
        self.phase
    }

    /// True once the connection is closed.
    pub fn is_closed(&self) -> (closed: bool)
        ensures
            closed == (self@ is Closed),
    {
        match self.phase {
            Phase::Closed(_) => true,
            _ => false,
        }
    }

    /// Takes the outcome of the pending action and says what to do next.
    pub fn step(&mut self, event: Event) -> (action: Action)
        ensures
            (final(self)@, action@) == step(old(self)@, event@),
    {
        let failed = (Phase::Closed(Outcome::Failed(Failure::UnexpectedEvent)), Action::Close);
        let (next, action) = match self.phase {
            Phase::AwaitGreeting => match event {
                Event::Received(data) => if data.len() < MIN_GREETING_LEN {
                    (Phase::Closed(Outcome::Failed(Failure::InvalidHandshake)), Action::Close)
                } else {
                    (Phase::SendingMethod, Action::Send(method_selection()))
                },
                Event::IoFailed => (Phase::Closed(Outcome::Failed(Failure::Io)), Action::Close),
                _ => failed,
            },
            Phase::SendingMethod => match event {
                Event::Sent => (Phase::AwaitRequest, Action::Receive { limit: READ_BUFFER_LEN }),
                Event::IoFailed => (Phase::Closed(Outcome::Failed(Failure::Io)), Action::Close),
                _ => failed,
            },
            Phase::AwaitRequest => match event {
                Event::Received(data) => match parse_request(data.as_slice()) {
                    Ok(request) => (
                        Phase::Connecting,
                        Action::Connect { host: request.host(), port: request.port() },
                    ),
                    Err(failure) => refuse_with(failure),
                },
                Event::IoFailed => (Phase::Closed(Outcome::Failed(Failure::Io)), Action::Close),
                _ => failed,
            },
            Phase::Rejecting(failure) => match event {
                Event::Sent => (Phase::Closed(Outcome::Failed(failure)), Action::Close),
                Event::IoFailed => (Phase::Closed(Outcome::Failed(Failure::Io)), Action::Close),
                _ => failed,
            },
            Phase::Connecting => match event {
                Event::Connected => (Phase::Confirming, Action::Send(reply(REPLY_SUCCEEDED))),
                Event::ConnectFailed => refuse_with(Failure::ConnectFailed),
                _ => failed,
            },
            Phase::Confirming => match event {
                Event::Sent => (Phase::Relaying, Action::Relay),
                Event::IoFailed => (Phase::Closed(Outcome::Failed(Failure::Io)), Action::Close),
                _ => failed,
            },
            Phase::Relaying => match event {
                Event::RelayEnded { .. } => (Phase::Closed(Outcome::Completed), Action::Close),
                _ => failed,
            },
            Phase::Closed(outcome) => (Phase::Closed(outcome), Action::Close),
        };
        self.phase = next;
        action
    }
}

} // verus!
