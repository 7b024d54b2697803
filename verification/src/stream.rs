//! The connection manager: which socket a client sends its next query on.
//!
//! The library never opens, probes or closes a socket itself. It holds the
//! socket that the program gives it, and decides: `connect` takes what has
//! just happened (an event) and says what the program has to do next (an
//! action). A connection that is not persistent is opened anew for every
//! query. A persistent one is probed before it is used again, and opened
//! anew only when the probe fails.

use vstd::prelude::*;

verus! {

/// Seconds that a read may wait for the peer before the call fails.
pub const READ_TIMEOUT_SECS: u64 = 5;

/// The three states of a connection.
#[derive(Clone, Copy, Debug, PartialEq, Eq, Structural)]
pub enum ConnState {
    /// No socket.
    Unconnected,
    /// A socket that serves one query.
    ConnectedEphemeral,
    /// A socket that is kept for the queries to come.
    ConnectedPersistent,
}

/// What has just happened to a connection.
pub enum ConnectEvent<S> {
    /// A query is about to be sent.
    Start,
    /// The probe of the socket at hand succeeded.
    ProbeOk,
    /// The probe of the socket at hand failed.
    ProbeFailed,
    /// A new socket was opened to the target.
    Opened(S),
    /// No socket could be opened to the target.
    OpenFailed,
}

/// What the program has to do next.
#[derive(Clone, Copy, Debug, PartialEq, Eq, Structural)]
pub enum ConnectAction {
    /// Probe the socket at hand with a write of no bytes, and come back with
    /// `ProbeOk` or `ProbeFailed`.
    Probe,
    /// Open a socket to the target, and come back with `Opened` or
    /// `OpenFailed`.
    Open,
    /// Set the read timeout on the socket at hand and send the query on it.
    Send,
    /// Give up: the call fails with the transport's error.
    Fail,
}

/// A connection as the values it holds.
pub struct StreamView<S> {
    pub socket: Option<S>,
    pub persist: bool,
    pub target: Seq<char>,
}

/// The state of a connection.
pub open spec fn state_of<S>(s: StreamView<S>) -> ConnState {
    if s.socket is None {
        ConnState::Unconnected
    } else if s.persist {
        ConnState::ConnectedPersistent
    } else {
        ConnState::ConnectedEphemeral
    }
}

/// The connection without its socket.
pub open spec fn dropped<S>(s: StreamView<S>) -> StreamView<S> {
    StreamView { socket: None, persist: s.persist, target: s.target }
}

/// The connection with `socket` as its socket.
pub open spec fn holding<S>(s: StreamView<S>, socket: S) -> StreamView<S> {
    StreamView { socket: Some(socket), persist: s.persist, target: s.target }
}

/// The connection after an event, and what to do next.
///
/// Before a query, a persistent connection that has a socket probes it; any
/// other drops what it has and opens anew. A probe that succeeds lets the
/// socket be used again; one that fails has it dropped and a new one opened.
pub open spec fn connect_step<S>(s: StreamView<S>, event: ConnectEvent<S>) -> (
    StreamView<S>,
    ConnectAction,
) {
    match event {
        ConnectEvent::Start => if s.persist && s.socket is Some {
            (s, ConnectAction::Probe)
        } else {
            (dropped(s), ConnectAction::Open)
        },
        ConnectEvent::ProbeOk => if s.socket is Some {
            (s, ConnectAction::Send)
        } else {
            (s, ConnectAction::Open)
        },
        ConnectEvent::ProbeFailed => (dropped(s), ConnectAction::Open),
        ConnectEvent::Opened(socket) => (holding(s, socket), ConnectAction::Send),
        ConnectEvent::OpenFailed => (dropped(s), ConnectAction::Fail),
    }
}

/// The socket to a server, if there is one, with the address of the server
/// and whether the socket is kept between queries. `S` is the program's
/// socket type; the library only holds it.
#[derive(Debug)]
pub struct Stream<S> {
    stream: Option<S>,
    persist: bool,
    target: String,
}

impl<S> View for Stream<S> {
    type V = StreamView<S>;

    closed spec fn view(&self) -> StreamView<S> {
        StreamView { socket: self.stream, persist: self.persist, target: self.target@ }
    }
}

impl<S> Stream<S> {
    /// A connection to the default address, `localhost:4304`, without a
    /// socket and not persistent.
    pub fn new() -> (s: Stream<S>)
        ensures
            s@.socket is None,
            !s@.persist,
            s@.target == "localhost:4304"@,
    {
        Stream { stream: None, persist: false, target: "localhost:4304".to_owned() }
    }

    /// Takes an event and says what to do next.
    pub fn connect(&mut self, event: ConnectEvent<S>) -> (action: ConnectAction)
        ensures
            (final(self)@, action) == connect_step(old(self)@, event),
    {
        match event {
            ConnectEvent::Start => {
                if self.persist && self.stream.is_some() {
                    ConnectAction::Probe
                } else {
                    self.stream = None;
                    ConnectAction::Open
                }
            },
            ConnectEvent::ProbeOk => {
                if self.stream.is_some() {
                    ConnectAction::Send
                } else {
                    ConnectAction::Open
                }
            },
            ConnectEvent::ProbeFailed => {
                self.stream = None;
                ConnectAction::Open
            },
            ConnectEvent::Opened(socket) => {
                self.stream = Some(socket);
                ConnectAction::Send
            },
            ConnectEvent::OpenFailed => {
                self.stream = None;
                ConnectAction::Fail
            },
        }
    }

    /// Sets whether the socket is kept between queries, and drops the socket
    /// at hand, which was opened under the old setting.
    pub fn set_persistence(&mut self, persist: bool)
        ensures
            final(self)@ == (StreamView::<S> {
                socket: None,
                persist,
                target: old(self)@.target,
            }),
    {
        self.persist = persist;
        self.stream = None;
    }

    /// Sets the address of the server, and drops the socket at hand, which
    /// leads to the old address.
    pub fn set_target(&mut self, target: &str)
        ensures
            final(self)@ == (StreamView::<S> {
                socket: None,
                persist: old(self)@.persist,
                target: target@,
            }),
    {
        self.target = target.to_owned();
        self.stream = None;
    }

    /// The socket at hand, for the program to write to and read from.
    pub fn get(&mut self) -> (socket: Option<&mut S>)
        ensures
            old(self)@.socket is None ==> socket is None && final(self)@ == old(self)@,
            old(self)@.socket is Some ==> socket is Some && *socket.unwrap() == old(
                self,
            )@.socket.unwrap() && final(self)@ == holding(old(self)@, *final(socket.unwrap())),
    {
        self.stream.as_mut()
    }

    /// Takes the socket out, after an error on it: the next query opens a
    /// new one.
    pub fn take(&mut self) -> (socket: Option<S>)
        ensures
            socket == old(self)@.socket,
            final(self)@ == dropped(old(self)@),
    {
        self.stream.take()
    }

    /// True where the socket is kept between queries.
    pub fn get_persistence(&self) -> (persist: bool)
        ensures
            persist == self@.persist,
    {
        self.persist
    }

    /// The address of the server.
    pub fn target(&self) -> (target: &str)
        ensures
            target@ == self@.target,
    {
        self.target.as_str()
    }

    /// True where there is a socket.
    pub fn is_connected(&self) -> (connected: bool)
        ensures
            connected == (self@.socket is Some),
    {
        self.stream.is_some()
    }

    /// The state of the connection.
    pub fn state(&self) -> (state: ConnState)
        ensures
            state == state_of(self@),
    {
        if self.stream.is_none() {
            ConnState::Unconnected
        } else if self.persist {
            ConnState::ConnectedPersistent
        } else {
            ConnState::ConnectedEphemeral
        }
    }
}

impl<S> Clone for Stream<S> {
    /// A connection with the same target and persistence, and no socket: a
    /// socket is never shared.
    fn clone(&self) -> (s: Stream<S>)
        ensures
            s@ == dropped(self@),
    {
        Stream { stream: None, persist: self.persist, target: self.target.clone() }
    }
}

impl<S> Default for Stream<S> {
    /// The connection that `new` gives.
    fn default() -> (s: Stream<S>)
        ensures
            s@.socket is None,
            !s@.persist,
            s@.target == "localhost:4304"@,
    {
        Stream::new()
    }
}

/// Persistence reuse: a persistent connection that has a socket probes it
/// before the next query and opens nothing; when the probe succeeds, the
/// query goes out on the same socket, and the connection is as it was. Only
/// a probe that fails has a new socket opened.
pub proof fn lemma_persistent_reuse<S>(s: StreamView<S>)
    requires
        s.persist,
        s.socket is Some,
    ensures
        connect_step(s, ConnectEvent::Start) == (s, ConnectAction::Probe),
        connect_step(s, ConnectEvent::ProbeOk) == (s, ConnectAction::Send),
        connect_step(s, ConnectEvent::ProbeFailed) == (dropped(s), ConnectAction::Open),
{
}

/// After a socket was opened for one query, a persistent connection holds it
/// for the next: the second query starts with a probe of that very socket.
pub proof fn lemma_second_call_reuses<S>(s: StreamView<S>, socket: S)
    requires
        s.persist,
    ensures
        ({
            let first = connect_step(s, ConnectEvent::Opened(socket)).0;
            let second = connect_step(first, ConnectEvent::Start);
            let sent = connect_step(second.0, ConnectEvent::ProbeOk);
            &&& second.1 == ConnectAction::Probe
            &&& sent.1 == ConnectAction::Send
            &&& sent.0.socket == Some(socket)
        }),
{
}

/// A connection that is not persistent never uses a socket twice: before
/// every query it drops what it has and opens anew.
pub proof fn lemma_ephemeral_reopens<S>(s: StreamView<S>)
    requires
        !s.persist,
    ensures
        connect_step(s, ConnectEvent::Start) == (dropped(s), ConnectAction::Open),
{
}

} // verus!
