//! Connection states, tracked peers and the events a transport reports.
use vstd::prelude::*;

verus! {

/// Where a connection stands in its life. A connection only ever moves
/// forward: `Connecting`, then `Connected`, then `Disconnected`.
#[derive(Clone, Copy, Debug, PartialEq, Eq, Structural)]
pub enum ConnectionState {
    Connecting,
    Connected,
    Disconnected,
}

impl ConnectionState {
    /// Position of the state in the forward order.
    pub open spec fn rank(self) -> nat {
        match self {
            ConnectionState::Connecting => 0,
            ConnectionState::Connected => 1,
            ConnectionState::Disconnected => 2,
        }
    }

    /// The state a connection in state `self` has after the transport
    /// reported `reported`: the later of the two.
    pub open spec fn later_of(self, reported: ConnectionState) -> ConnectionState {
        if reported.rank() > self.rank() {
            reported
        } else {
            self
        }
    }

    /// Applies a reported state to the current one without ever moving
    /// backwards.
    pub fn advance(self, reported: ConnectionState) -> (next: ConnectionState)
        ensures
            next == self.later_of(reported),
    {
        match (self, reported) {
            (ConnectionState::Connecting, _) => reported,
            (ConnectionState::Connected, ConnectionState::Disconnected) => reported,
            _ => self,
        }
    }

    /// Whether the connection has ended.
    pub fn is_disconnected(self) -> (ended: bool)
        ensures
            ended == (self == ConnectionState::Disconnected),
    {
        match self {
            ConnectionState::Disconnected => true,
            _ => false,
        }
    }
}

/// What a transport says of a connection, in finer steps than the
/// tracker counts.
#[derive(Clone, Copy, Debug, PartialEq, Eq, Structural)]
pub enum TransportState {
    /// The connection does not exist, or has been closed already.
    Closed,
    /// The handshake is under way.
    Connecting,
    /// The handshake is done and a route to the peer is being sought.
    FindingRoute,
    /// The connection is up.
    Connected,
    /// The peer has closed the connection.
    ClosedByPeer,
    /// The connection broke on this side: a timeout or a transport error.
    ProblemDetectedLocally,
}

impl TransportState {
    /// The tracker's state for what the transport says: a connection is
    /// `Connecting` until it is up, and `Disconnected` once it is gone,
    /// however it went.
    pub open spec fn folded(self) -> ConnectionState {
        match self {
            TransportState::Connecting | TransportState::FindingRoute => ConnectionState::Connecting,
            TransportState::Connected => ConnectionState::Connected,
            TransportState::Closed
            | TransportState::ClosedByPeer
            | TransportState::ProblemDetectedLocally => ConnectionState::Disconnected,
        }
    }

    /// The tracker's state for what the transport says.
    pub fn connection_state(self) -> (state: ConnectionState)
        ensures
            state == self.folded(),
    {
        match self {
            TransportState::Connecting => ConnectionState::Connecting,
            TransportState::FindingRoute => ConnectionState::Connecting,
            TransportState::Connected => ConnectionState::Connected,
            TransportState::Closed => ConnectionState::Disconnected,
            TransportState::ClosedByPeer => ConnectionState::Disconnected,
            TransportState::ProblemDetectedLocally => ConnectionState::Disconnected,
        }
    }
}

/// One remote session as the tracker knows it.
#[derive(Clone, Copy, Debug, PartialEq, Eq, Structural)]
pub struct PeerConnection {
    /// The transport's handle of the connection.
    pub handle: u64,
    /// The current state.
    pub state: ConnectionState,
    /// When the entry was created, in the caller's clock.
    pub created_at: u64,
}

impl PeerConnection {
    /// A fresh entry: every connection starts out `Connecting`.
    pub open spec fn opened(handle: u64, now: u64) -> PeerConnection {
        PeerConnection { handle, state: ConnectionState::Connecting, created_at: now }
    }

    /// The same connection after the transport reported `reported`.
    pub open spec fn advanced(self, reported: ConnectionState) -> PeerConnection {
        PeerConnection { state: self.state.later_of(reported), ..self }
    }
}

/// What polling the transport can yield.
#[derive(Clone, Copy, Debug, PartialEq, Eq, Structural)]
pub enum ConnectionEvent {
    /// A remote peer asks to connect; it is held by the transport until
    /// it is accepted or rejected.
    IncomingRequest { peer: u64 },
    /// The transport saw a connection change state.
    StatusChanged { peer: u64, old_state: ConnectionState, new_state: ConnectionState },
}

impl ConnectionEvent {
    /// The event for a change of state that the transport reports.
    pub fn status_changed(peer: u64, old_state: TransportState, new_state: TransportState) -> (event:
        ConnectionEvent)
        ensures
            event == (ConnectionEvent::StatusChanged {
                peer,
                old_state: old_state.folded(),
                new_state: new_state.folded(),
            }),
    {
        ConnectionEvent::StatusChanged {
            peer,
            old_state: old_state.connection_state(),
            new_state: new_state.connection_state(),
        }
    }

    /// The connection the event is about.
    pub open spec fn subject(self) -> u64 {
        match self {
            ConnectionEvent::IncomingRequest { peer } => peer,
            ConnectionEvent::StatusChanged { peer, .. } => peer,
        }
    }

    /// The connection the event is about.
    pub fn peer(&self) -> (handle: u64)
        ensures
            handle == self.subject(),
    {
        match self {
            ConnectionEvent::IncomingRequest { peer } => *peer,
            ConnectionEvent::StatusChanged { peer, .. } => *peer,
        }
    }
}

} // verus!
