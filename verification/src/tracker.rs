//! The connection state tracker: which peers are known and in which state.
//!
//! The tracker is a mapping from connection handle to [`PeerConnection`].
//! A server keeps any number of peers, a client keeps one. Entries are
//! created by [`ConnectionTracker::track`], moved forward by
//! [`ConnectionTracker::apply`] and removed, once disconnected, by
//! [`ConnectionTracker::purge_disconnected`] at the start of the next tick.
use crate::connection::{ConnectionEvent, ConnectionState, PeerConnection};
use vstd::prelude::*;

verus! {

/// Why a connection could not be entered into the tracker.
#[derive(Clone, Copy, Debug, PartialEq, Eq, Structural)]
pub enum TrackError {
    /// The handle is already tracked. An entry is never reused for a new
    /// attempt, not even a disconnected one that awaits its purge.
    HandleInUse,
    /// The tracker holds a single connection and already has one.
    SlotOccupied,
}

/// What an event did to the tracker.
#[derive(Clone, Copy, Debug, PartialEq, Eq, Structural)]
pub enum Applied {
    /// An incoming request: nothing was entered, the caller decides
    /// whether to accept or reject it.
    AwaitsDecision,
    /// The connection moved forward from `from` to `to`.
    Moved { from: ConnectionState, to: ConnectionState },
    /// The connection is tracked and stays in `state`: the report was a
    /// repetition or came too late.
    Kept { state: ConnectionState },
    /// The handle is not tracked. The event is ignored; it is worth a log
    /// line and nothing more.
    UnknownPeer,
}

/// Whether a new connection `handle` can be entered into `peers`.
pub open spec fn admits(peers: Map<u64, PeerConnection>, single: bool, handle: u64) -> Result<
    (),
    TrackError,
> {
    if peers.contains_key(handle) {
        Err(TrackError::HandleInUse)
    } else if single && peers.len() > 0 {
        Err(TrackError::SlotOccupied)
    } else {
        Ok(())
    }
}

/// The mapping after one event.
pub open spec fn apply_event(peers: Map<u64, PeerConnection>, event: ConnectionEvent) -> Map<
    u64,
    PeerConnection,
> {
    match event {
        ConnectionEvent::IncomingRequest { .. } => peers,
        ConnectionEvent::StatusChanged { peer, new_state, .. } => {
            if peers.contains_key(peer) {
                peers.insert(peer, peers[peer].advanced(new_state))
            } else {
                peers
            }
        },
    }
}

/// What one event does to the mapping, as reported to the caller.
pub open spec fn outcome_of(peers: Map<u64, PeerConnection>, event: ConnectionEvent) -> Applied {
    match event {
        ConnectionEvent::IncomingRequest { .. } => Applied::AwaitsDecision,
        ConnectionEvent::StatusChanged { peer, new_state, .. } => {
            if !peers.contains_key(peer) {
                Applied::UnknownPeer
            } else if new_state.rank() > peers[peer].state.rank() {
                Applied::Moved { from: peers[peer].state, to: new_state }
            } else {
                Applied::Kept { state: peers[peer].state }
            }
        },
    }
}

/// The mapping after a run of events, applied first to last.
pub open spec fn apply_all(peers: Map<u64, PeerConnection>, events: Seq<ConnectionEvent>) -> Map<
    u64,
    PeerConnection,
>
    decreases events.len(),
{
    if events.len() == 0 {
        peers
    } else {
        apply_event(apply_all(peers, events.drop_last()), events.last())
    }
}

/// The mapping without its disconnected entries.
pub open spec fn purged(peers: Map<u64, PeerConnection>) -> Map<u64, PeerConnection> {
    Map::new(
        |h: u64| peers.contains_key(h) && peers[h].state != ConnectionState::Disconnected,
        |h: u64| peers[h],
    )
}

spec fn holds(peers: Seq<PeerConnection>, handle: u64) -> bool {
    exists|i: int| 0 <= i < peers.len() && (#[trigger] peers[i]).handle == handle
}

spec fn slot(peers: Seq<PeerConnection>, handle: u64) -> int {
    choose|i: int| 0 <= i < peers.len() && (#[trigger] peers[i]).handle == handle
}

spec fn distinct(peers: Seq<PeerConnection>) -> bool {
    forall|i: int, j: int|
        0 <= i < j < peers.len() ==> (#[trigger] peers[i]).handle != (#[trigger] peers[j]).handle
}

spec fn as_map(peers: Seq<PeerConnection>) -> Map<u64, PeerConnection> {
    Map::new(|h: u64| holds(peers, h), |h: u64| peers[slot(peers, h)])
}

spec fn occurs(peers: Seq<PeerConnection>, upto: int, peer: PeerConnection) -> bool {
    exists|j: int| 0 <= j < upto && j < peers.len() && #[trigger] peers[j] == peer
}

spec fn place(peers: Seq<PeerConnection>, upto: int, peer: PeerConnection) -> int {
    choose|j: int| 0 <= j < upto && j < peers.len() && #[trigger] peers[j] == peer
}

proof fn lemma_entries(peers: Seq<PeerConnection>)
    requires
        distinct(peers),
    ensures
        forall|i: int|
            0 <= i < peers.len() ==> as_map(peers).contains_key((#[trigger] peers[i]).handle)
                && as_map(peers)[peers[i].handle] == peers[i],
        forall|h: u64| as_map(peers).contains_key(h) ==> (#[trigger] as_map(peers)[h]).handle == h,
{
    assert forall|i: int| 0 <= i < peers.len() implies as_map(peers).contains_key(
        (#[trigger] peers[i]).handle,
    ) && as_map(peers)[peers[i].handle] == peers[i] by {
        // No other index holds the handle, so its slot is `i`.
        assert(slot(peers, peers[i].handle) == i);
    }
    assert forall|h: u64| as_map(peers).contains_key(h) implies (#[trigger] as_map(
        peers,
    )[h]).handle == h by {
        assert(peers[slot(peers, h)].handle == h);
    }
}

proof fn lemma_count(peers: Seq<PeerConnection>)
    requires
        distinct(peers),
    ensures
        as_map(peers).dom().finite(),
        as_map(peers).len() == peers.len(),
{
    let hs = peers.map_values(|p: PeerConnection| p.handle);
    assert(hs.no_duplicates());
    assert forall|h: u64| as_map(peers).dom().contains(h) <==> hs.to_set().contains(h) by {
        if holds(peers, h) {
            assert(hs[slot(peers, h)] == h);
        }
        if hs.contains(h) {
            assert(peers[hs.index_of(h)].handle == h);
        }
    }
    assert(as_map(peers).dom() =~= hs.to_set());
    hs.unique_seq_to_set();
    vstd::seq_lib::seq_to_set_is_finite(hs);
}

proof fn lemma_view_is(peers: Seq<PeerConnection>, target: Map<u64, PeerConnection>)
    requires
        distinct(peers),
        forall|i: int|
            0 <= i < peers.len() ==> target.contains_key((#[trigger] peers[i]).handle)
                && target[peers[i].handle] == peers[i],
        forall|h: u64| target.contains_key(h) ==> holds(peers, h),
    ensures
        as_map(peers) == target,
{
    lemma_entries(peers);
    assert forall|h: u64| as_map(peers).contains_key(h) implies target.contains_key(h)
        && target[h] == as_map(peers)[h] by {
        assert(peers[slot(peers, h)].handle == h);
    }
}

/// The peers a loop knows, by connection handle.
pub struct ConnectionTracker {
    peers: Vec<PeerConnection>,
    single: bool,
}

impl View for ConnectionTracker {
    type V = Map<u64, PeerConnection>;

    closed spec fn view(&self) -> Map<u64, PeerConnection> {
        as_map(self.peers@)
    }
}

impl ConnectionTracker {
    /// Whether the tracker is a client's: a slot for one connection.
    pub closed spec fn is_single(&self) -> bool {
        self.single
    }

    /// The representation is sound: no handle is held twice.
    pub closed spec fn rep_ok(&self) -> bool {
        &&& distinct(self.peers@)
        &&& self.single ==> self.peers@.len() <= 1
    }

    /// The tracker's invariant: finitely many entries, each filed under
    /// its own handle, and at most one of them in a client's tracker.
    pub open spec fn wf(&self) -> bool {
        &&& self.rep_ok()
        &&& self@.dom().finite()
        &&& forall|h: u64| self@.contains_key(h) ==> (#[trigger] self@[h]).handle == h
        &&& self.is_single() ==> self@.len() <= 1
    }

    proof fn lemma_wf(&self)
        requires
            distinct(self.peers@),
            self.single ==> self.peers@.len() <= 1,
        ensures
            self.wf(),
            self@.len() == self.peers@.len(),
    {
        lemma_entries(self.peers@);
        lemma_count(self.peers@);
    }

    /// An empty tracker for a server: any number of peers.
    pub fn server() -> (tracker: ConnectionTracker)
        ensures
            tracker.wf(),
            !tracker.is_single(),
            tracker@ == Map::<u64, PeerConnection>::empty(),
    {
        let tracker = ConnectionTracker { peers: Vec::new(), single: false };
        proof {
            tracker.lemma_wf();
        }
        tracker
    }

    /// An empty tracker for a client: one connection at a time.
    pub fn client() -> (tracker: ConnectionTracker)
        ensures
            tracker.wf(),
            tracker.is_single(),
            tracker@ == Map::<u64, PeerConnection>::empty(),
    {
        let tracker = ConnectionTracker { peers: Vec::new(), single: true };
        proof {
            tracker.lemma_wf();
        }
        tracker
    }

    /// Whether this is a client's single-connection tracker.
    pub fn single(&self) -> (single: bool)
        ensures
            single == self.is_single(),
    {
        self.single
    }

    /// How many connections are tracked, disconnected ones that await
    /// their purge included.
    pub fn len(&self) -> (count: usize)
        requires
            self.wf(),
        ensures
            count == self@.len(),
    {
        proof {
            self.lemma_wf();
        }
        self.peers.len()
    }

    /// Whether no connection is tracked.
    pub fn is_empty(&self) -> (empty: bool)
        requires
            self.wf(),
        ensures
            empty == (self@.len() == 0),
    {
        proof {
            self.lemma_wf();
        }
        self.peers.len() == 0
    }

    fn find(&self, handle: u64) -> (found: Option<usize>)
        ensures
            match found {
                Some(i) => i < self.peers@.len() && self.peers@[i as int].handle == handle,
                None => !holds(self.peers@, handle),
            },
    {
        let mut i: usize = 0;
        while i < self.peers.len()
            invariant
                i <= self.peers@.len(),
                forall|j: int| 0 <= j < i ==> (#[trigger] self.peers@[j]).handle != handle,
            decreases self.peers@.len() - i,
        {
            if self.peers[i].handle == handle {
                return Some(i);
            }
            i += 1;
        }
        None
    }

    /// The tracked connection with this handle, if there is one.
    pub fn get(&self, handle: u64) -> (peer: Option<PeerConnection>)
        requires
            self.wf(),
        ensures
            peer == if self@.contains_key(handle) {
                Some(self@[handle])
            } else {
                None
            },
    {
        proof {
            lemma_entries(self.peers@);
        }
        match self.find(handle) {
            Some(i) => Some(self.peers[i]),
            None => None,
        }
    }

    /// The state of the connection with this handle, if it is tracked.
    pub fn state_of(&self, handle: u64) -> (state: Option<ConnectionState>)
        requires
            self.wf(),
        ensures
            state == if self@.contains_key(handle) {
                Some(self@[handle].state)
            } else {
                None
            },
    {
        match self.get(handle) {
            Some(peer) => Some(peer.state),
            None => None,
        }
    }

    /// Enters a new connection in state `Connecting`: an outbound attempt
    /// that the transport took on, or an incoming request that was
    /// accepted. Fails, and changes nothing, where the handle is already
    /// tracked or a client's slot is taken.
    pub fn track(&mut self, handle: u64, now: u64) -> (entered: Result<(), TrackError>)
        requires
            old(self).wf(),
        ensures
            final(self).wf(),
            final(self).is_single() == old(self).is_single(),
            entered == admits(old(self)@, old(self).is_single(), handle),
            final(self)@ == if entered.is_ok() {
                old(self)@.insert(handle, PeerConnection::opened(handle, now))
            } else {
                old(self)@
            },
    {
        proof {
            self.lemma_wf();
        }
        if self.find(handle).is_some() {
            return Err(TrackError::HandleInUse);
        }
        if self.single && self.peers.len() > 0 {
            return Err(TrackError::SlotOccupied);
        }
        let ghost before = self.peers@;
        let peer = PeerConnection { handle, state: ConnectionState::Connecting, created_at: now };
        self.peers.push(peer);
        proof {
            let after = self.peers@;
            let target = as_map(before).insert(handle, peer);
            lemma_entries(before);
            assert(distinct(after));
            assert forall|h: u64| target.contains_key(h) implies holds(after, h) by {
                let at: int = if h == handle {
                    before.len() as int
                } else {
                    slot(before, h)
                };
                assert(after[at].handle == h);
            }
            lemma_view_is(after, target);
            self.lemma_wf();
        }
        Ok(())
    }

    /// Applies one polled event. A status change moves a tracked
    /// connection forward and never back; an incoming request and a
    /// status change of an unknown handle leave the tracker as it is.
    pub fn apply(&mut self, event: ConnectionEvent) -> (outcome: Applied)
        requires
            old(self).wf(),
        ensures
            final(self).wf(),
            final(self).is_single() == old(self).is_single(),
            final(self)@ == apply_event(old(self)@, event),
            outcome == outcome_of(old(self)@, event),
    {
        proof {
            self.lemma_wf();
        }
        match event {
            ConnectionEvent::IncomingRequest { .. } => Applied::AwaitsDecision,
            ConnectionEvent::StatusChanged { peer, new_state, .. } => {
                match self.find(peer) {
                    None => Applied::UnknownPeer,
                    Some(i) => {
                        let ghost before = self.peers@;
                        let current = self.peers[i];
                        let next = current.state.advance(new_state);
                        let moved = PeerConnection {
                            handle: current.handle,
                            state: next,
                            created_at: current.created_at,
                        };
                        self.peers.set(i, moved);
                        proof {
                            let after = self.peers@;
                            let target = as_map(before).insert(peer, moved);
                            lemma_entries(before);
                            assert(distinct(after));
                            assert forall|h: u64| target.contains_key(h) implies holds(after, h) by {
                                let at: int = if h == peer {
                                    i as int
                                } else {
                                    slot(before, h)
                                };
                                assert(after[at].handle == h);
                            }
                            lemma_view_is(after, target);
                            self.lemma_wf();
                        }
                        if next == current.state {
                            Applied::Kept { state: current.state }
                        } else {
                            Applied::Moved { from: current.state, to: next }
                        }
                    },
                }
            },
        }
    }

    /// Removes the disconnected entries and says how many there were. A
    /// loop calls this at the start of a tick, so that a disconnect seen
    /// in one tick stays visible until that tick is over.
    pub fn purge_disconnected(&mut self) -> (removed: usize)
        requires
            old(self).wf(),
        ensures
            final(self).wf(),
            final(self).is_single() == old(self).is_single(),
            final(self)@ == purged(old(self)@),
            removed == old(self)@.len() - final(self)@.len(),
    {
        proof {
            self.lemma_wf();
        }
        let ghost before = self.peers@;
        let total: usize = self.peers.len();
        let mut kept: Vec<PeerConnection> = Vec::new();
        let mut i: usize = 0;
        while i < total
            invariant
                total == self.peers@.len(),
                self.peers@ == before,
                distinct(before),
                i <= total,
                kept@.len() <= i,
                distinct(kept@),
                forall|k: int|
                    0 <= k < kept@.len() ==> (#[trigger] kept@[k]).state
                        != ConnectionState::Disconnected && occurs(before, i as int, kept@[k]),
                forall|j: int|
                    0 <= j < i && (#[trigger] before[j]).state != ConnectionState::Disconnected
                        ==> occurs(kept@, kept@.len() as int, before[j]),
            decreases total - i,
        {
            let peer = self.peers[i];
            if !peer.state.is_disconnected() {
                let ghost had = kept@;
                kept.push(peer);
                proof {
                    let now = kept@;
                    assert forall|a: int, b: int| 0 <= a < b < now.len() implies (
                    #[trigger] now[a]).handle != (#[trigger] now[b]).handle by {
                        if b == had.len() {
                            // What was kept before stood before position `i`.
                            assert(before[place(before, i as int, had[a])] == had[a]);
                        }
                    }
                    assert forall|k: int| 0 <= k < now.len() implies (#[trigger] now[k]).state
                        != ConnectionState::Disconnected && occurs(before, i + 1, now[k]) by {
                        if k < had.len() {
                            assert(before[place(before, i as int, had[k])] == had[k]);
                        }
                    }
                    assert forall|j: int|
                        0 <= j < i + 1 && (#[trigger] before[j]).state
                            != ConnectionState::Disconnected implies occurs(
                        now,
                        now.len() as int,
                        before[j],
                    ) by {
                        let at: int = if j < i {
                            place(had, had.len() as int, before[j])
                        } else {
                            had.len() as int
                        };
                        assert(now[at] == before[j]);
                    }
                }
            } else {
                proof {
                    assert forall|k: int| 0 <= k < kept@.len() implies occurs(
                        before,
                        i + 1,
                        #[trigger] kept@[k],
                    ) by {
                        assert(before[place(before, i as int, kept@[k])] == kept@[k]);
                    }
                }
            }
            i += 1;
        }
        proof {
            let target = purged(as_map(before));
            lemma_entries(before);
            assert forall|k: int| 0 <= k < kept@.len() implies target.contains_key(
                (#[trigger] kept@[k]).handle,
            ) && target[kept@[k].handle] == kept@[k] by {
                assert(before[place(before, total as int, kept@[k])] == kept@[k]);
            }
            assert forall|h: u64| target.contains_key(h) implies holds(kept@, h) by {
                let source = before[slot(before, h)];
                assert(kept@[place(kept@, kept@.len() as int, source)] == source);
            }
            lemma_view_is(kept@, target);
        }
        let removed: usize = total - kept.len();
        self.peers = kept;
        proof {
            self.lemma_wf();
        }
        removed
    }
}

/// Events neither enter nor remove a connection: after any run of events
/// the same handles are tracked as before.
pub proof fn law_events_keep_peers(peers: Map<u64, PeerConnection>, events: Seq<ConnectionEvent>)
    ensures
        apply_all(peers, events).dom() == peers.dom(),
    decreases events.len(),
{
    if events.len() > 0 {
        law_events_keep_peers(peers, events.drop_last());
    }
}

/// A connection's state is monotonic along every run of events: what it
/// is after the first `j` events is never later than what it is after
/// the first `k >= j`. The entry keeps its handle and its creation time.
pub proof fn law_state_is_monotonic(
    peers: Map<u64, PeerConnection>,
    events: Seq<ConnectionEvent>,
    j: int,
    k: int,
    handle: u64,
)
    requires
        peers.contains_key(handle),
        0 <= j <= k <= events.len(),
    ensures
        apply_all(peers, events.take(j)).contains_key(handle),
        apply_all(peers, events.take(k)).contains_key(handle),
        apply_all(peers, events.take(j))[handle].state.rank() <= apply_all(
            peers,
            events.take(k),
        )[handle].state.rank(),
        apply_all(peers, events.take(k))[handle].handle == apply_all(
            peers,
            events.take(j),
        )[handle].handle,
        apply_all(peers, events.take(k))[handle].created_at == apply_all(
            peers,
            events.take(j),
        )[handle].created_at,
    decreases k - j,
{
    law_events_keep_peers(peers, events.take(j));
    law_events_keep_peers(peers, events.take(k));
    if j < k {
        law_state_is_monotonic(peers, events, j, k - 1, handle);
        assert(events.take(k).drop_last() =~= events.take(k - 1));
    }
}

/// Whatever the order of events, a connection's state after all of them
/// is no earlier than it was before: `Connecting`, `Connected`,
/// `Disconnected` are passed in that order and never backwards.
pub proof fn law_state_never_regresses(
    peers: Map<u64, PeerConnection>,
    events: Seq<ConnectionEvent>,
    handle: u64,
)
    requires
        peers.contains_key(handle),
    ensures
        apply_all(peers, events).contains_key(handle),
        apply_all(peers, events)[handle].state.rank() >= peers[handle].state.rank(),
{
    law_state_is_monotonic(peers, events, 0, events.len() as int, handle);
    assert(events.take(events.len() as int) =~= events);
}

/// A state that the transport reported for a tracked connection is
/// reached or passed by the end of the run.
pub proof fn law_reported_state_is_reached(
    peers: Map<u64, PeerConnection>,
    events: Seq<ConnectionEvent>,
    i: int,
)
    requires
        0 <= i < events.len(),
        events[i] is StatusChanged,
        peers.contains_key(events[i].subject()),
    ensures
        apply_all(peers, events).contains_key(events[i].subject()),
        apply_all(peers, events)[events[i].subject()].state.rank()
            >= events[i]->new_state.rank(),
{
    let handle: u64 = events[i].subject();
    law_state_is_monotonic(peers, events, i, i + 1, handle);
    law_state_is_monotonic(peers, events, i + 1, events.len() as int, handle);
    assert(events.take(events.len() as int) =~= events);
}

/// A disconnect that is seen during a tick stays visible for the rest of
/// that tick, as a `Disconnected` entry, and is gone once the next tick
/// has purged the tracker.
pub proof fn law_disconnected_peer_is_purged(
    peers: Map<u64, PeerConnection>,
    events: Seq<ConnectionEvent>,
    i: int,
)
    requires
        0 <= i < events.len(),
        events[i] is StatusChanged,
        events[i]->new_state == ConnectionState::Disconnected,
        peers.contains_key(events[i].subject()),
    ensures
        apply_all(peers, events).contains_key(events[i].subject()),
        apply_all(peers, events)[events[i].subject()].state == ConnectionState::Disconnected,
        !purged(apply_all(peers, events)).contains_key(events[i].subject()),
{
    law_reported_state_is_reached(peers, events, i);
}

/// A purge removes the disconnected entries and nothing else: every
/// other entry is kept as it was.
pub proof fn law_purge_keeps_live_peers(peers: Map<u64, PeerConnection>, handle: u64)
    ensures
        purged(peers).contains_key(handle) <==> peers.contains_key(handle) && peers[handle].state
            != ConnectionState::Disconnected,
        purged(peers).contains_key(handle) ==> purged(peers)[handle] == peers[handle],
{
}

} // verus!
