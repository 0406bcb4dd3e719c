//! What a loop does with the events it polls.
//!
//! A status change goes to the tracker. An incoming request is put to
//! the admission policy: where it is accepted the connection is entered
//! as `Connecting`, and the caller tells the transport to accept it;
//! where it is not, the caller tells the transport to reject it.
use crate::connection::{ConnectionEvent, PeerConnection};
use crate::inbox::EventInbox;
use crate::tracker::{admits, apply_event, outcome_of, Applied, ConnectionTracker, TrackError};
use vstd::prelude::*;

verus! {

/// Who is let in.
#[derive(Clone, Copy, Debug, PartialEq, Eq, Structural)]
pub enum Admission {
    /// Every incoming request that the tracker has room for.
    AcceptAll,
    /// Nobody: the loop has no listening endpoint of its own.
    RejectAll,
}

/// Why an incoming request is turned away.
#[derive(Clone, Copy, Debug, PartialEq, Eq, Structural)]
pub enum Refusal {
    /// The policy admits nobody.
    Policy,
    /// The handle is already tracked.
    HandleInUse,
    /// The tracker's single slot is taken.
    SlotOccupied,
}

/// What the caller owes the transport, or its log, after an event.
#[derive(Clone, Copy, Debug, PartialEq, Eq, Structural)]
pub enum Reaction {
    /// Accept the request: the connection is now tracked as `Connecting`.
    Accept { peer: u64 },
    /// Reject the request: nothing was entered.
    Reject { peer: u64, reason: Refusal },
    /// A status change was taken in; `outcome` says what it did.
    Noted { peer: u64, outcome: Applied },
}

/// Whether, and why not, the request of `peer` is let in.
pub open spec fn admission_of(
    peers: Map<u64, PeerConnection>,
    single: bool,
    policy: Admission,
    peer: u64,
) -> Option<Refusal> {
    if policy == Admission::RejectAll {
        Some(Refusal::Policy)
    } else {
        match admits(peers, single, peer) {
            Ok(_) => None,
            Err(TrackError::HandleInUse) => Some(Refusal::HandleInUse),
            Err(TrackError::SlotOccupied) => Some(Refusal::SlotOccupied),
        }
    }
}

/// The mapping after one polled event was handled at time `now`.
pub open spec fn handled(
    peers: Map<u64, PeerConnection>,
    single: bool,
    policy: Admission,
    event: ConnectionEvent,
    now: u64,
) -> Map<u64, PeerConnection> {
    match event {
        ConnectionEvent::IncomingRequest { peer } => {
            if admission_of(peers, single, policy, peer) is None {
                peers.insert(peer, PeerConnection::opened(peer, now))
            } else {
                peers
            }
        },
        ConnectionEvent::StatusChanged { .. } => apply_event(peers, event),
    }
}

/// The reaction to one polled event.
pub open spec fn reaction_to(
    peers: Map<u64, PeerConnection>,
    single: bool,
    policy: Admission,
    event: ConnectionEvent,
) -> Reaction {
    match event {
        ConnectionEvent::IncomingRequest { peer } => {
            match admission_of(peers, single, policy, peer) {
                None => Reaction::Accept { peer },
                Some(reason) => Reaction::Reject { peer, reason },
            }
        },
        ConnectionEvent::StatusChanged { peer, .. } => Reaction::Noted {
            peer,
            outcome: outcome_of(peers, event),
        },
    }
}

/// The mapping after a run of polled events, handled first to last.
pub open spec fn handled_all(
    peers: Map<u64, PeerConnection>,
    single: bool,
    policy: Admission,
    events: Seq<ConnectionEvent>,
    now: u64,
) -> Map<u64, PeerConnection>
    decreases events.len(),
{
    if events.len() == 0 {
        peers
    } else {
        handled(
            handled_all(peers, single, policy, events.drop_last(), now),
            single,
            policy,
            events.last(),
            now,
        )
    }
}

/// How many events one drain takes from `pending` events on a budget.
pub open spec fn drained(pending: nat, budget: usize) -> int {
    if pending <= budget {
        pending as int
    } else {
        budget as int
    }
}

/// Handles one polled event: a status change is applied to the tracker,
/// an incoming request is accepted or rejected by the policy.
pub fn handle_event(
    tracker: &mut ConnectionTracker,
    policy: Admission,
    event: ConnectionEvent,
    now: u64,
) -> (reaction: Reaction)
    requires
        old(tracker).wf(),
    ensures
        final(tracker).wf(),
        final(tracker).is_single() == old(tracker).is_single(),
        final(tracker)@ == handled(old(tracker)@, old(tracker).is_single(), policy, event, now),
        reaction == reaction_to(old(tracker)@, old(tracker).is_single(), policy, event),
{
    match event {
        ConnectionEvent::IncomingRequest { peer } => {
            match policy {
                Admission::RejectAll => Reaction::Reject { peer, reason: Refusal::Policy },
                Admission::AcceptAll => {
                    match tracker.track(peer, now) {
                        Ok(_) => Reaction::Accept { peer },
                        Err(TrackError::HandleInUse) => Reaction::Reject {
                            peer,
                            reason: Refusal::HandleInUse,
                        },
                        Err(TrackError::SlotOccupied) => Reaction::Reject {
                            peer,
                            reason: Refusal::SlotOccupied,
                        },
                    }
                },
            }
        },
        ConnectionEvent::StatusChanged { peer, .. } => {
            let outcome = tracker.apply(event);
            Reaction::Noted { peer, outcome }
        },
    }
}

/// Polls the inbox until it is empty or `budget` events were taken, and
/// handles each event as [`handle_event`] does. What is over budget stays
/// pending for the next tick. The reactions come back in the order of the
/// events.
pub fn drain_events(
    tracker: &mut ConnectionTracker,
    inbox: &mut EventInbox,
    policy: Admission,
    budget: usize,
    now: u64,
) -> (reactions: Vec<Reaction>)
    requires
        old(tracker).wf(),
    ensures
        final(tracker).wf(),
        final(tracker).is_single() == old(tracker).is_single(),
        reactions@.len() == drained(old(inbox)@.len(), budget),
        final(inbox)@ == old(inbox)@.skip(drained(old(inbox)@.len(), budget)),
        final(tracker)@ == handled_all(
            old(tracker)@,
            old(tracker).is_single(),
            policy,
            old(inbox)@.take(drained(old(inbox)@.len(), budget)),
            now,
        ),
        forall|i: int|
            0 <= i < reactions@.len() ==> #[trigger] reactions@[i] == reaction_to(
                handled_all(
                    old(tracker)@,
                    old(tracker).is_single(),
                    policy,
                    old(inbox)@.take(i),
                    now,
                ),
                old(tracker).is_single(),
                policy,
                old(inbox)@[i],
            ),
{
    let ghost start = tracker@;
    let ghost single = tracker.is_single();
    let ghost queued = inbox@;
    let mut reactions: Vec<Reaction> = Vec::new();
    let mut taken: usize = 0;
    while taken < budget && !inbox.is_empty()
        invariant
            tracker.wf(),
            tracker.is_single() == single,
            taken <= budget,
            taken <= queued.len(),
            reactions@.len() == taken,
            inbox@ == queued.skip(taken as int),
            tracker@ == handled_all(start, single, policy, queued.take(taken as int), now),
            forall|i: int|
                0 <= i < taken ==> #[trigger] reactions@[i] == reaction_to(
                    handled_all(start, single, policy, queued.take(i), now),
                    single,
                    policy,
                    queued[i],
                ),
        decreases queued.len() - taken,
    {
        let polled = inbox.poll();
        match polled {
            None => {},
            Some(event) => {
                let reaction = handle_event(tracker, policy, event, now);
                reactions.push(reaction);
                proof {
                    assert(queued.take(taken + 1).drop_last() =~= queued.take(taken as int));
                }
                taken += 1;
            },
        }
    }
    reactions
}

/// Whatever is polled and however it is decided, the state of a tracked
/// connection never regresses, and the entry stays until it is purged.
pub proof fn law_dispatch_never_regresses(
    peers: Map<u64, PeerConnection>,
    single: bool,
    policy: Admission,
    events: Seq<ConnectionEvent>,
    now: u64,
    handle: u64,
)
    requires
        peers.contains_key(handle),
    ensures
        handled_all(peers, single, policy, events, now).contains_key(handle),
        handled_all(peers, single, policy, events, now)[handle].state.rank()
            >= peers[handle].state.rank(),
        handled_all(peers, single, policy, events, now)[handle].created_at
            == peers[handle].created_at,
    decreases events.len(),
{
    if events.len() > 0 {
        law_dispatch_never_regresses(peers, single, policy, events.drop_last(), now, handle);
    }
}

} // verus!
