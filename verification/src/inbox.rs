//! Pending connection events.
//!
//! The transport reports what happens through callbacks. The callback
//! pump puts each report into an inbox; a loop then polls the inbox, one
//! event per call, in the order of arrival.
use crate::connection::ConnectionEvent;
use std::collections::VecDeque;
use vstd::prelude::*;

verus! {

/// The connection events that were delivered and not yet polled, oldest
/// first.
pub struct EventInbox {
    pending: VecDeque<ConnectionEvent>,
}

impl View for EventInbox {
    type V = Seq<ConnectionEvent>;

    closed spec fn view(&self) -> Seq<ConnectionEvent> {
        self.pending@
    }
}

impl EventInbox {
    /// An inbox with nothing pending.
    pub fn new() -> (inbox: EventInbox)
        ensures
            inbox@ == Seq::<ConnectionEvent>::empty(),
    {
        EventInbox { pending: VecDeque::new() }
    }

    /// How many events are pending.
    pub fn len(&self) -> (count: usize)
        ensures
            count == self@.len(),
    {
        self.pending.len()
    }

    /// Whether nothing is pending.
    pub fn is_empty(&self) -> (empty: bool)
        ensures
            empty == (self@.len() == 0),
    {
        self.pending.len() == 0
    }

    /// Puts a reported event behind those already pending.
    pub fn deliver(&mut self, event: ConnectionEvent)
        ensures
            final(self)@ == old(self)@.push(event),
    {
        self.pending.push_back(event);
    }

    /// Takes the oldest pending event, if there is one. With nothing
    /// pending the answer is `None` and the inbox is left as it is; the
    /// call never waits for an event to arrive.
    pub fn poll(&mut self) -> (event: Option<ConnectionEvent>)
        ensures
            event == if old(self)@.len() == 0 {
                None
            } else {
                Some(old(self)@[0])
            },
            final(self)@ == if old(self)@.len() == 0 {
                old(self)@
            } else {
                old(self)@.drop_first()
            },
    {
        self.pending.pop_front()
    }
}

} // verus!
