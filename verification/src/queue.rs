//! The FIFO mailbox that carries platform events to one of the loops.

use crate::event::Event;
use std::collections::VecDeque;
use vstd::prelude::*;

verus! {

/// An unbounded first-in-first-out queue of events. The owner shares it
/// between one producer and one consumer behind a lock, which is held for
/// one `push` or one `drain` only: events are interpreted after the lock
/// is released.
pub struct EventQueue {
    items: VecDeque<Event>,
}

impl View for EventQueue {
    type V = Seq<Event>;

    /// The waiting events, oldest first.
    closed spec fn view(&self) -> Seq<Event> {
        self.items@
    }
}

impl EventQueue {
    pub fn new() -> (q: EventQueue)
        ensures
            q@ == Seq::<Event>::empty(),
    {
        EventQueue { items: VecDeque::new() }
    }

    /// Appends `event` behind every waiting event.
    pub fn push(&mut self, event: Event)
        ensures
            final(self)@ == old(self)@.push(event),
    {
        self.items.push_back(event);
    }

    pub fn len(&self) -> (n: usize)
        ensures
            n == self@.len(),
    {
        self.items.len()
    }

    pub fn is_empty(&self) -> (b: bool)
        ensures
            b == (self@.len() == 0),
    {
        self.items.len() == 0
    }

    /// Removes and returns the oldest event. The caller has seen the queue
    /// non-empty: check with `is_empty` first.
    pub fn pop_front(&mut self) -> (event: Event)
        requires
            old(self)@.len() > 0,
        ensures
            event == old(self)@[0],
            final(self)@ == old(self)@.subrange(1, old(self)@.len() as int),
    {
        let front = self.items.pop_front();
        front.unwrap()
    }

    /// Removes every waiting event and returns them, oldest first.
    pub fn drain(&mut self) -> (events: Vec<Event>)
        ensures
            events@ == old(self)@,
            final(self)@ == Seq::<Event>::empty(),
    {
        let mut events: Vec<Event> = Vec::new();
        while !self.is_empty()
            invariant
                events@ + self@ == old(self)@,
            decreases self@.len(),
        {
            let ghost before = self@;
            let event = self.pop_front();
            events.push(event);
            assert(events@ + self@ == old(self)@) by {
                assert(before == seq![event] + self@);
                assert(events@ + self@ =~= events@.drop_last() + (seq![event] + self@));
            }
        }
        assert(events@ =~= events@ + self@);
        events
    }
}

} // verus!
