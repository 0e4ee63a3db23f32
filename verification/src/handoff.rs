//! The one-way hand-off of snapshots from the simulation to the renderer.

use std::collections::VecDeque;
use vstd::prelude::*;

verus! {

/// What a consumer that wants only the freshest value takes from
/// `pending`: the value sent last, if there is any.
pub open spec fn latest<T>(pending: Seq<T>) -> Option<T> {
    if pending.len() == 0 {
        None
    } else {
        Some(pending.last())
    }
}

/// One published state of the simulation: the count of ticks it stands
/// at, the camera, and the instances to draw. A snapshot is a value of its
/// own; nothing changes it once it is sent.
#[derive(Clone, Debug, PartialEq)]
pub struct Snapshot<C, I> {
    pub tick: u64,
    pub camera: C,
    pub instances: Vec<I>,
}

/// Whether no snapshot in `pending` is older than one before it.
pub open spec fn ticks_ascend<C, I>(pending: Seq<Snapshot<C, I>>) -> bool {
    forall|i: int, j: int| 0 <= i <= j < pending.len() ==> pending[i].tick <= pending[j].tick
}

/// A channel from one producer to one consumer. The producer sends without
/// waiting and without limit; the consumer takes the freshest value and
/// drops every older one.
pub struct StateHandoff<T> {
    pending: VecDeque<T>,
}

impl<T> View for StateHandoff<T> {
    type V = Seq<T>;

    /// The values sent and not yet taken, oldest first.
    closed spec fn view(&self) -> Seq<T> {
        self.pending@
    }
}

impl<T> StateHandoff<T> {
    pub fn new() -> (h: StateHandoff<T>)
        ensures
            h@ == Seq::<T>::empty(),
    {
        StateHandoff { pending: VecDeque::new() }
    }

    /// Appends `value` behind every pending value.
    pub fn send(&mut self, value: T)
        ensures
            final(self)@ == old(self)@.push(value),
    {
        self.pending.push_back(value);
    }

    /// The number of values sent and not yet taken.
    pub fn pending(&self) -> (n: usize)
        ensures
            n == self@.len(),
    {
        self.pending.len()
    }

    /// Takes the oldest pending value, if there is one.
    pub fn try_recv(&mut self) -> (value: Option<T>)
        ensures
            value == (if old(self)@.len() == 0 {
                None
            } else {
                Some(old(self)@[0])
            }),
            final(self)@ == (if old(self)@.len() == 0 {
                old(self)@
            } else {
                old(self)@.subrange(1, old(self)@.len() as int)
            }),
    {
        self.pending.pop_front()
    }

    /// Takes every pending value and returns the one sent last; the older
    /// ones are dropped.
    pub fn take_latest(&mut self) -> (value: Option<T>)
        ensures
            value == latest(old(self)@),
            final(self)@ == Seq::<T>::empty(),
    {
        let mut kept = self.try_recv();
        if kept.is_some() {
            let ghost mut taken: int = 1;
            let mut next = self.try_recv();
            while next.is_some()
                invariant
                    1 <= taken <= old(self)@.len(),
                    kept == Some(old(self)@[taken - 1]),
                    next is Some ==> taken < old(self)@.len() && next == Some(old(self)@[taken])
                        && self@ == old(self)@.subrange(taken + 1, old(self)@.len() as int),
                    next is None ==> taken == old(self)@.len() && self@ == Seq::<T>::empty(),
                decreases old(self)@.len() - taken,
            {
                kept = next;
                next = self.try_recv();
                proof {
                    taken = taken + 1;
                }
            }
        }
        kept
    }
}

/// The pending values after `sends` were sent in order.
pub open spec fn after_sends<T>(pending: Seq<T>, sends: Seq<T>) -> Seq<T>
    decreases sends.len(),
{
    if sends.len() == 0 {
        pending
    } else {
        after_sends(pending, sends.drop_last()).push(sends.last())
    }
}

/// After any number of sends with no take between them, one take yields
/// the payload of the last send, whatever was pending before, and leaves
/// nothing behind: no later take can yield an earlier payload.
pub proof fn law_latest_wins<T>(pending: Seq<T>, sends: Seq<T>)
    requires
        sends.len() > 0,
    ensures
        latest(after_sends(pending, sends)) == Some(sends.last()),
        after_sends(pending, sends) == pending + sends,
        latest(Seq::<T>::empty()) == None::<T>,
{
    law_sends_append(pending, sends);
}

/// Sending appends: the pending values after `sends` are the earlier ones
/// followed by `sends`.
pub proof fn law_sends_append<T>(pending: Seq<T>, sends: Seq<T>)
    ensures
        after_sends(pending, sends) == pending + sends,
    decreases sends.len(),
{
    if sends.len() == 0 {
        assert(pending + sends =~= pending);
    } else {
        law_sends_append(pending, sends.drop_last());
        assert((pending + sends.drop_last()).push(sends.last()) =~= pending + sends);
    }
}

/// Where the snapshots were sent in the order of their ticks, the one a
/// take yields is as fresh as any that was pending.
pub proof fn law_latest_snapshot_is_freshest<C, I>(pending: Seq<Snapshot<C, I>>)
    requires
        ticks_ascend(pending),
        pending.len() > 0,
    ensures
        latest(pending) is Some,
        forall|i: int| 0 <= i < pending.len() ==> pending[i].tick <= latest(pending)->0.tick,
{
}

} // verus!
