//! The two primitives that the tasks synchronise on, as plain state: a group
//! of signal flags and a bounded first-in, first-out queue of sensor events.
//! A call that would make its task wait reports so and changes nothing.

use vstd::prelude::*;
use crate::sensor::{Event, FlagEvents};

verus! {

/// The bit of the flag group that stands for `flag`.
pub open spec fn flag_mask(flag: FlagEvents) -> u32 {
    match flag {
        FlagEvents::WifiConnected => 1u32,
        FlagEvents::WifiDisconnected => 2u32,
    }
}

/// A group of signal flags.
#[derive(Clone, Copy, Debug, PartialEq, Eq, Structural)]
pub struct SignalFlags {
    pub bits: u32,
}

impl SignalFlags {
    /// `flag` is set.
    pub open spec fn is_set(self, flag: FlagEvents) -> bool {
        self.bits & flag_mask(flag) == flag_mask(flag)
    }

    /// The group after `flag` was published.
    pub open spec fn published(self, flag: FlagEvents) -> SignalFlags {
        SignalFlags { bits: self.bits | flag_mask(flag) }
    }

    /// The group after a wait for `flag`, and what the wait returns: where
    /// the flag is set, all the flags as they were, and the flag is cleared
    /// if the wait asks for that; where it is not, nothing, and the waiting
    /// task stays blocked.
    pub open spec fn waited(self, flag: FlagEvents, clear: bool) -> (SignalFlags, Option<u32>) {
        if self.is_set(flag) {
            (
                if clear {
                    SignalFlags { bits: self.bits & !flag_mask(flag) }
                } else {
                    self
                },
                Some(self.bits),
            )
        } else {
            (self, None)
        }
    }

    /// A group with no flag set.
    pub fn new() -> (flags: SignalFlags)
        ensures
            flags.bits == 0,
    {
        SignalFlags { bits: 0 }
    }

    /// Sets `flag`.
    pub fn publish(&mut self, flag: FlagEvents)
        ensures
            *final(self) == old(self).published(flag),
    {
        self.bits = self.bits | flag.bits();
    }

    /// One attempt of a wait for `flag`.
    pub fn wait(&mut self, flag: FlagEvents, clear: bool) -> (seen: Option<u32>)
        ensures
            (*final(self), seen) == old(self).waited(flag, clear),
    {
        let mask: u32 = flag.bits();
        let bits: u32 = self.bits;
        if bits & mask == mask {
            if clear {
                self.bits = bits & !mask;
            }
            Some(bits)
        } else {
            None
        }
    }
}

/// Publishing a flag sets it and leaves the other flag as it was; publishing
/// it again changes nothing.
pub proof fn lemma_publish_is_idempotent(flags: SignalFlags, flag: FlagEvents, other: FlagEvents)
    requires
        other != flag,
    ensures
        flags.published(flag).is_set(flag),
        flags.published(flag).published(flag) == flags.published(flag),
        flags.published(flag).is_set(other) == flags.is_set(other),
{
    let b = flags.bits;
    let m = flag_mask(flag);
    let o = flag_mask(other);
    assert((b | m) & m == m) by (bit_vector);
    assert((b | m) | m == b | m) by (bit_vector);
    assert((m == 1 && o == 2) || (m == 2 && o == 1) ==> (((b | m) & o == o) == (b & o == o)))
        by (bit_vector);
}

/// A clearing wait for a published flag returns at once and takes the flag
/// away, so that a second wait blocks until the flag is published again; the
/// other flag is left as it was.
pub proof fn lemma_wait_clears_the_flag(flags: SignalFlags, flag: FlagEvents, other: FlagEvents)
    requires
        other != flag,
    ensures
        flags.published(flag).waited(flag, true).1 is Some,
        !flags.published(flag).waited(flag, true).0.is_set(flag),
        flags.published(flag).waited(flag, true).0.waited(flag, true).1 is None,
        flags.published(flag).waited(flag, true).0.is_set(other) == flags.is_set(other),
{
    let b = flags.bits;
    let m = flag_mask(flag);
    let o = flag_mask(other);
    assert((b | m) & m == m) by (bit_vector);
    assert((m == 1 || m == 2) ==> ((b | m) & !m) & m != m) by (bit_vector);
    assert((m == 1 && o == 2) || (m == 2 && o == 1) ==> ((((b | m) & !m) & o == o) == (b & o
        == o))) by (bit_vector);
}

/// A bounded queue of sensor events; the oldest event leaves first.
#[derive(Debug)]
pub struct EventQueue {
    items: Vec<Event>,
    capacity: usize,
}

impl View for EventQueue {
    type V = Seq<Event>;

    closed spec fn view(&self) -> Seq<Event> {
        self.items@
    }
}

impl EventQueue {
    /// The number of events that the queue can hold.
    pub closed spec fn spec_capacity(&self) -> nat {
        self.capacity as nat
    }

    /// The queue holds no more than its capacity.
    pub open spec fn wf(&self) -> bool {
        self@.len() <= self.spec_capacity()
    }

    /// An empty queue for up to `capacity` events.
    pub fn new(capacity: usize) -> (queue: EventQueue)
        ensures
            queue.wf(),
            queue@ == Seq::<Event>::empty(),
            queue.spec_capacity() == capacity,
    {
        EventQueue { items: Vec::new(), capacity }
    }

    /// The number of events that the queue can hold.
    pub fn capacity(&self) -> (capacity: usize)
        ensures
            capacity == self.spec_capacity(),
    {
        self.capacity
    }

    /// The number of events that wait in the queue.
    pub fn len(&self) -> (len: usize)
        ensures
            len == self@.len(),
    {
        self.items.len()
    }

    /// One attempt to send: the event goes to the back of a queue that has
    /// room and the call reports `true`; a full queue is left as it is and
    /// the call reports `false`, upon which the sender waits.
    pub fn send(&mut self, event: Event) -> (sent: bool)
        requires
            old(self).wf(),
        ensures
            final(self).wf(),
            final(self).spec_capacity() == old(self).spec_capacity(),
            sent == (old(self)@.len() < old(self).spec_capacity()),
            final(self)@ == if sent {
                old(self)@.push(event)
            } else {
                old(self)@
            },
    {
        if self.items.len() < self.capacity {
            self.items.push(event);
            true
        } else {
            false
        }
    }

    /// One attempt to receive: the oldest event leaves a queue that holds
    /// any; an empty queue gives nothing, upon which the receiver waits.
    pub fn receive(&mut self) -> (event: Option<Event>)
        requires
            old(self).wf(),
        ensures
            final(self).wf(),
            final(self).spec_capacity() == old(self).spec_capacity(),
            event == if old(self)@.len() > 0 {
                Some(old(self)@[0])
            } else {
                None
            },
            final(self)@ == if old(self)@.len() > 0 {
                old(self)@.drop_first()
            } else {
                old(self)@
            },
    {
        if self.items.len() > 0 {
            let event = self.items.remove(0);
            proof {
                assert(self.items@ =~= old(self).items@.drop_first());
            }
            Some(event)
        } else {
            None
        }
    }
}

} // verus!
