//! Fan-out bus between the protocol server and its consumers.
//!
//! The bus retains a bounded window of the most recently published
//! messages.  Any number of subscribers read it through their own
//! cursors: each receives every message published after it subscribed,
//! in publish order, unless it falls further behind than the window, in
//! which case it observes an explicit gap and resumes at the oldest
//! retained message.  Publishing never blocks and needs no subscriber to
//! succeed, so a slow or absent presentation layer cannot stall the
//! protocol server.

use vstd::prelude::*;

use crate::notification::{NotificationMsg, NotificationMsgRep};

verus! {

/// How many pending messages the bus retains for slow subscribers.
pub const BUS_CAPACITY: usize = 64;

/// The fan-out channel.  Its abstract state is the log of every message
/// ever published; the ring buffer holds the last [`BUS_CAPACITY`] of
/// them.
pub struct Bus {
    buffer: Vec<NotificationMsg>,
    first_seq: u64,
    log: Ghost<Seq<NotificationMsgRep>>,
}

/// One subscriber's read cursor: the position in the bus log of the next
/// message it has yet to receive.
pub struct BusReceiver {
    next_seq: u64,
}

/// Why a receive returned no message.
#[derive(Clone, Copy, Debug, PartialEq, Eq, Structural)]
pub enum RecvError {
    /// Nothing has been published past this subscriber's cursor yet.
    Empty,
    /// The subscriber fell behind the retained window and this many
    /// messages were missed; the cursor now sits at the oldest retained
    /// message.
    Lagged(u64),
}

impl Bus {
    /// Every message ever published, in publish order.
    pub closed spec fn log(&self) -> Seq<NotificationMsgRep> {
        self.log@
    }

    /// The log position of the oldest message still retained.
    pub open spec fn first(&self) -> int {
        if self.log().len() <= BUS_CAPACITY {
            0
        } else {
            self.log().len() - BUS_CAPACITY
        }
    }

    /// The ring buffer holds exactly the log's suffix from [`Self::first`].
    pub closed spec fn wf(&self) -> bool {
        &&& self.log@.len() <= u64::MAX
        &&& self.first_seq as int == self.first()
        &&& self.buffer@.len() == self.log@.len() - self.first()
        &&& forall|k: int|
            0 <= k < self.buffer@.len() ==> self.buffer@[k]@ == self.log@[self.first() + k]
    }

    /// A fresh bus with nothing published.
    pub fn new() -> (r: Bus)
        ensures
            r.wf(),
            r.log() == Seq::<NotificationMsgRep>::empty(),
    {
        Bus { buffer: Vec::new(), first_seq: 0, log: Ghost(Seq::empty()) }
    }

    /// Publishes one message: it is appended to the log, and the oldest
    /// retained message is dropped once the window is full.  Publishing
    /// succeeds whether or not anyone subscribed.
    pub fn publish(&mut self, m: NotificationMsg)
        requires
            old(self).wf(),
            old(self).log().len() < u64::MAX,
        ensures
            final(self).wf(),
            final(self).log() == old(self).log().push(m@),
    {
        let ghost mv = m@;
        if self.buffer.len() == BUS_CAPACITY {
            self.buffer.remove(0);
            self.first_seq = self.first_seq + 1;
        }
        self.buffer.push(m);
        proof {
            self.log@ = self.log@.push(mv);
        }
    }

    /// A new subscriber's cursor sits at the current end of the log, so
    /// it receives exactly the messages published after it subscribed.
    pub fn subscribe(&self) -> (r: BusReceiver)
        requires
            self.wf(),
        ensures
            r.index() == self.log().len(),
    {
        proof {
            assert(self.first_seq + self.buffer@.len() == self.log().len());
        }
        BusReceiver { next_seq: self.first_seq + self.buffer.len() as u64 }
    }
}

impl BusReceiver {
    /// The log position of the next message this subscriber has yet to
    /// receive.
    pub closed spec fn index(&self) -> int {
        self.next_seq as int
    }

    /// Receives the next message, without blocking.  With nothing new,
    /// nothing happens; a subscriber that fell behind the retained
    /// window observes the gap once and resumes at the oldest retained
    /// message; otherwise the message at the cursor is returned and the
    /// cursor advances, so each subscriber sees the log in publish order.
    pub fn try_recv(&mut self, bus: &Bus) -> (r: Result<NotificationMsg, RecvError>)
        requires
            bus.wf(),
            old(self).index() <= bus.log().len(),
        ensures
            final(self).index() <= bus.log().len(),
            old(self).index() == bus.log().len() ==> {
                &&& r matches Err(e) && e == RecvError::Empty
                &&& final(self).index() == old(self).index()
            },
            old(self).index() < bus.first() ==> {
                &&& r matches Err(e) && e == RecvError::Lagged(
                    (bus.first() - old(self).index()) as u64,
                )
                &&& final(self).index() == bus.first()
            },
            bus.first() <= old(self).index() < bus.log().len() ==> {
                &&& r matches Ok(m) && m@ == bus.log()[old(self).index()]
                &&& final(self).index() == old(self).index() + 1
            },
    {
        if self.next_seq >= bus.first_seq + bus.buffer.len() as u64 {
            Err(RecvError::Empty)
        } else if self.next_seq < bus.first_seq {
            let missed = bus.first_seq - self.next_seq;
            self.next_seq = bus.first_seq;
            Err(RecvError::Lagged(missed))
        } else {
            let idx = (self.next_seq - bus.first_seq) as usize;
            let m = bus.buffer[idx].clone();
            self.next_seq = self.next_seq + 1;
            Ok(m)
        }
    }
}

/// A subscriber left more than [`BUS_CAPACITY`] messages behind sits
/// before the retained window, so its next receive reports the gap (see
/// [`BusReceiver::try_recv`]): it neither blocks, nor fails the bus, nor
/// silently rereads a message twice.
pub proof fn lemma_lagged_gap(bus: &Bus, sub: &BusReceiver)
    requires
        bus.wf(),
        sub.index() + BUS_CAPACITY < bus.log().len(),
    ensures
        sub.index() < bus.first(),
{
}

} // verus!
