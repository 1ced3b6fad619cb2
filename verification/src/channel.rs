//! The bounded FIFO channel connecting two pipeline stages.
//!
//! Four instances wire the stages together (capture to detection, detection to
//! recording, detection to alerting, capture to streaming). The capacity bound
//! is the pipeline's only throttle: a full channel refuses further input, which
//! in the running system means the producer blocks until the consumer catches
//! up. Closing a channel (the producer exited) lets the consumer drain what is
//! left and then observe disconnection instead of waiting for a sentinel.

use vstd::prelude::*;

verus! {

/// What became of an offered value. In the running system an offer to a full
/// channel blocks the producer; the model makes that visible as `Full`, handing
/// the value back untaken.
pub enum SendOutcome<T> {
    /// The value was enqueued.
    Sent,
    /// The channel is at capacity: the producer would block. The value is
    /// handed back.
    Full(T),
    /// The channel is closed: the value is dropped by the producer, never
    /// retried, never duplicated. It is handed back.
    Closed(T),
}

/// What a consumer observed. `Empty` is where the running system would block
/// waiting for the producer.
pub enum RecvOutcome<T> {
    /// The oldest enqueued value.
    Received(T),
    /// Nothing queued, producer still alive: the consumer would block.
    Empty,
    /// Nothing queued and the channel is closed: no more input will ever come.
    Disconnected,
}

/// An ordered, capacity-limited queue with FIFO delivery.
pub struct BoundedChannel<T> {
    items: Vec<T>,
    capacity: usize,
    closed: bool,
}

impl<T> BoundedChannel<T> {
    /// The queued values, oldest first.
    pub closed spec fn contents(&self) -> Seq<T> {
        self.items@
    }

    /// The fixed capacity the channel was created with.
    pub closed spec fn cap(&self) -> nat {
        self.capacity as nat
    }

    /// Whether the producer side has closed the channel.
    pub closed spec fn is_closed(&self) -> bool {
        self.closed
    }

    /// The queue never holds more than its capacity.
    pub open spec fn wf(&self) -> bool {
        self.contents().len() <= self.cap()
    }

    /// A send succeeds exactly here; everywhere else the producer blocks or
    /// learns of the closure.
    pub open spec fn send_enabled(&self) -> bool {
        !self.is_closed() && self.contents().len() < self.cap()
    }

    pub fn new(capacity: usize) -> (c: BoundedChannel<T>)
        ensures
            c.wf(),
            c.contents() == Seq::<T>::empty(),
            c.cap() == capacity as nat,
            !c.is_closed(),
    {
        BoundedChannel { items: Vec::new(), capacity, closed: false }
    }

    pub fn len(&self) -> (n: usize)
        ensures
            n as nat == self.contents().len(),
    {
        self.items.len()
    }

    pub fn is_full(&self) -> (b: bool)
        ensures
            b <==> self.contents().len() >= self.cap(),
    {
        self.items.len() >= self.capacity
    }

    /// Offer one value. FIFO order is kept: a sent value goes to the back of
    /// the queue, and nothing else moves.
    pub fn send(&mut self, value: T) -> (r: SendOutcome<T>)
        requires
            old(self).wf(),
        ensures
            final(self).wf(),
            final(self).cap() == old(self).cap(),
            final(self).is_closed() == old(self).is_closed(),
            old(self).is_closed() ==> (r matches SendOutcome::Closed(v) && v == value
                && final(self).contents() == old(self).contents()),
            !old(self).send_enabled() && !old(self).is_closed() ==> (r matches SendOutcome::Full(v)
                && v == value && final(self).contents() == old(self).contents()),
            old(self).send_enabled() ==> (r is Sent
                && final(self).contents() == old(self).contents().push(value)),
    {
        if self.closed {
            SendOutcome::Closed(value)
        } else if self.items.len() >= self.capacity {
            SendOutcome::Full(value)
        } else {
            self.items.push(value);
            SendOutcome::Sent
        }
    }

    /// Take the oldest value. Receive order equals send order; after the
    /// producer closes the channel the remaining values are still drained
    /// before `Disconnected` is observed.
    pub fn recv(&mut self) -> (r: RecvOutcome<T>)
        requires
            old(self).wf(),
        ensures
            final(self).wf(),
            final(self).cap() == old(self).cap(),
            final(self).is_closed() == old(self).is_closed(),
            old(self).contents().len() > 0 ==> (r matches RecvOutcome::Received(v)
                && v == old(self).contents()[0]
                && final(self).contents() == old(self).contents().drop_first()),
            old(self).contents().len() == 0 ==> final(self).contents() == old(self).contents(),
            old(self).contents().len() == 0 && !old(self).is_closed() ==> r is Empty,
            old(self).contents().len() == 0 && old(self).is_closed() ==> r is Disconnected,
    {
        if self.items.len() > 0 {
            let v = self.items.remove(0);
            RecvOutcome::Received(v)
        } else if self.closed {
            RecvOutcome::Disconnected
        } else {
            RecvOutcome::Empty
        }
    }

    /// The producer exited: no further values will arrive, but queued values
    /// stay available to the consumer.
    pub fn close(&mut self)
        requires
            old(self).wf(),
        ensures
            final(self).wf(),
            final(self).cap() == old(self).cap(),
            final(self).is_closed(),
            final(self).contents() == old(self).contents(),
    {
        self.closed = true;
    }
}

} // verus!
