//! Ordered event delivery from the engine to observers.
//!
//! A single producer (the engine) appends events; observers take them in
//! first-in-first-out order, so events are seen exactly in production order
//! with no reordering and no coalescing. The buffer grows without bound
//! (backpressure policy: buffer growth). Once the channel is closed, sends
//! are dropped silently — closure is never an error for the producer.

use vstd::prelude::*;
use crate::event::AudioEvent;

verus! {

/// The engine-to-observer event channel: a FIFO buffer and a closed flag.
#[derive(Debug)]
pub struct EventChannel {
    pub queue: Vec<AudioEvent>,
    pub closed: bool,
}

impl EventChannel {
    /// Every buffered event is well-formed.
    pub open spec fn wf(self) -> bool {
        forall|i: int| 0 <= i < self.queue@.len() ==> self.queue@[i].wf()
    }

    /// A fresh channel: open and empty.
    pub fn new() -> (c: EventChannel)
        ensures
            c.queue@ == Seq::<AudioEvent>::empty(),
            !c.closed,
            c.wf(),
    {
        EventChannel { queue: Vec::new(), closed: false }
    }

    /// Produce one event. Appended at the back while the channel is open;
    /// dropped silently (never a failure) once the channel is closed.
    pub fn send(&mut self, e: AudioEvent)
        ensures
            final(self).closed == old(self).closed,
            !old(self).closed ==> final(self).queue@ == old(self).queue@.push(e),
            old(self).closed ==> final(self).queue@ == old(self).queue@,
            old(self).wf() && e.wf() ==> final(self).wf(),
    {
        if !self.closed {
            self.queue.push(e);
        }
    }

    /// Take the oldest pending event, if any. Order of the remainder is
    /// kept. An empty queue yields `None`, never an error.
    pub fn poll(&mut self) -> (r: Option<AudioEvent>)
        ensures
            final(self).closed == old(self).closed,
            old(self).queue@.len() == 0 ==> r is None && final(self).queue@ == old(self).queue@,
            old(self).queue@.len() > 0 ==> r == Some(old(self).queue@[0])
                && final(self).queue@ == old(self).queue@.remove(0),
            old(self).wf() ==> final(self).wf(),
    {
        if self.queue.len() == 0 {
            None
        } else {
            Some(self.queue.remove(0))
        }
    }

    /// Close the channel and discard anything still pending: after closure
    /// the stream observers see is empty and ended.
    pub fn close(&mut self)
        ensures
            final(self).closed,
            final(self).queue@ == Seq::<AudioEvent>::empty(),
            final(self).wf(),
    {
        self.queue.clear();
        self.closed = true;
    }

    /// Number of pending events.
    pub fn len(&self) -> (n: usize)
        ensures
            n == self.queue@.len(),
    {
        self.queue.len()
    }

    /// Whether the channel has been closed.
    pub fn is_closed(&self) -> (b: bool)
        ensures
            b == self.closed,
    {
        self.closed
    }
}

} // verus!
