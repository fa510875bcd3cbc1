//! The bounded, ordered conduit between the producer and the sink consumer.
//!
//! One producer pushes decoded chunks in segment order; one consumer pops
//! them in FIFO order and writes each to the sink.  The capacity bound is
//! the backpressure that keeps the producer at most [`CONDUIT_CAPACITY`]
//! chunks ahead of the sink.  The ghost history (`pushed`, `delivered`)
//! carries the ordering guarantee: at every fill level the chunks delivered
//! so far are exactly the first chunks pushed, and a closed, drained conduit
//! has delivered everything.

use vstd::prelude::*;

verus! {

/// How many decoded chunks the conduit holds at most.
pub const CONDUIT_CAPACITY: usize = 100;

/// The single-producer/single-consumer bounded conduit.
pub struct StreamBridge {
    /// Buffered chunks, oldest first.
    pub queue: Vec<Vec<u8>>,
    /// Set once the producer has pushed the last chunk.
    pub closed: bool,
    /// Every chunk ever pushed, in push order.
    pub pushed: Ghost<Seq<Seq<u8>>>,
    /// Every chunk handed to the consumer, in delivery order.
    pub delivered: Ghost<Seq<Seq<u8>>>,
}

impl StreamBridge {
    /// The conduit's invariant: what was pushed is what was delivered
    /// followed by what is still buffered, within the capacity bound.
    pub open spec fn wf(&self) -> bool {
        &&& self.pushed@ == self.delivered@ + self.queue.deep_view()
        &&& self.queue@.len() <= CONDUIT_CAPACITY
    }

    /// An open, empty conduit with no history.
    pub fn new() -> (b: StreamBridge)
        ensures
            b.wf(),
            !b.closed,
            b.queue@.len() == 0,
            b.pushed@ == Seq::<Seq<u8>>::empty(),
            b.delivered@ == Seq::<Seq<u8>>::empty(),
    {
        let b = StreamBridge {
            queue: Vec::new(),
            closed: false,
            pushed: Ghost(Seq::empty()),
            delivered: Ghost(Seq::empty()),
        };
        proof {
            assert(b.pushed@ =~= b.delivered@ + b.queue.deep_view());
        }
        b
    }

    /// True when the conduit is at capacity, so a push would have to wait.
    pub fn is_full(&self) -> (r: bool)
        ensures
            r == (self.queue@.len() == CONDUIT_CAPACITY),
    {
        self.queue.len() == CONDUIT_CAPACITY
    }

    /// True once the producer closed its end and the buffer is drained:
    /// the orderly end of the stream.
    pub fn is_drained(&self) -> (r: bool)
        ensures
            r == (self.closed && self.queue@.len() == 0),
    {
        self.closed && self.queue.len() == 0
    }

    /// The producer hands the next chunk over.  A real conduit suspends the
    /// producer while full; this model asks the caller to wait instead.
    pub fn push(&mut self, chunk: Vec<u8>)
        requires
            old(self).wf(),
            !old(self).closed,
            old(self).queue@.len() < CONDUIT_CAPACITY,
        ensures
            final(self).wf(),
            !final(self).closed,
            final(self).pushed@ == old(self).pushed@.push(chunk@),
            final(self).delivered@ == old(self).delivered@,
            final(self).queue.deep_view() == old(self).queue.deep_view().push(chunk@),
    {
        let ghost c = chunk@;
        self.queue.push(chunk);
        proof {
            self.pushed@ = self.pushed@.push(c);
            assert(self.queue.deep_view() =~~= old(self).queue.deep_view().push(c));
            assert(self.pushed@ =~= self.delivered@ + self.queue.deep_view());
        }
    }

    /// The consumer takes the oldest buffered chunk, or learns that the
    /// buffer is momentarily empty.
    pub fn pop(&mut self) -> (r: Option<Vec<u8>>)
        requires
            old(self).wf(),
        ensures
            final(self).wf(),
            final(self).closed == old(self).closed,
            final(self).pushed@ == old(self).pushed@,
            match r {
                None => old(self).queue@.len() == 0 && *final(self) == *old(self),
                Some(chunk) => {
                    &&& old(self).queue@.len() > 0
                    &&& chunk@ == old(self).queue.deep_view()[0]
                    &&& final(self).delivered@ == old(self).delivered@.push(chunk@)
                    &&& final(self).queue.deep_view() == old(self).queue.deep_view().skip(1)
                },
            },
    {
        if self.queue.len() == 0 {
            return None;
        }
        let chunk = self.queue.remove(0);
        proof {
            self.delivered@ = self.delivered@.push(chunk@);
            assert(chunk.deep_view() =~= chunk@);
            assert(self.queue.deep_view() =~~= old(self).queue.deep_view().skip(1));
            assert(self.pushed@ =~= self.delivered@ + self.queue.deep_view());
        }
        Some(chunk)
    }

    /// The producer closes its end after the last chunk.
    pub fn close(&mut self)
        requires
            old(self).wf(),
        ensures
            final(self).wf(),
            final(self).closed,
            final(self).pushed@ == old(self).pushed@,
            final(self).delivered@ == old(self).delivered@,
            final(self).queue.deep_view() == old(self).queue.deep_view(),
    {
        self.closed = true;
    }

    /// At every fill level, the chunks delivered so far are exactly the
    /// first chunks pushed, in push order: the conduit never reorders.
    pub proof fn lemma_delivered_is_prefix_of_pushed(&self)
        requires
            self.wf(),
        ensures
            self.delivered@.len() <= self.pushed@.len(),
            self.delivered@ == self.pushed@.take(self.delivered@.len() as int),
    {
        assert(self.delivered@ =~= self.pushed@.take(self.delivered@.len() as int));
    }

    /// A closed, drained conduit has delivered every pushed chunk, in push
    /// order — the sink receives the chunks exactly as the producer pushed
    /// them, regardless of how full the conduit ever was.
    pub proof fn lemma_drained_delivers_everything(&self)
        requires
            self.wf(),
            self.queue@.len() == 0,
        ensures
            self.delivered@ == self.pushed@,
    {
        assert(self.delivered@ =~= self.pushed@);
    }
}

} // verus!
