//! The fan-out boundary: a bounded broadcast buffer with one producer per
//! device and any number of independent subscribers. Publishing never blocks
//! and never waits on a subscriber; a subscriber that falls behind by more
//! than the capacity is told it lagged and skips forward instead of stalling
//! the producer.

use vstd::prelude::*;

use crate::data::Reading;

verus! {

/// The bounded broadcast buffer. It retains the most recent readings up to
/// its fixed capacity and remembers (as ghost history) everything ever
/// published, so a subscriber's position is simply an index into that
/// history. Created once at start-up and shared by the engine and all
/// subscribers; the engine is the sole producer per device.
pub struct FanoutChannel {
    /// Fixed capacity, chosen at creation; always positive.
    pub capacity: usize,
    /// The retained tail of the history, oldest first.
    pub buf: Vec<Reading>,
    /// Index in the history of the oldest retained reading.
    pub first: u64,
    /// Number of live subscriptions.
    pub subscribers: usize,
    /// Everything ever published, in order.
    pub hist: Ghost<Seq<Reading>>,
}

/// A subscriber's handle: its position in the publish history. Each
/// subscription sees every reading published after it was taken, in publish
/// order, unless it falls behind the retained window.
#[derive(Debug)]
pub struct Subscription {
    /// Index in the history of the next reading this subscriber observes.
    pub next: u64,
}

/// What one poll of a subscription yields.
#[derive(Clone, Copy, Debug, PartialEq, Eq, Structural)]
pub enum PollOutcome {
    /// The next reading, in the exact order published.
    Data(Reading),
    /// The subscriber fell behind the retained window: this many readings
    /// were overwritten before it drained them. The position skips forward
    /// to the oldest retained reading; the producer was never delayed.
    Lagged(u64),
    /// Nothing published past this subscriber's position yet.
    Empty,
}

impl FanoutChannel {
    /// Everything ever published through this channel, in publish order.
    pub open spec fn history(self) -> Seq<Reading> {
        self.hist@
    }

    /// The channel's structural invariant: the buffer is exactly the tail
    /// of the history from `first` on, never longer than the capacity, and
    /// readings are only evicted once the buffer is full.
    pub open spec fn wf(self) -> bool {
        &&& self.capacity > 0
        &&& self.buf@.len() <= self.capacity
        &&& self.first + self.buf@.len() == self.hist@.len()
        &&& self.buf@ == self.hist@.skip(self.first as int)
        &&& self.first > 0 ==> self.buf@.len() == self.capacity
        &&& self.hist@.len() <= u64::MAX
    }

    /// Creates a channel of the given fixed capacity, with no history and no
    /// subscribers.
    pub fn new(capacity: usize) -> (c: FanoutChannel)
        requires
            capacity > 0,
        ensures
            c.wf(),
            c.capacity == capacity,
            c.history() == Seq::<Reading>::empty(),
            c.subscribers == 0,
    {
        let c = FanoutChannel {
            capacity,
            buf: Vec::new(),
            first: 0,
            subscribers: 0,
            hist: Ghost(Seq::empty()),
        };
        proof {
            assert(c.buf@ =~= c.hist@.skip(0));
        }
        c
    }

    /// Publishes one reading: it is appended to the history, and when the
    /// buffer is already full the oldest retained reading is overwritten.
    /// The operation always succeeds and never waits on any subscriber,
    /// whatever their state — saturation costs the slowest readings, never
    /// the producer.
    pub fn publish(&mut self, r: Reading)
        requires
            old(self).wf(),
            old(self).history().len() < u64::MAX,
        ensures
            final(self).wf(),
            final(self).history() == old(self).history().push(r),
            final(self).capacity == old(self).capacity,
            final(self).subscribers == old(self).subscribers,
    {
        if self.buf.len() == self.capacity {
            self.buf.remove(0);
            self.first = self.first + 1;
        }
        self.buf.push(r);
        proof {
            self.hist@ = self.hist@.push(r);
        }
        proof {
            assert(self.buf@ =~= self.hist@.skip(self.first as int));
        }
    }

    /// Takes a new subscription, positioned at the present end of the
    /// history: it will observe every reading published from this moment
    /// on, and nothing published before.
    pub fn subscribe(&mut self) -> (s: Subscription)
        requires
            old(self).wf(),
            old(self).subscribers < usize::MAX,
        ensures
            final(self).wf(),
            final(self).history() == old(self).history(),
            final(self).capacity == old(self).capacity,
            final(self).subscribers == old(self).subscribers + 1,
            s.next == old(self).history().len(),
    {
        self.subscribers = self.subscribers + 1;
        Subscription { next: self.first + self.buf.len() as u64 }
    }

    /// Drops one subscription. The producer only ever asks whether at least
    /// one subscriber exists, so this is all the bookkeeping a departing
    /// consumer owes.
    pub fn unsubscribe(&mut self, s: Subscription)
        requires
            old(self).wf(),
            old(self).subscribers > 0,
        ensures
            final(self).wf(),
            final(self).history() == old(self).history(),
            final(self).capacity == old(self).capacity,
            final(self).subscribers == old(self).subscribers - 1,
    {
        let _ = s;
        self.subscribers = self.subscribers - 1;
    }

    /// Number of live subscriptions; the producer publishes only when it is
    /// positive.
    pub fn subscriber_count(&self) -> (n: usize)
        ensures
            n == self.subscribers,
    {
        self.subscribers
    }
}

/// What a subscriber at position `next` has yet to observe: the history's
/// suffix from its position on.
pub open spec fn pending(h: Seq<Reading>, next: int) -> Seq<Reading>
    recommends
        0 <= next <= h.len(),
{
    h.subrange(next, h.len() as int)
}

/// Ordered delivery, publish side: publishing one reading extends every
/// subscriber's pending suffix by exactly that reading and touches nothing
/// already pending — so a subscriber that keeps draining observes each
/// reading once, in the exact order published, with no omission.
pub proof fn lemma_publish_extends_pending(h: Seq<Reading>, next: int, r: Reading)
    requires
        0 <= next <= h.len(),
    ensures
        pending(h.push(r), next) == pending(h, next).push(r),
{
    assert(pending(h.push(r), next) =~= pending(h, next).push(r));
}

/// Ordered delivery, poll side: a successful poll takes exactly the front
/// of the pending suffix, and the position after it carries the rest — no
/// reading is duplicated, none is skipped.
pub proof fn lemma_poll_drains_pending_in_order(h: Seq<Reading>, next: int)
    requires
        0 <= next < h.len(),
    ensures
        pending(h, next)[0] == h[next],
        pending(h, next).skip(1) == pending(h, next + 1),
{
    assert(pending(h, next).skip(1) =~= pending(h, next + 1));
}

/// Saturation law: a subscriber that stopped draining while more than
/// `capacity` readings were published has fallen below the retained window,
/// so its next poll reports a lag (and skips forward) — it can never make
/// the producer wait, whose publish goes through regardless.
pub proof fn lemma_overrun_means_lag(c: FanoutChannel, s: Subscription)
    requires
        c.wf(),
        s.valid_for(c),
        c.history().len() - s.next > c.capacity,
    ensures
        s.next < c.first,
{
}

impl Subscription {
    /// A subscription's position never runs past the channel's history.
    pub open spec fn valid_for(self, c: FanoutChannel) -> bool {
        self.next <= c.history().len()
    }

    /// Polls for the next reading; never waits.
    ///
    /// A subscriber that has not lagged observes readings in the exact order
    /// published, each exactly once: every poll yields the history entry at
    /// its position and advances the position by one, so there is no
    /// duplication and no omission. A subscriber that fell behind the
    /// retained window — more than `capacity` readings published since its
    /// position — observes a lag indication carrying the number of readings
    /// lost, and resumes at the oldest retained reading; it never blocks
    /// the producer.
    pub fn poll(&mut self, c: &FanoutChannel) -> (r: PollOutcome)
        requires
            c.wf(),
            old(self).valid_for(*c),
        ensures
            final(self).valid_for(*c),
            old(self).next == c.history().len() ==> {
                &&& r is Empty
                &&& final(self).next == old(self).next
            },
            old(self).next < c.first ==> {
                &&& r == PollOutcome::Lagged((c.first - old(self).next) as u64)
                &&& final(self).next == c.first
            },
            c.first <= old(self).next < c.history().len() ==> {
                &&& r == PollOutcome::Data(c.history()[old(self).next as int])
                &&& final(self).next == old(self).next + 1
            },
    {
        let total: u64 = c.first + c.buf.len() as u64;
        if self.next >= total {
            PollOutcome::Empty
        } else if self.next < c.first {
            let missed = c.first - self.next;
            self.next = c.first;
            PollOutcome::Lagged(missed)
        } else {
            let i: usize = (self.next - c.first) as usize;
            let r = c.buf[i];
            self.next = self.next + 1;
            PollOutcome::Data(r)
        }
    }
}

} // verus!
