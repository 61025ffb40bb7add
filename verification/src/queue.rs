//! The queue between the feed and the chart: the feed puts candles in as they
//! arrive, and the chart takes them all out once per frame, in the order they
//! came in. The queue is bounded: when it is full, the feed is told so and the
//! candle stays with the feed.

use vstd::prelude::*;
use crate::market_data::Candle;
use crate::market_data::candle_views;
use crate::market_data::CandleView;
use crate::window::MAX_CANDLES;

verus! {

/// The capacity of a queue when none is asked for.
pub const DEFAULT_QUEUE_CAPACITY: usize = 1024;

/// The mathematical content of a queue.
pub struct QueueView {
    /// The candles that wait, oldest first.
    pub pending: Seq<CandleView>,
    /// The most candles that can wait.
    pub capacity: nat,
}

impl QueueView {
    /// The queue is within its capacity.
    pub open spec fn wf(self) -> bool {
        1 <= self.capacity <= MAX_CANDLES && self.pending.len() <= self.capacity
    }

    /// Whether there is no room for another candle.
    pub open spec fn is_full(self) -> bool {
        self.pending.len() >= self.capacity
    }
}

/// The capacity that a queue gets when `asked` is asked for: at least one
/// candle, at most `MAX_CANDLES`.
pub open spec fn granted_queue_capacity(asked: nat) -> nat {
    if asked < 1 {
        1
    } else if asked > MAX_CANDLES {
        MAX_CANDLES as nat
    } else {
        asked
    }
}

/// A bounded queue of candles, first in, first out.
#[derive(Debug)]
pub struct CandleQueue {
    pending: Vec<Candle>,
    capacity: usize,
}

impl View for CandleQueue {
    type V = QueueView;

    closed spec fn view(&self) -> QueueView {
        QueueView { pending: candle_views(self.pending@), capacity: self.capacity as nat }
    }
}

impl CandleQueue {
    #[verifier::type_invariant]
    spec fn inv(self) -> bool {
        self@.wf()
    }

    /// An empty queue.
    pub fn new(capacity: usize) -> (q: CandleQueue)
        ensures
            q@ == (QueueView {
                pending: Seq::empty(),
                capacity: granted_queue_capacity(capacity as nat),
            }),
    {
        let granted: usize = if capacity < 1 {
            1
        } else if capacity > MAX_CANDLES {
            MAX_CANDLES
        } else {
            capacity
        };
        let q = CandleQueue { pending: Vec::new(), capacity: granted };
        assert(q@.pending =~= Seq::empty());
        q
    }

    /// Puts a candle at the end of the queue, if there is room. Says whether
    /// it did; a full queue stays as it is.
    pub fn push(&mut self, candle: Candle) -> (taken: bool)
        ensures
            taken == !old(self)@.is_full(),
            final(self)@.capacity == old(self)@.capacity,
            final(self)@.pending == if taken {
                old(self)@.pending.push(candle@)
            } else {
                old(self)@.pending
            },
            final(self)@.wf(),
    {
        proof {
            use_type_invariant(&*self);
        }
        if self.pending.len() >= self.capacity {
            return false;
        }
        let ghost before = self@.pending;
        let mut pending: Vec<Candle> = Vec::new();
        assert(candle_views(pending@) =~= Seq::empty());
        core::mem::swap(&mut self.pending, &mut pending);
        pending.push(candle);
        assert(candle_views(pending@) =~= before.push(candle@));
        core::mem::swap(&mut self.pending, &mut pending);
        true
    }

    /// Takes every candle out, in the order they came in.
    pub fn take_all(&mut self) -> (candles: Vec<Candle>)
        ensures
            candle_views(candles@) == old(self)@.pending,
            final(self)@ == (QueueView { pending: Seq::empty(), capacity: old(self)@.capacity }),
    {
        proof {
            use_type_invariant(&*self);
        }
        let mut pending: Vec<Candle> = Vec::new();
        assert(candle_views(pending@) =~= Seq::empty());
        core::mem::swap(&mut self.pending, &mut pending);
        pending
    }

    /// The number of candles that wait.
    pub fn len(&self) -> (n: usize)
        ensures
            n == self@.pending.len(),
            self@.wf(),
    {
        proof {
            use_type_invariant(self);
        }
        self.pending.len()
    }

    /// Whether no candle waits.
    pub fn is_empty(&self) -> (empty: bool)
        ensures
            empty == (self@.pending.len() == 0),
    {
        self.pending.len() == 0
    }

    /// The most candles that can wait.
    pub fn capacity(&self) -> (n: usize)
        ensures
            n == self@.capacity,
            self@.wf(),
    {
        proof {
            use_type_invariant(self);
        }
        self.capacity
    }
}

impl Default for CandleQueue {
    /// An empty queue of the default capacity.
    fn default() -> (q: CandleQueue)
        ensures
            q@ == (QueueView {
                pending: Seq::empty(),
                capacity: DEFAULT_QUEUE_CAPACITY as nat,
            }),
    {
        CandleQueue::new(DEFAULT_QUEUE_CAPACITY)
    }
}

} // verus!
