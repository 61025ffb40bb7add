//! The candle series store: a bounded run of candles in strictly increasing
//! order of time, changed only by merging the latest tick in.
//!
//! A candle for the bucket that is stored last replaces it; a candle for a
//! later bucket is appended, and the oldest candle leaves when the series is
//! full; anything older is refused. Every change moves the data version on,
//! which is how a reader notices it.

use vstd::prelude::*;
use crate::window::MAX_CANDLES;
use crate::market_data::Candle;
use crate::market_data::candle_views;
use crate::market_data::CandleView;

verus! {

/// The capacity of a series when none is asked for.
pub const DEFAULT_CAPACITY: usize = 300;

/// Why a candle was not taken into the series.
#[derive(Clone, Copy, Debug, PartialEq, Eq, Structural)]
pub enum RejectReason {
    /// The candle is older than the one stored last.
    OutOfOrder,
}

/// What an upsert did.
#[derive(Clone, Copy, Debug, PartialEq, Eq, Structural)]
pub enum UpsertOutcome {
    /// The candle is now the last of the series.
    Appended,
    /// The candle took the place of the one stored last.
    Replaced,
    /// The series is as it was.
    Rejected(RejectReason),
}

/// Each candle is later than all the candles before it.
pub open spec fn strictly_increasing(candles: Seq<CandleView>) -> bool {
    forall|i: int, j: int|
        0 <= i < j < candles.len() ==> (#[trigger] candles[i]).timestamp < (
        #[trigger] candles[j]).timestamp
}

/// Every candle of the run is consistent.
pub open spec fn all_wf(candles: Seq<CandleView>) -> bool {
    forall|i: int| 0 <= i < candles.len() ==> (#[trigger] candles[i]).wf()
}

/// The last `capacity` candles of the run, or all of them if there are fewer.
pub open spec fn newest(candles: Seq<CandleView>, capacity: nat) -> Seq<CandleView> {
    if candles.len() > capacity {
        candles.skip(candles.len() - capacity)
    } else {
        candles
    }
}

/// What an upsert of `c` does to a series that holds `candles`.
pub open spec fn outcome_of(candles: Seq<CandleView>, c: CandleView) -> UpsertOutcome {
    if candles.len() == 0 {
        UpsertOutcome::Appended
    } else if c.timestamp == candles.last().timestamp {
        UpsertOutcome::Replaced
    } else if c.timestamp > candles.last().timestamp {
        UpsertOutcome::Appended
    } else {
        UpsertOutcome::Rejected(RejectReason::OutOfOrder)
    }
}

/// The candles of a series of the given capacity after an upsert of `c`.
pub open spec fn merged(candles: Seq<CandleView>, capacity: nat, c: CandleView) -> Seq<
    CandleView,
> {
    match outcome_of(candles, c) {
        UpsertOutcome::Appended => newest(candles.push(c), capacity),
        UpsertOutcome::Replaced => candles.update(candles.len() - 1, c),
        UpsertOutcome::Rejected(_) => candles,
    }
}

/// The candles of a series of the given capacity after the candles of `feed`
/// were upserted one by one.
pub open spec fn fed(candles: Seq<CandleView>, capacity: nat, feed: Seq<CandleView>) -> Seq<
    CandleView,
>
    decreases feed.len(),
{
    if feed.len() == 0 {
        candles
    } else {
        merged(fed(candles, capacity, feed.drop_last()), capacity, feed.last())
    }
}

/// The version that follows `version`: one more, starting over after the
/// greatest.
pub open spec fn next_version(version: nat) -> nat {
    if version >= u64::MAX {
        0
    } else {
        version + 1
    }
}

/// The mathematical content of a series.
pub struct SeriesView {
    /// The stored candles, oldest first.
    pub candles: Seq<CandleView>,
    /// The most candles the series holds.
    pub capacity: nat,
    /// The data version.
    pub version: nat,
}

impl SeriesView {
    /// The series is within its capacity, in order, and holds only consistent
    /// candles.
    pub open spec fn wf(self) -> bool {
        &&& 1 <= self.capacity <= MAX_CANDLES
        &&& self.candles.len() <= self.capacity
        &&& self.version <= u64::MAX
        &&& strictly_increasing(self.candles)
        &&& all_wf(self.candles)
    }

    /// What an upsert of `c` does.
    pub open spec fn outcome(self, c: CandleView) -> UpsertOutcome {
        outcome_of(self.candles, c)
    }

    /// The series after an upsert of `c`: the candle merged in and the version
    /// moved on, or nothing changed where the candle is refused.
    pub open spec fn upsert(self, c: CandleView) -> SeriesView {
        if self.outcome(c) is Rejected {
            self
        } else {
            SeriesView {
                candles: merged(self.candles, self.capacity, c),
                capacity: self.capacity,
                version: next_version(self.version),
            }
        }
    }

    /// The series after the candles of `feed` were upserted one by one.
    pub open spec fn feed(self, feed: Seq<CandleView>) -> SeriesView
        decreases feed.len(),
    {
        if feed.len() == 0 {
            self
        } else {
            self.feed(feed.drop_last()).upsert(feed.last())
        }
    }

    /// The series after its contents were replaced by a history: what is left
    /// of the history when it is upserted into an empty series, candle by
    /// candle. The version moves on once.
    pub open spec fn load(self, history: Seq<CandleView>) -> SeriesView {
        SeriesView {
            candles: fed(Seq::empty(), self.capacity, history),
            capacity: self.capacity,
            version: next_version(self.version),
        }
    }
}

/// The capacity that a series gets when `asked` is asked for: at least one
/// candle, at most `MAX_CANDLES`.
pub open spec fn granted_capacity(asked: nat) -> nat {
    if asked < 1 {
        1
    } else if asked > MAX_CANDLES {
        MAX_CANDLES as nat
    } else {
        asked
    }
}

/// A bounded series of candles in strictly increasing order of time.
#[derive(Debug)]
pub struct CandleSeries {
    candles: Vec<Candle>,
    capacity: usize,
    version: u64,
}

impl View for CandleSeries {
    type V = SeriesView;

    closed spec fn view(&self) -> SeriesView {
        SeriesView {
            candles: candle_views(self.candles@),
            capacity: self.capacity as nat,
            version: self.version as nat,
        }
    }
}

impl CandleSeries {
    #[verifier::type_invariant]
    spec fn inv(self) -> bool {
        self@.wf()
    }

    /// An empty series at version zero.
    pub fn new(capacity: usize) -> (s: CandleSeries)
        ensures
            s@ == (SeriesView {
                candles: Seq::empty(),
                capacity: granted_capacity(capacity as nat),
                version: 0,
            }),
            s@.wf(),
    {
        let granted: usize = if capacity < 1 {
            1
        } else if capacity > MAX_CANDLES {
            MAX_CANDLES
        } else {
            capacity
        };
        let s = CandleSeries { candles: Vec::new(), capacity: granted, version: 0 };
        assert(s@.candles =~= Seq::empty());
        s
    }

    /// Merges `candle` into the series.
    pub fn upsert(&mut self, candle: Candle) -> (outcome: UpsertOutcome)
        ensures
            outcome == old(self)@.outcome(candle@),
            final(self)@ == old(self)@.upsert(candle@),
            final(self)@.wf(),
    {
        proof {
            use_type_invariant(&*self);
        }
        let ghost before = self@;
        let ghost c = candle@;
        let stamp: u64 = candle.timestamp().value();
        let len: usize = self.candles.len();
        if len > 0 {
            let last: u64 = self.candles[len - 1].timestamp().value();
            assert(last == before.candles.last().timestamp);
            if stamp < last {
                return UpsertOutcome::Rejected(RejectReason::OutOfOrder);
            }
        }
        let mut candles: Vec<Candle> = Vec::new();
        assert(candle_views(candles@) =~= Seq::empty());
        core::mem::swap(&mut self.candles, &mut candles);
        let replaces = len > 0 && candles[len - 1].timestamp().value() == stamp;
        if replaces {
            candles[len - 1] = candle;
            assert(candle_views(candles@) =~= before.candles.update(len - 1, c));
        } else {
            if len == self.capacity {
                let _ = candles.remove(0);
            }
            candles.push(candle);
            assert(candle_views(candles@) =~= newest(before.candles.push(c), before.capacity));
        }
        core::mem::swap(&mut self.candles, &mut candles);
        self.version = self.version.wrapping_add(1);
        if replaces {
            UpsertOutcome::Replaced
        } else {
            UpsertOutcome::Appended
        }
    }

    /// Replaces the contents by a history, as if its candles were upserted one
    /// by one into an empty series.
    pub fn load_history(&mut self, history: &Vec<Candle>)
        ensures
            final(self)@ == old(self)@.load(candle_views(history@)),
            final(self)@.wf(),
    {
        proof {
            use_type_invariant(&*self);
        }
        let ghost feed = candle_views(history@);
        let mut fresh = CandleSeries::new(self.capacity);
        let mut i: usize = 0;
        while i < history.len()
            invariant
                i <= history.len(),
                feed == candle_views(history@),
                fresh@.wf(),
                fresh@.capacity == self@.capacity,
                fresh@.candles == fed(Seq::empty(), self@.capacity, feed.take(i as int)),
            decreases history.len() - i,
        {
            proof {
                let next = feed.take(i + 1);
                assert(next.drop_last() =~= feed.take(i as int));
                assert(next.last() == history@[i as int]@);
            }
            let _ = fresh.upsert(history[i]);
            i = i + 1;
        }
        assert(feed.take(history.len() as int) =~= feed);
        let mut candles: Vec<Candle> = fresh.candles;
        core::mem::swap(&mut self.candles, &mut candles);
        self.version = self.version.wrapping_add(1);
    }

    /// Merges the candles into the series one by one, in the order they come
    /// in. Candles that are refused are passed over.
    pub fn upsert_all(&mut self, candles: &Vec<Candle>)
        ensures
            final(self)@ == old(self)@.feed(candle_views(candles@)),
            final(self)@.wf(),
    {
        proof {
            use_type_invariant(&*self);
        }
        let ghost before = self@;
        let ghost feed = candle_views(candles@);
        let mut i: usize = 0;
        assert(feed.take(0) =~= Seq::empty());
        while i < candles.len()
            invariant
                i <= candles.len(),
                feed == candle_views(candles@),
                self@ == before.feed(feed.take(i as int)),
                self@.wf(),
            decreases candles.len() - i,
        {
            proof {
                let next = feed.take(i + 1);
                assert(next.drop_last() =~= feed.take(i as int));
                assert(next.last() == candles@[i as int]@);
            }
            let _ = self.upsert(candles[i]);
            i = i + 1;
        }
        assert(feed.take(candles.len() as int) =~= feed);
    }

    /// The number of stored candles.
    pub fn len(&self) -> (n: usize)
        ensures
            n == self@.candles.len(),
            self@.wf(),
    {
        proof {
            use_type_invariant(self);
        }
        self.candles.len()
    }

    /// Whether no candle is stored.
    pub fn is_empty(&self) -> (empty: bool)
        ensures
            empty == (self@.candles.len() == 0),
    {
        self.candles.len() == 0
    }

    /// The most candles the series holds.
    pub fn capacity(&self) -> (n: usize)
        ensures
            n == self@.capacity,
            self@.wf(),
    {
        proof {
            use_type_invariant(self);
        }
        self.capacity
    }

    /// The data version: it moves on with every change of the contents.
    pub fn version(&self) -> (v: u64)
        ensures
            v == self@.version,
    {
        self.version
    }

    /// The candle at `index`, counted from the oldest.
    pub fn get(&self, index: usize) -> (r: Option<Candle>)
        ensures
            match r {
                Some(c) => index < self@.candles.len() && c@ == self@.candles[index as int],
                None => index >= self@.candles.len(),
            },
    {
        if index < self.candles.len() {
            Some(self.candles[index])
        } else {
            None
        }
    }

    /// The candle stored last.
    pub fn last(&self) -> (r: Option<Candle>)
        ensures
            match r {
                Some(c) => self@.candles.len() > 0 && c@ == self@.candles.last(),
                None => self@.candles.len() == 0,
            },
    {
        let len: usize = self.candles.len();
        if len > 0 {
            Some(self.candles[len - 1])
        } else {
            None
        }
    }

    /// The stored candles, oldest first.
    pub fn get_candles(&self) -> (candles: &Vec<Candle>)
        ensures
            candle_views(candles@) == self@.candles,
            self@.wf(),
    {
        proof {
            use_type_invariant(self);
        }
        &self.candles
    }
}

impl Clone for CandleSeries {
    /// A series with the same contents, capacity and version.
    fn clone(&self) -> (s: CandleSeries)
        ensures
            s@ == self@,
    {
        proof {
            use_type_invariant(self);
        }
        let mut candles: Vec<Candle> = Vec::new();
        let mut i: usize = 0;
        while i < self.candles.len()
            invariant
                i <= self.candles.len(),
                candle_views(candles@) =~= candle_views(self.candles@).take(i as int),
            decreases self.candles.len() - i,
        {
            let ghost so_far = candle_views(candles@);
            candles.push(self.candles[i]);
            assert(candle_views(candles@) =~= so_far.push(self.candles@[i as int]@));
            i = i + 1;
        }
        assert(candle_views(self.candles@).take(self.candles.len() as int) =~= candle_views(
            self.candles@,
        ));
        CandleSeries { candles, capacity: self.capacity, version: self.version }
    }
}

impl Default for CandleSeries {
    /// An empty series of the default capacity.
    fn default() -> (s: CandleSeries)
        ensures
            s@ == (SeriesView {
                candles: Seq::empty(),
                capacity: DEFAULT_CAPACITY as nat,
                version: 0,
            }),
    {
        CandleSeries::new(DEFAULT_CAPACITY)
    }
}

/// An upsert leaves a series within its capacity, in order, and holding only
/// consistent candles, whatever candle it is given.
pub proof fn lemma_upsert_keeps_wf(s: SeriesView, c: CandleView)
    requires
        s.wf(),
        c.wf(),
    ensures
        s.upsert(c).wf(),
        s.upsert(c).capacity == s.capacity,
{
    let after = s.upsert(c).candles;
    match s.outcome(c) {
        UpsertOutcome::Appended => {
            let grown = s.candles.push(c);
            assert(strictly_increasing(grown)) by {
                assert forall|i: int, j: int| 0 <= i < j < grown.len() implies (
                #[trigger] grown[i]).timestamp < (#[trigger] grown[j]).timestamp by {
                    if j == grown.len() - 1 {
                        assert(grown[i] == s.candles[i]);
                        if i < s.candles.len() - 1 {
                            assert(s.candles[i].timestamp < s.candles[s.candles.len()
                                - 1].timestamp);
                        }
                    } else {
                        assert(grown[i] == s.candles[i] && grown[j] == s.candles[j]);
                    }
                }
            }
            assert(all_wf(grown)) by {
                assert forall|i: int| 0 <= i < grown.len() implies (#[trigger] grown[i]).wf() by {
                    if i < s.candles.len() {
                        assert(grown[i] == s.candles[i]);
                    }
                }
            }
            assert(after == newest(grown, s.capacity));
            if grown.len() > s.capacity {
                let cut = grown.len() - s.capacity;
                assert forall|i: int, j: int| 0 <= i < j < after.len() implies (
                #[trigger] after[i]).timestamp < (#[trigger] after[j]).timestamp by {
                    assert(after[i] == grown[i + cut] && after[j] == grown[j + cut]);
                }
                assert forall|i: int| 0 <= i < after.len() implies (#[trigger] after[i]).wf() by {
                    assert(after[i] == grown[i + cut]);
                }
            }
        },
        UpsertOutcome::Replaced => {
            let last = s.candles.len() - 1;
            assert forall|i: int, j: int| 0 <= i < j < after.len() implies (
            #[trigger] after[i]).timestamp < (#[trigger] after[j]).timestamp by {
                assert(after[i] == s.candles[i]);
                if j == last {
                    assert(after[j].timestamp == s.candles[last].timestamp);
                } else {
                    assert(after[j] == s.candles[j]);
                }
            }
            assert forall|i: int| 0 <= i < after.len() implies (#[trigger] after[i]).wf() by {
                if i < last {
                    assert(after[i] == s.candles[i]);
                }
            }
        },
        UpsertOutcome::Rejected(_) => {},
    }
}

/// However many candles are upserted, and in whatever order they come, the
/// series never holds more than its capacity, and what it holds is in
/// strictly increasing order of time.
pub proof fn lemma_feed_keeps_wf(s: SeriesView, feed: Seq<CandleView>)
    requires
        s.wf(),
        all_wf(feed),
    ensures
        fed(s.candles, s.capacity, feed).len() <= s.capacity,
        strictly_increasing(fed(s.candles, s.capacity, feed)),
        all_wf(fed(s.candles, s.capacity, feed)),
    decreases feed.len(),
{
    if feed.len() > 0 {
        let earlier = feed.drop_last();
        assert(all_wf(earlier)) by {
            assert forall|i: int| 0 <= i < earlier.len() implies (#[trigger] earlier[i]).wf() by {
                assert(earlier[i] == feed[i]);
            }
        }
        lemma_feed_keeps_wf(s, earlier);
        let mid = SeriesView {
            candles: fed(s.candles, s.capacity, earlier),
            capacity: s.capacity,
            version: s.version,
        };
        assert(feed.last().wf());
        lemma_upsert_keeps_wf(mid, feed.last());
    }
}

/// Upserting candles one by one leaves the capacity alone, and the candles
/// that `fed` describes.
pub proof fn lemma_feed_candles(s: SeriesView, feed: Seq<CandleView>)
    ensures
        s.feed(feed).capacity == s.capacity,
        s.feed(feed).candles == fed(s.candles, s.capacity, feed),
    decreases feed.len(),
{
    if feed.len() > 0 {
        lemma_feed_candles(s, feed.drop_last());
    }
}

/// A candle for the bucket that is stored last takes the place of that one
/// record: the length stays, and every other candle stays where it was.
pub proof fn lemma_same_bucket_replaces(s: SeriesView, c: CandleView)
    requires
        s.wf(),
        s.candles.len() > 0,
        c.timestamp == s.candles.last().timestamp,
    ensures
        s.outcome(c) == UpsertOutcome::Replaced,
        s.upsert(c).candles.len() == s.candles.len(),
        s.upsert(c).candles.last() == c,
        forall|i: int|
            0 <= i < s.candles.len() - 1 ==> s.upsert(c).candles[i] == #[trigger] s.candles[i],
{
}

/// A candle that is no later than some candle before the last is refused, and
/// the series stays exactly as it was: stale data can be replayed at will.
pub proof fn lemma_stale_is_rejected(s: SeriesView, c: CandleView, i: int)
    requires
        s.wf(),
        0 <= i < s.candles.len() - 1,
        c.timestamp <= s.candles[i].timestamp,
    ensures
        s.outcome(c) == UpsertOutcome::Rejected(RejectReason::OutOfOrder),
        s.upsert(c) == s,
{
    assert(s.candles[i].timestamp < s.candles[s.candles.len() - 1].timestamp);
}

/// A candle that is older than the one stored last is refused, wherever it
/// would fall among the stored candles, and the series stays exactly as it
/// was: nothing is ever inserted out of order.
pub proof fn lemma_older_is_rejected(s: SeriesView, c: CandleView)
    requires
        s.candles.len() > 0,
        c.timestamp < s.candles.last().timestamp,
    ensures
        s.outcome(c) == UpsertOutcome::Rejected(RejectReason::OutOfOrder),
        s.upsert(c) == s,
{
}

/// A candle is taken in exactly when the series is empty or the candle is no
/// older than the one stored last.
pub proof fn lemma_accepted_iff_not_older(s: SeriesView, c: CandleView)
    ensures
        !(s.outcome(c) is Rejected) <==> (s.candles.len() == 0 || c.timestamp
            >= s.candles.last().timestamp),
{
}

/// Every upsert that is not refused moves the data version to another value.
pub proof fn lemma_accepted_upsert_moves_version(s: SeriesView, c: CandleView)
    requires
        s.wf(),
        !(s.outcome(c) is Rejected),
    ensures
        s.upsert(c).version != s.version,
        s.upsert(c).version == next_version(s.version),
{
}

/// Candles that come in strictly increasing order of time are all taken in,
/// and an empty series then holds the last of them, as many as it has room
/// for: the oldest have left, first in, first out.
pub proof fn lemma_ascending_feed(capacity: nat, feed: Seq<CandleView>)
    requires
        capacity >= 1,
        strictly_increasing(feed),
    ensures
        fed(Seq::empty(), capacity, feed) == newest(feed, capacity),
    decreases feed.len(),
{
    if feed.len() > 0 {
        let earlier = feed.drop_last();
        assert(strictly_increasing(earlier)) by {
            assert forall|i: int, j: int| 0 <= i < j < earlier.len() implies (
            #[trigger] earlier[i]).timestamp < (#[trigger] earlier[j]).timestamp by {
                assert(earlier[i] == feed[i] && earlier[j] == feed[j]);
            }
        }
        lemma_ascending_feed(capacity, earlier);
        let held = newest(earlier, capacity);
        let c = feed.last();
        if held.len() > 0 {
            assert(held.last() == feed[feed.len() - 2]);
            assert(feed[feed.len() - 2].timestamp < feed[feed.len() - 1].timestamp);
            assert(outcome_of(held, c) == UpsertOutcome::Appended);
        }
        assert(earlier.push(c) =~= feed);
        assert(newest(held.push(c), capacity) =~= newest(feed, capacity));
    }
}

} // verus!
