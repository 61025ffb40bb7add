//! The window of candles that is on screen, and the range of prices it is
//! shown in.

use vstd::prelude::*;
use crate::market_data::Candle;
use crate::market_data::candle_views;
use crate::market_data::CandleView;
use crate::market_data::Price;
use crate::market_data::PRICE_LIMIT;
use crate::series::newest;

verus! {

/// The most candles one window can hold.
pub const MAX_CANDLES: usize = 1_000_000;

/// The narrowest price range that is drawn, in ticks: a hundredth of a unit.
pub const MIN_PRICE_RANGE: i64 = 1_000_000;

/// The number of candles that a window of `count` is given room for.
pub open spec fn window_room(count: nat) -> nat {
    if count > MAX_CANDLES {
        MAX_CANDLES as nat
    } else {
        count
    }
}

/// A run of candles to be drawn, oldest first; never more than
/// `MAX_CANDLES`.
#[derive(Debug)]
pub struct CandleWindow {
    candles: Vec<Candle>,
}

impl View for CandleWindow {
    type V = Seq<CandleView>;

    closed spec fn view(&self) -> Seq<CandleView> {
        candle_views(self.candles@)
    }
}

impl CandleWindow {
    #[verifier::type_invariant]
    spec fn inv(self) -> bool {
        self.candles@.len() <= MAX_CANDLES
    }

    /// The last `count` candles of the run, or all of them if there are
    /// fewer.
    pub fn latest(candles: &Vec<Candle>, count: usize) -> (window: CandleWindow)
        ensures
            window@ == newest(candle_views(candles@), window_room(count as nat)),
            window@.len() <= MAX_CANDLES,
    {
        let room: usize = if count > MAX_CANDLES {
            MAX_CANDLES
        } else {
            count
        };
        let len: usize = candles.len();
        let start: usize = if room < len {
            len - room
        } else {
            0
        };
        let ghost all = candle_views(candles@);
        let mut taken: Vec<Candle> = Vec::new();
        let mut i: usize = start;
        while i < len
            invariant
                start <= i <= len,
                len == candles.len(),
                len - start <= MAX_CANDLES,
                all == candle_views(candles@),
                taken@.len() == i - start,
                candle_views(taken@) =~= all.subrange(start as int, i as int),
            decreases len - i,
        {
            let ghost so_far = candle_views(taken@);
            taken.push(candles[i]);
            assert(candle_views(taken@) =~= so_far.push(all[i as int]));
            i = i + 1;
        }
        assert(all.subrange(start as int, len as int) =~= newest(all, room as nat));
        CandleWindow { candles: taken }
    }

    /// The number of candles in the window.
    pub fn len(&self) -> (n: usize)
        ensures
            n == self@.len(),
            n <= MAX_CANDLES,
    {
        proof {
            use_type_invariant(self);
        }
        self.candles.len()
    }

    /// Whether the window holds no candle.
    pub fn is_empty(&self) -> (empty: bool)
        ensures
            empty == (self@.len() == 0),
    {
        self.candles.len() == 0
    }

    /// The candles of the window, oldest first.
    pub fn candles(&self) -> (candles: &Vec<Candle>)
        ensures
            candle_views(candles@) == self@,
            candles@.len() == self@.len(),
            candles@.len() <= MAX_CANDLES,
    {
        proof {
            use_type_invariant(self);
        }
        &self.candles
    }
}

/// The least low among the candles; zero where there are none.
pub open spec fn min_low(candles: Seq<CandleView>) -> int
    decreases candles.len(),
{
    if candles.len() == 0 {
        0
    } else if candles.len() == 1 {
        candles[0].ohlcv.low
    } else {
        let rest = min_low(candles.drop_last());
        if candles.last().ohlcv.low < rest {
            candles.last().ohlcv.low
        } else {
            rest
        }
    }
}

/// The greatest high among the candles; zero where there are none.
pub open spec fn max_high(candles: Seq<CandleView>) -> int
    decreases candles.len(),
{
    if candles.len() == 0 {
        0
    } else if candles.len() == 1 {
        candles[0].ohlcv.high
    } else {
        let rest = max_high(candles.drop_last());
        if candles.last().ohlcv.high > rest {
            candles.last().ohlcv.high
        } else {
            rest
        }
    }
}

/// `min_low` is a low of the run and no low is below it; likewise `max_high`.
pub proof fn lemma_extremes(candles: Seq<CandleView>)
    requires
        candles.len() > 0,
    ensures
        exists|i: int| 0 <= i < candles.len() && candles[i].ohlcv.low == min_low(candles),
        forall|i: int| 0 <= i < candles.len() ==> min_low(candles) <= candles[i].ohlcv.low,
        exists|i: int| 0 <= i < candles.len() && candles[i].ohlcv.high == max_high(candles),
        forall|i: int| 0 <= i < candles.len() ==> max_high(candles) >= candles[i].ohlcv.high,
    decreases candles.len(),
{
    if candles.len() == 1 {
        assert(candles[0].ohlcv.low == min_low(candles));
        assert(candles[0].ohlcv.high == max_high(candles));
    } else {
        let rest = candles.drop_last();
        lemma_extremes(rest);
        let last = candles.len() - 1;
        let i_low = choose|i: int| 0 <= i < rest.len() && rest[i].ohlcv.low == min_low(rest);
        let i_high = choose|i: int| 0 <= i < rest.len() && rest[i].ohlcv.high == max_high(rest);
        assert(rest[i_low] == candles[i_low]);
        assert(rest[i_high] == candles[i_high]);
        if candles.last().ohlcv.low < min_low(rest) {
            assert(candles[last].ohlcv.low == min_low(candles));
        } else {
            assert(candles[i_low].ohlcv.low == min_low(candles));
        }
        if candles.last().ohlcv.high > max_high(rest) {
            assert(candles[last].ohlcv.high == max_high(candles));
        } else {
            assert(candles[i_high].ohlcv.high == max_high(candles));
        }
        assert forall|i: int| 0 <= i < candles.len() implies min_low(candles)
            <= candles[i].ohlcv.low && max_high(candles) >= candles[i].ohlcv.high by {
            if i < last {
                assert(rest[i] == candles[i]);
            }
        }
    }
}

/// How the vertical price range of the screen is chosen.
#[derive(Clone, Copy, Debug, PartialEq)]
pub enum PriceRange {
    /// From the candles on screen, with a margin of a twentieth of their span
    /// on either side.
    Auto,
    /// Pinned by hand to the given bounds.
    Pinned { min: Price, max: Price },
}

/// The range taken from the candles on screen: their span, widened by a
/// twentieth of itself on either side.
pub open spec fn auto_bounds(visible: Seq<CandleView>) -> (int, int) {
    let lo = min_low(visible);
    let hi = max_high(visible);
    let pad = (hi - lo) / 20;
    (lo - pad, hi + pad)
}

impl PriceRange {
    /// The bounds that the setting gives for the candles on screen.
    pub open spec fn bounds(self, visible: Seq<CandleView>) -> (int, int) {
        match self {
            PriceRange::Auto => auto_bounds(visible),
            PriceRange::Pinned { min, max } => (min@, max@),
        }
    }
}

/// A range that is too narrow to be drawn.
pub open spec fn is_degenerate(bounds: (int, int)) -> bool {
    bounds.1 - bounds.0 < MIN_PRICE_RANGE
}

/// A range that prices can be mapped through without leaving `i64`.
pub open spec fn usable_range(lo: int, hi: int) -> bool {
    &&& -(PRICE_LIMIT / 20) <= lo
    &&& hi <= PRICE_LIMIT + PRICE_LIMIT / 20
    &&& hi - lo >= MIN_PRICE_RANGE
}

/// A range of prices that is wide enough to be drawn.
#[derive(Clone, Copy, Debug, PartialEq, Eq)]
pub struct PriceBounds {
    lo: i64,
    hi: i64,
}

impl View for PriceBounds {
    type V = (int, int);

    closed spec fn view(&self) -> (int, int) {
        (self.lo as int, self.hi as int)
    }
}

impl PriceBounds {
    #[verifier::type_invariant]
    spec fn inv(self) -> bool {
        usable_range(self.lo as int, self.hi as int)
    }

    /// The range from `lo` to `hi`, if prices can be mapped through it.
    pub fn new(lo: i64, hi: i64) -> (r: Option<PriceBounds>)
        ensures
            match r {
                Some(b) => usable_range(lo as int, hi as int) && b@ == (lo as int, hi as int),
                None => !usable_range(lo as int, hi as int),
            },
    {
        if -(PRICE_LIMIT / 20) <= lo && hi <= PRICE_LIMIT + PRICE_LIMIT / 20 && lo <= hi && hi - lo
            >= MIN_PRICE_RANGE {
            Some(PriceBounds { lo, hi })
        } else {
            None
        }
    }

    /// The lower end of the range, in ticks.
    pub fn lo(&self) -> (lo: i64)
        ensures
            lo == self@.0,
            usable_range(self@.0, self@.1),
    {
        proof {
            use_type_invariant(self);
        }
        self.lo
    }

    /// The upper end of the range, in ticks.
    pub fn hi(&self) -> (hi: i64)
        ensures
            hi == self@.1,
            usable_range(self@.0, self@.1),
    {
        proof {
            use_type_invariant(self);
        }
        self.hi
    }
}

/// The bounds that the setting gives for the window, unless they are too
/// narrow to be drawn.
pub fn resolve_bounds(range: &PriceRange, window: &CandleWindow) -> (r: Option<PriceBounds>)
    ensures
        match r {
            Some(b) => b@ == range.bounds(window@) && !is_degenerate(b@),
            None => is_degenerate(range.bounds(window@)),
        },
{
    let (lo, hi) = raw_bounds(range, window);
    PriceBounds::new(lo, hi)
}

/// The bounds that the setting gives for the window, wide or narrow.
fn raw_bounds(range: &PriceRange, window: &CandleWindow) -> (b: (i64, i64))
    ensures
        (b.0 as int, b.1 as int) == range.bounds(window@),
        -(PRICE_LIMIT / 20) <= b.0 <= PRICE_LIMIT,
        0 <= b.1 <= PRICE_LIMIT + PRICE_LIMIT / 20,
{
    let visible = window.candles();
    match range {
        PriceRange::Pinned { min, max } => (min.value(), max.value()),
        PriceRange::Auto => {
            if visible.len() == 0 {
                return (0, 0);
            }
            let ghost views = candle_views(visible@);
            let first = visible[0].ohlcv();
            let mut lo: i64 = first.low.value();
            let mut hi: i64 = first.high.value();
            assert(views.take(1) =~= seq![views[0]]);
            let mut i: usize = 1;
            while i < visible.len()
                invariant
                    1 <= i <= visible.len(),
                    views == candle_views(visible@),
                    lo == min_low(views.take(i as int)),
                    hi == max_high(views.take(i as int)),
                    0 <= lo <= PRICE_LIMIT,
                    0 <= hi <= PRICE_LIMIT,
                    lo <= hi,
                decreases visible.len() - i,
            {
                let o = visible[i].ohlcv();
                let low: i64 = o.low.value();
                let high: i64 = o.high.value();
                proof {
                    let next = views.take(i + 1);
                    assert(next.drop_last() =~= views.take(i as int));
                    assert(next.last() == visible@[i as int]@);
                }
                if low < lo {
                    lo = low;
                }
                if high > hi {
                    hi = high;
                }
                i = i + 1;
            }
            assert(views.take(visible.len() as int) =~= views);
            let pad: i64 = (hi - lo) / 20;
            (lo - pad, hi + pad)
        },
    }
}

} // verus!
