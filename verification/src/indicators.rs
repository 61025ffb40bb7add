//! Moving averages over the closes of a window of candles, and the lines that
//! draw them.
//!
//! An average has a point for every candle at which its window is full, and
//! none before: a window that is longer than the run of candles gives no
//! point at all. Nothing is kept between calls.

use vstd::prelude::*;
use vstd::arithmetic::div_mod::lemma_div_pos_is_pos;
use crate::fixed_point::lemma_floor_div_bound;
use crate::geometry::candle_x_position;
use crate::geometry::price_y;
use crate::geometry::spec_candle_x;
use crate::geometry::spec_price_y;
use crate::market_data::Candle;
use crate::market_data::candle_views;
use crate::market_data::CandleView;
use crate::market_data::Price;
use crate::market_data::PRICE_LIMIT;
use crate::vertex::ElementKind;
use crate::vertex::IndicatorType;
use crate::vertex::push_segment;
use crate::vertex::segment;
use crate::vertex::Vertex;
use crate::window::CandleWindow;
use crate::window::MAX_CANDLES;
use crate::window::PriceBounds;

verus! {

/// Half the thickness of an indicator line.
pub const INDICATOR_HALF: i64 = 9_000;

/// Which indicator lines are drawn. The flags only filter what is drawn: the
/// series and the averages themselves do not depend on them.
#[derive(Clone, Copy, Debug, PartialEq, Eq, Structural)]
pub struct LineVisibility {
    pub sma_20: bool,
    pub sma_50: bool,
    pub sma_200: bool,
    pub ema_12: bool,
    pub ema_26: bool,
}

impl LineVisibility {
    /// Whether the line of the given average is drawn.
    pub open spec fn spec_shows(self, kind: IndicatorType) -> bool {
        match kind {
            IndicatorType::Sma20 => self.sma_20,
            IndicatorType::Sma50 => self.sma_50,
            IndicatorType::Sma200 => self.sma_200,
            IndicatorType::Ema12 => self.ema_12,
            IndicatorType::Ema26 => self.ema_26,
        }
    }

    /// Whether the line of the given average is drawn.
    pub fn shows(&self, kind: IndicatorType) -> (on: bool)
        ensures
            on == self.spec_shows(kind),
    {
        match kind {
            IndicatorType::Sma20 => self.sma_20,
            IndicatorType::Sma50 => self.sma_50,
            IndicatorType::Sma200 => self.sma_200,
            IndicatorType::Ema12 => self.ema_12,
            IndicatorType::Ema26 => self.ema_26,
        }
    }
}

impl Default for LineVisibility {
    /// Every line is drawn.
    fn default() -> (v: LineVisibility)
        ensures
            v == (LineVisibility {
                sma_20: true,
                sma_50: true,
                sma_200: true,
                ema_12: true,
                ema_26: true,
            }),
    {
        LineVisibility { sma_20: true, sma_50: true, sma_200: true, ema_12: true, ema_26: true }
    }
}

/// The mathematical content of a point of an average.
pub struct PointView {
    /// Index of the candle in the window.
    pub index: int,
    /// The average at that candle, in ticks.
    pub value: int,
}

/// One point of an average: the candle it belongs to, and the average there.
#[derive(Clone, Copy, Debug, PartialEq)]
pub struct IndicatorPoint {
    /// Index of the candle in the window.
    pub index: usize,
    /// The average at that candle.
    pub value: Price,
}

impl View for IndicatorPoint {
    type V = PointView;

    open spec fn view(&self) -> PointView {
        PointView { index: self.index as int, value: self.value@ }
    }
}

/// The contents of a run of points.
pub open spec fn point_views(points: Seq<IndicatorPoint>) -> Seq<PointView> {
    points.map_values(|p: IndicatorPoint| p@)
}

/// The closes of a run of candles.
pub open spec fn closes(candles: Seq<CandleView>) -> Seq<int> {
    candles.map_values(|c: CandleView| c.ohlcv.close)
}

/// The sum of the `n` closes from `start` on.
pub open spec fn window_sum(closes: Seq<int>, start: int, n: nat) -> int
    decreases n,
{
    if n == 0 {
        0
    } else {
        window_sum(closes, start, (n - 1) as nat) + closes[start + n - 1]
    }
}

/// The simple average at candle `end`: the mean of the `period` closes that
/// end there, rounded down.
pub open spec fn sma_at(closes: Seq<int>, period: nat, end: int) -> int {
    window_sum(closes, end + 1 - period, period) / (period as int)
}

/// The exponential average at candle `i`: the first close at the start, and
/// from then on `close * k + previous * (1 - k)` with `k = 2 / (period + 1)`,
/// rounded down.
pub open spec fn ema_at(closes: Seq<int>, period: nat, i: int) -> int
    decreases i,
{
    if i <= 0 {
        closes[0]
    } else {
        (2 * closes[i] + (period - 1) * ema_at(closes, period, i - 1)) / ((period + 1) as int)
    }
}

/// How many points an average with the given window has over `len` candles.
pub open spec fn point_count(len: nat, period: nat) -> nat {
    if period == 0 || len < period {
        0
    } else {
        (len - period + 1) as nat
    }
}

/// The points of the simple average: one for each candle from index
/// `period - 1` on.
pub open spec fn sma_points(closes: Seq<int>, period: nat) -> Seq<PointView> {
    Seq::new(
        point_count(closes.len(), period),
        |k: int| PointView { index: k + period - 1, value: sma_at(closes, period, k + period - 1) },
    )
}

/// The points of the exponential average: one for each candle from index
/// `period - 1` on. The values before that are computed and not shown.
pub open spec fn ema_points(closes: Seq<int>, period: nat) -> Seq<PointView> {
    Seq::new(
        point_count(closes.len(), period),
        |k: int| PointView { index: k + period - 1, value: ema_at(closes, period, k + period - 1) },
    )
}

/// The points of the given average.
pub open spec fn average_points(closes: Seq<int>, kind: IndicatorType) -> Seq<PointView> {
    if kind.spec_is_exponential() {
        ema_points(closes, kind.spec_period())
    } else {
        sma_points(closes, kind.spec_period())
    }
}

/// Every close is an admissible price.
pub open spec fn admissible(closes: Seq<int>) -> bool {
    forall|i: int| 0 <= i < closes.len() ==> Price::admits(#[trigger] closes[i])
}

/// A sum of admissible prices is not negative and at most the limit times
/// their number.
pub proof fn lemma_window_sum_bound(closes: Seq<int>, start: int, n: nat)
    requires
        admissible(closes),
        0 <= start,
        start + n <= closes.len(),
    ensures
        0 <= window_sum(closes, start, n) <= n * PRICE_LIMIT,
    decreases n,
{
    if n > 0 {
        lemma_window_sum_bound(closes, start, (n - 1) as nat);
        assert(Price::admits(closes[start + n - 1]));
        assert((n - 1) * PRICE_LIMIT + PRICE_LIMIT == n * PRICE_LIMIT) by (nonlinear_arith);
    }
}

/// A simple average of admissible prices is an admissible price.
pub proof fn lemma_sma_admissible(closes: Seq<int>, period: nat, end: int)
    requires
        admissible(closes),
        period > 0,
        period - 1 <= end < closes.len(),
    ensures
        Price::admits(sma_at(closes, period, end)),
{
    lemma_window_sum_bound(closes, end + 1 - period, period);
    let sum = window_sum(closes, end + 1 - period, period);
    assert(PRICE_LIMIT * period == period * PRICE_LIMIT) by (nonlinear_arith);
    lemma_floor_div_bound(sum, period as int, period as int, PRICE_LIMIT as int);
    lemma_div_pos_is_pos(sum, period as int);
}

/// An exponential average of admissible prices is an admissible price.
pub proof fn lemma_ema_admissible(closes: Seq<int>, period: nat, i: int)
    requires
        admissible(closes),
        period > 0,
        0 <= i < closes.len(),
    ensures
        Price::admits(ema_at(closes, period, i)),
    decreases i,
{
    if i <= 0 {
        assert(Price::admits(closes[0]));
    } else {
        lemma_ema_admissible(closes, period, i - 1);
        let prev = ema_at(closes, period, i - 1);
        assert(Price::admits(closes[i]));
        let total = 2 * closes[i] + (period - 1) * prev;
        assert(0 <= total <= PRICE_LIMIT * (period + 1)) by (nonlinear_arith)
            requires
                total == 2 * closes[i] + (period - 1) * prev,
                0 <= closes[i] <= PRICE_LIMIT,
                0 <= prev <= PRICE_LIMIT,
                period > 0,
        ;
        lemma_floor_div_bound(
            total,
            (period + 1) as int,
            (period + 1) as int,
            PRICE_LIMIT as int,
        );
        lemma_div_pos_is_pos(total, (period + 1) as int);
    }
}

/// Every point belongs to one of `count` candles.
pub open spec fn in_window(points: Seq<PointView>, count: nat) -> bool {
    forall|k: int| 0 <= k < points.len() ==> 0 <= (#[trigger] points[k]).index < count
}

/// The close of the candle at `i`.
fn close_at(candles: &Vec<Candle>, i: usize) -> (close: i64)
    requires
        i < candles.len(),
    ensures
        close == closes(candle_views(candles@))[i as int],
        Price::admits(close as int),
{
    candles[i].ohlcv().close.value()
}

/// The simple moving average of the closes over a window of `period` candles.
pub fn simple_moving_average(candles: &Vec<Candle>, period: usize) -> (points: Vec<IndicatorPoint>)
    ensures
        point_views(points@) == sma_points(closes(candle_views(candles@)), period as nat),
        points@.len() == point_count(candles@.len(), period as nat),
        in_window(point_views(points@), candles@.len()),
{
    let ghost prices = closes(candle_views(candles@));
    let mut points: Vec<IndicatorPoint> = Vec::new();
    if period == 0 || candles.len() < period {
        assert(point_views(points@) =~= sma_points(prices, period as nat));
        return points;
    }
    let mut end: usize = period - 1;
    while end < candles.len()
        invariant
            period > 0,
            period - 1 <= end <= candles.len(),
            prices == closes(candle_views(candles@)),
            points@.len() == end + 1 - period,
            forall|k: int|
                0 <= k < points@.len() ==> (#[trigger] points@[k])@ == sma_points(
                    prices,
                    period as nat,
                )[k],
        decreases candles.len() - end,
    {
        let start: usize = end + 1 - period;
        let mut sum: i128 = 0;
        let mut j: usize = 0;
        while j < period
            invariant
                j <= period,
                start + period <= candles.len(),
                prices == closes(candle_views(candles@)),
                sum == window_sum(prices, start as int, j as nat),
                0 <= sum <= j * PRICE_LIMIT,
            decreases period - j,
        {
            let close: i64 = close_at(candles, start + j);
            assert((j + 1) * PRICE_LIMIT == j * PRICE_LIMIT + PRICE_LIMIT) by (nonlinear_arith);
            assert(j * PRICE_LIMIT <= usize::MAX * PRICE_LIMIT) by (nonlinear_arith)
                requires
                    j <= usize::MAX,
            ;
            sum = sum + close as i128;
            j = j + 1;
        }
        proof {
            assert(PRICE_LIMIT * period == period * PRICE_LIMIT) by (nonlinear_arith);
            lemma_floor_div_bound(sum as int, period as int, period as int, PRICE_LIMIT as int);
            lemma_div_pos_is_pos(sum as int, period as int);
        }
        let mean: i128 = sum / (period as i128);
        points.push(IndicatorPoint { index: end, value: Price::from_ticks(mean as i64) });
        end = end + 1;
    }
    assert(point_views(points@) =~= sma_points(prices, period as nat));
    points
}

/// The exponential moving average of the closes over a window of `period`
/// candles.
pub fn exponential_moving_average(candles: &Vec<Candle>, period: usize) -> (points: Vec<
    IndicatorPoint,
>)
    ensures
        point_views(points@) == ema_points(closes(candle_views(candles@)), period as nat),
        points@.len() == point_count(candles@.len(), period as nat),
        in_window(point_views(points@), candles@.len()),
{
    let ghost prices = closes(candle_views(candles@));
    let mut points: Vec<IndicatorPoint> = Vec::new();
    if period == 0 || candles.len() < period {
        assert(point_views(points@) =~= ema_points(prices, period as nat));
        return points;
    }
    let mut ema: i64 = close_at(candles, 0);
    if period == 1 {
        points.push(IndicatorPoint { index: 0, value: Price::from_ticks(ema) });
    }
    let mut i: usize = 1;
    while i < candles.len()
        invariant
            period > 0,
            period <= candles.len(),
            1 <= i <= candles.len(),
            prices == closes(candle_views(candles@)),
            ema == ema_at(prices, period as nat, i - 1),
            Price::admits(ema as int),
            points@.len() == (if i + 1 >= period {
                i + 1 - period
            } else {
                0
            }),
            forall|k: int|
                0 <= k < points@.len() ==> (#[trigger] points@[k])@ == ema_points(
                    prices,
                    period as nat,
                )[k],
        decreases candles.len() - i,
    {
        let close: i64 = close_at(candles, i);
        let weight: i128 = period as i128 - 1;
        assert(0 <= weight * ema <= weight * PRICE_LIMIT) by (nonlinear_arith)
            requires
                0 <= ema <= PRICE_LIMIT,
                weight >= 0,
        ;
        assert(weight * PRICE_LIMIT <= usize::MAX * PRICE_LIMIT) by (nonlinear_arith)
            requires
                0 <= weight <= usize::MAX,
        ;
        let total: i128 = 2 * (close as i128) + weight * (ema as i128);
        proof {
            assert(0 <= total <= PRICE_LIMIT * (period + 1)) by (nonlinear_arith)
                requires
                    total == 2 * close + weight * ema,
                    weight == period - 1,
                    0 <= close <= PRICE_LIMIT,
                    0 <= ema <= PRICE_LIMIT,
                    period > 0,
            ;
            lemma_floor_div_bound(total as int, period + 1, period + 1, PRICE_LIMIT as int);
            lemma_div_pos_is_pos(total as int, period + 1);
        }
        let next: i128 = total / (period as i128 + 1);
        ema = next as i64;
        if i + 1 >= period {
            points.push(IndicatorPoint { index: i, value: Price::from_ticks(ema) });
        }
        i = i + 1;
    }
    assert(point_views(points@) =~= ema_points(prices, period as nat));
    points
}

/// The points of the given average over the candles.
pub fn moving_average(candles: &Vec<Candle>, kind: IndicatorType) -> (points: Vec<IndicatorPoint>)
    ensures
        point_views(points@) == average_points(closes(candle_views(candles@)), kind),
        points@.len() == point_count(candles@.len(), kind.spec_period()),
        in_window(point_views(points@), candles@.len()),
{
    if kind.is_exponential() {
        exponential_moving_average(candles, kind.period())
    } else {
        simple_moving_average(candles, kind.period())
    }
}

/// The first `n` pieces of the line through the points. A point stands at the
/// centre of its candle's slot, at the height of its price in the candle band.
pub open spec fn polyline(
    points: Seq<PointView>,
    count: int,
    lo: int,
    hi: int,
    kind: IndicatorType,
    n: nat,
) -> Seq<Vertex>
    decreases n,
{
    if n == 0 {
        Seq::empty()
    } else {
        polyline(points, count, lo, hi, kind, (n - 1) as nat) + segment(
            spec_candle_x(points[n - 1].index, count),
            spec_price_y(points[n - 1].value, lo, hi),
            spec_candle_x(points[n as int].index, count),
            spec_price_y(points[n as int].value, lo, hi),
            INDICATOR_HALF as int,
            ElementKind::Indicator(kind),
        )
    }
}

/// The line through all the points: one piece for each pair of neighbours.
pub open spec fn line_through(
    points: Seq<PointView>,
    count: int,
    lo: int,
    hi: int,
    kind: IndicatorType,
) -> Seq<Vertex> {
    if points.len() < 2 {
        Seq::empty()
    } else {
        polyline(points, count, lo, hi, kind, (points.len() - 1) as nat)
    }
}

/// The line of the given average over the window.
pub open spec fn average_line(visible: Seq<CandleView>, lo: int, hi: int, kind: IndicatorType) -> Seq<
    Vertex,
> {
    line_through(average_points(closes(visible), kind), visible.len() as int, lo, hi, kind)
}

/// The line of the given average over the window, where the flags show it.
pub open spec fn shown_line(
    visible: Seq<CandleView>,
    lo: int,
    hi: int,
    visibility: LineVisibility,
    kind: IndicatorType,
) -> Seq<Vertex> {
    if visibility.spec_shows(kind) {
        average_line(visible, lo, hi, kind)
    } else {
        Seq::empty()
    }
}

/// The lines of all the averages that are shown, in the order of the flags.
pub open spec fn indicator_vertices(
    visible: Seq<CandleView>,
    lo: int,
    hi: int,
    visibility: LineVisibility,
) -> Seq<Vertex> {
    shown_line(visible, lo, hi, visibility, IndicatorType::Sma20) + shown_line(
        visible,
        lo,
        hi,
        visibility,
        IndicatorType::Sma50,
    ) + shown_line(visible, lo, hi, visibility, IndicatorType::Sma200) + shown_line(
        visible,
        lo,
        hi,
        visibility,
        IndicatorType::Ema12,
    ) + shown_line(visible, lo, hi, visibility, IndicatorType::Ema26)
}

/// Appends the line through the points.
fn push_line(
    out: &mut Vec<Vertex>,
    points: &Vec<IndicatorPoint>,
    count: usize,
    bounds: &PriceBounds,
    kind: IndicatorType,
)
    requires
        count <= MAX_CANDLES,
        in_window(point_views(points@), count as nat),
    ensures
        final(out)@ == old(out)@ + line_through(
            point_views(points@),
            count as int,
            bounds@.0,
            bounds@.1,
            kind,
        ),
{
    let ghost before = out@;
    let ghost views = point_views(points@);
    if points.len() < 2 {
        assert(out@ =~= before + Seq::<Vertex>::empty());
        return ;
    }
    assert(out@ =~= before + polyline(views, count as int, bounds@.0, bounds@.1, kind, 0));
    let mut n: usize = 1;
    while n < points.len()
        invariant
            1 <= n <= points.len(),
            count <= MAX_CANDLES,
            views == point_views(points@),
            in_window(views, count as nat),
            out@ == before + polyline(
                views,
                count as int,
                bounds@.0,
                bounds@.1,
                kind,
                (n - 1) as nat,
            ),
        decreases points.len() - n,
    {
        let a = points[n - 1];
        let b = points[n];
        assert(views[n - 1] == a@ && views[n as int] == b@);
        let xa: i64 = candle_x_position(a.index, count);
        let ya: i64 = price_y(a.value, bounds);
        let xb: i64 = candle_x_position(b.index, count);
        let yb: i64 = price_y(b.value, bounds);
        push_segment(out, xa, ya, xb, yb, INDICATOR_HALF, ElementKind::Indicator(kind));
        assert(out@ =~= before + polyline(
            views,
            count as int,
            bounds@.0,
            bounds@.1,
            kind,
            n as nat,
        ));
        n = n + 1;
    }
}

/// Appends the line of the given average over the window.
pub fn push_average_line(
    out: &mut Vec<Vertex>,
    window: &CandleWindow,
    bounds: &PriceBounds,
    kind: IndicatorType,
)
    ensures
        final(out)@ == old(out)@ + average_line(window@, bounds@.0, bounds@.1, kind),
{
    let candles = window.candles();
    let points = moving_average(candles, kind);
    push_line(out, &points, candles.len(), bounds, kind);
}

/// The lines of all the averages that are shown, over the window.
pub fn create_moving_averages(
    window: &CandleWindow,
    bounds: &PriceBounds,
    visibility: &LineVisibility,
) -> (lines: Vec<Vertex>)
    ensures
        lines@ == indicator_vertices(window@, bounds@.0, bounds@.1, *visibility),
{
    let mut lines: Vec<Vertex> = Vec::new();
    if visibility.sma_20 {
        push_average_line(&mut lines, window, bounds, IndicatorType::Sma20);
    }
    if visibility.sma_50 {
        push_average_line(&mut lines, window, bounds, IndicatorType::Sma50);
    }
    if visibility.sma_200 {
        push_average_line(&mut lines, window, bounds, IndicatorType::Sma200);
    }
    if visibility.ema_12 {
        push_average_line(&mut lines, window, bounds, IndicatorType::Ema12);
    }
    if visibility.ema_26 {
        push_average_line(&mut lines, window, bounds, IndicatorType::Ema26);
    }
    assert(lines@ =~= indicator_vertices(window@, bounds@.0, bounds@.1, *visibility));
    lines
}

/// A line is made of whole pieces, six vertices each.
pub proof fn lemma_polyline_len(
    points: Seq<PointView>,
    count: int,
    lo: int,
    hi: int,
    kind: IndicatorType,
    n: nat,
)
    ensures
        polyline(points, count, lo, hi, kind, n).len() == 6 * n,
    decreases n,
{
    if n > 0 {
        lemma_polyline_len(points, count, lo, hi, kind, (n - 1) as nat);
    }
}

/// The line of an average has one piece less than the average has points.
pub proof fn lemma_average_line_len(visible: Seq<CandleView>, lo: int, hi: int, kind: IndicatorType)
    ensures
        average_line(visible, lo, hi, kind).len() == if point_count(
            visible.len(),
            kind.spec_period(),
        ) < 2 {
            0
        } else {
            6 * (point_count(visible.len(), kind.spec_period()) - 1)
        },
{
    let points = average_points(closes(visible), kind);
    if points.len() >= 2 {
        lemma_polyline_len(points, visible.len() as int, lo, hi, kind, (points.len() - 1) as nat);
    }
}

/// The indicator lines are made of whole pieces, six vertices each.
pub proof fn lemma_indicator_vertices_len(
    visible: Seq<CandleView>,
    lo: int,
    hi: int,
    visibility: LineVisibility,
)
    ensures
        indicator_vertices(visible, lo, hi, visibility).len() % 6 == 0,
{
    lemma_average_line_len(visible, lo, hi, IndicatorType::Sma20);
    lemma_average_line_len(visible, lo, hi, IndicatorType::Sma50);
    lemma_average_line_len(visible, lo, hi, IndicatorType::Sma200);
    lemma_average_line_len(visible, lo, hi, IndicatorType::Ema12);
    lemma_average_line_len(visible, lo, hi, IndicatorType::Ema26);
}

/// An average whose window is longer than the run of candles has no point,
/// and so no line: it is left out as a whole, never drawn in part.
pub proof fn lemma_short_window_has_no_line(
    visible: Seq<CandleView>,
    lo: int,
    hi: int,
    visibility: LineVisibility,
    kind: IndicatorType,
)
    requires
        visible.len() < kind.spec_period(),
    ensures
        average_points(closes(visible), kind).len() == 0,
        shown_line(visible, lo, hi, visibility, kind) == Seq::<Vertex>::empty(),
{
}

/// An average over enough candles has a point for each candle from the one
/// that fills its window for the first time.
pub proof fn lemma_point_count(visible: Seq<CandleView>, kind: IndicatorType)
    requires
        kind.spec_period() <= visible.len(),
    ensures
        average_points(closes(visible), kind).len() == visible.len() - kind.spec_period() + 1,
        forall|k: int|
            0 <= k < average_points(closes(visible), kind).len() ==> (#[trigger] average_points(
                closes(visible),
                kind,
            )[k]).index == k + kind.spec_period() - 1,
{
}

} // verus!
