//! Geometry synthesis: from the visible window of candles to a flat list of
//! vertices.
//!
//! The screen is split into bands. Candles are drawn in
//! `[PRICE_BAND_FLOOR, CANDLE_CEILING]`, volume bars below them in
//! `[VOLUME_FLOOR, VOLUME_FLOOR + VOLUME_BAND_HEIGHT]`. Each candle has a slot
//! of `SLOT_PITCH` sub-units; the window is aligned to the right edge, so the
//! latest candle always sits in the last slot.

use vstd::arithmetic::div_mod::lemma_div_is_ordered;
use vstd::arithmetic::div_mod::lemma_div_multiples_vanish;
use vstd::arithmetic::div_mod::lemma_div_pos_is_pos;
use vstd::prelude::*;
use crate::fixed_point::floor_div;
use crate::fixed_point::lemma_floor_div_bound;
use crate::indicators::create_moving_averages;
use crate::indicators::indicator_vertices;
use crate::indicators::lemma_indicator_vertices_len;
use crate::indicators::LineVisibility;
use crate::market_data::Candle;
use crate::market_data::candle_views;
use crate::market_data::CandleView;
use crate::market_data::Price;
use crate::market_data::VOLUME_LIMIT;
use crate::series::CandleSeries;
use crate::series::newest;
use crate::window::CandleWindow;
use crate::window::is_degenerate;
use crate::window::lemma_extremes;
use crate::window::max_high;
use crate::window::MAX_CANDLES;
use crate::window::min_low;
use crate::window::MIN_PRICE_RANGE;
use crate::window::PriceBounds;
use crate::window::PriceRange;
use crate::window::resolve_bounds;
use crate::vertex::ChartUniforms;
use crate::vertex::ElementKind;
use crate::vertex::NDC_ONE;
use crate::vertex::push_quad;
use crate::vertex::quad;
use crate::vertex::Vertex;

verus! {

/// Number of slots across the screen at no zoom.
pub const BASE_CANDLES: usize = 300;

/// Width of one candle slot in sub-units: `2 * NDC_ONE / BASE_CANDLES`.
pub const SLOT_PITCH: i64 = 20_000;

/// Fewest candles shown, however far the zoom goes, while the series has them.
pub const MIN_VISIBLE: usize = 10;

/// The zoom level that shows `BASE_CANDLES` candles, in thousandths.
pub const ZOOM_ONE: u32 = 1000;

/// Lower edge of the band that candles are drawn in.
pub const PRICE_BAND_FLOOR: i64 = -1_500_000;

/// Height of the band that candles are drawn in.
pub const PRICE_BAND_HEIGHT: i64 = 3_900_000;

/// Upper edge of the band that candles are drawn in.
pub const CANDLE_CEILING: i64 = 2_400_000;

/// Lower edge of the band that volume bars are drawn in.
pub const VOLUME_FLOOR: i64 = -3_000_000;

/// Height of the band that volume bars are drawn in.
pub const VOLUME_BAND_HEIGHT: i64 = 1_200_000;

/// Least height of a candle body, so that a flat candle stays visible.
pub const MIN_BODY_HEIGHT: i64 = 15_000;

/// Half the thickness of the line that marks the latest close.
pub const PRICE_LINE_HALF: i64 = 6_000;

/// Half the thickness of a grid line.
pub const GRID_HALF: i64 = 3_000;

/// Number of parts that the horizontal grid lines split the price band into.
pub const PRICE_GRID_LINES: i64 = 8;

/// Number of parts that the vertical grid lines split the window into.
pub const TIME_GRID_LINES: usize = 10;

/// No coordinate is further from zero than this.
pub const COORD_LIMIT: i64 = 600_000_000_000_000_000;

/// The centre of slot `index` in a window of `visible_len` candles.
pub open spec fn spec_candle_x(index: int, visible_len: int) -> int {
    -NDC_ONE + (BASE_CANDLES - visible_len) * SLOT_PITCH + index * SLOT_PITCH + SLOT_PITCH / 2
}

/// The number, held within what an `i64` can hold.
pub open spec fn saturated(v: int) -> int {
    if v < i64::MIN {
        i64::MIN as int
    } else if v > i64::MAX {
        i64::MAX as int
    } else {
        v
    }
}

/// The centre of slot `index` in a window of `visible_len` candles. Any
/// window that a series can hold is far from the ends of `i64`.
pub fn candle_x_position(index: usize, visible_len: usize) -> (x: i64)
    ensures
        x == saturated(spec_candle_x(index as int, visible_len as int)),
        index <= MAX_CANDLES && visible_len <= MAX_CANDLES ==> x == spec_candle_x(
            index as int,
            visible_len as int,
        ) && -COORD_LIMIT / 2 <= x <= COORD_LIMIT / 2,
{
    let free: i128 = BASE_CANDLES as i128 - visible_len as i128;
    let pitch: i128 = SLOT_PITCH as i128;
    assert(-0x1_0000_0000_0000_0000 * 20_000 <= free * pitch <= 300 * 20_000) by (nonlinear_arith)
        requires
            -0x1_0000_0000_0000_0000 <= free <= 300,
            pitch == 20_000,
    ;
    assert(0 <= index * pitch <= 0x1_0000_0000_0000_0000 * 20_000) by (nonlinear_arith)
        requires
            0 <= index <= 0x1_0000_0000_0000_0000,
            pitch == 20_000,
    ;
    let x: i128 = -(NDC_ONE as i128) + free * pitch + (index as i128) * pitch + pitch / 2;
    if x < i64::MIN as i128 {
        i64::MIN
    } else if x > i64::MAX as i128 {
        i64::MAX
    } else {
        x as i64
    }
}

/// How many candles are on screen: `BASE_CANDLES / zoom`, but at least
/// `MIN_VISIBLE`, and never more than there are. A zoom of zero shows all.
pub open spec fn spec_visible_count(total: int, zoom_milli: int) -> int {
    if zoom_milli <= 0 {
        total
    } else {
        let wanted = (BASE_CANDLES * ZOOM_ONE) / zoom_milli;
        let at_least = if wanted < MIN_VISIBLE {
            MIN_VISIBLE as int
        } else {
            wanted
        };
        if at_least > total {
            total
        } else {
            at_least
        }
    }
}

/// How many candles are on screen.
pub fn visible_count(total: usize, zoom_milli: u32) -> (n: usize)
    ensures
        n == spec_visible_count(total as int, zoom_milli as int),
        n <= total,
{
    if zoom_milli == 0 {
        return total;
    }
    let wanted: usize = (BASE_CANDLES * (ZOOM_ONE as usize)) / (zoom_milli as usize);
    let at_least: usize = if wanted < MIN_VISIBLE {
        MIN_VISIBLE
    } else {
        wanted
    };
    if at_least > total {
        total
    } else {
        at_least
    }
}

/// The zoom that sizes are scaled by: the zoom level held between a tenth and
/// ten, in thousandths.
pub open spec fn spec_zoom_factor(zoom_milli: int) -> int {
    if zoom_milli < 100 {
        100
    } else if zoom_milli > 10_000 {
        10_000
    } else {
        zoom_milli
    }
}

/// Width of a candle body: four fifths of a slot, scaled by the zoom factor,
/// held between 6 000 and 300 000 sub-units.
pub open spec fn spec_candle_width(zoom_milli: int) -> int {
    let scaled = (SLOT_PITCH * spec_zoom_factor(zoom_milli) * 8) / 10_000;
    if scaled < 6_000 {
        6_000
    } else if scaled > 300_000 {
        300_000
    } else {
        scaled
    }
}

/// Width of a volume bar: four fifths of a slot, scaled by the zoom factor,
/// and at least 6 000 sub-units.
pub open spec fn spec_bar_width(zoom_milli: int) -> int {
    let scaled = (SLOT_PITCH * spec_zoom_factor(zoom_milli) * 8) / 10_000;
    if scaled < 6_000 {
        6_000
    } else {
        scaled
    }
}

/// The zoom that sizes are scaled by.
pub fn zoom_factor(zoom_milli: u32) -> (z: i64)
    ensures
        z == spec_zoom_factor(zoom_milli as int),
        100 <= z <= 10_000,
{
    if zoom_milli < 100 {
        100
    } else if zoom_milli > 10_000 {
        10_000
    } else {
        zoom_milli as i64
    }
}

/// Width of a candle body at the given zoom.
pub fn candle_width(zoom_milli: u32) -> (w: i64)
    ensures
        w == spec_candle_width(zoom_milli as int),
        6_000 <= w <= 300_000,
{
    let scaled: i64 = (SLOT_PITCH * zoom_factor(zoom_milli) * 8) / 10_000;
    if scaled < 6_000 {
        6_000
    } else if scaled > 300_000 {
        300_000
    } else {
        scaled
    }
}

/// Width of a volume bar at the given zoom.
pub fn bar_width(zoom_milli: u32) -> (w: i64)
    ensures
        w == spec_bar_width(zoom_milli as int),
        6_000 <= w <= 160_000,
{
    let scaled: i64 = (SLOT_PITCH * zoom_factor(zoom_milli) * 8) / 10_000;
    if scaled < 6_000 {
        6_000
    } else {
        scaled
    }
}

/// Where `price` falls in the candle band, when the band shows the prices
/// from `lo` to `hi`: the band's floor for `lo`, its ceiling for `hi`, and in
/// proportion between and beyond, rounded down.
pub open spec fn spec_price_y(price: int, lo: int, hi: int) -> int {
    PRICE_BAND_FLOOR + ((price - lo) * PRICE_BAND_HEIGHT) / (hi - lo)
}

/// Where `price` falls in the candle band.
pub fn price_y(price: Price, bounds: &PriceBounds) -> (y: i64)
    ensures
        y == spec_price_y(price@, bounds@.0, bounds@.1),
        -COORD_LIMIT < y < COORD_LIMIT,
{
    let ticks: i64 = price.value();
    let lo: i64 = bounds.lo();
    let hi: i64 = bounds.hi();
    let span: i128 = hi as i128 - lo as i128;
    let offset: i128 = ticks as i128 - lo as i128;
    assert(-105_000_000_000_000_000 <= offset <= 105_000_000_000_000_000);
    assert(-409_500_000_000_000_000_000_000 <= offset * PRICE_BAND_HEIGHT
        <= 409_500_000_000_000_000_000_000) by (nonlinear_arith)
        requires
            -105_000_000_000_000_000 <= offset <= 105_000_000_000_000_000,
            PRICE_BAND_HEIGHT == 3_900_000,
    ;
    let scaled: i128 = offset * (PRICE_BAND_HEIGHT as i128);
    let q: i128 = floor_div(scaled, span);
    proof {
        lemma_floor_div_bound(
            scaled as int,
            span as int,
            MIN_PRICE_RANGE as int,
            409_500_000_000_000_000,
        );
    }
    (PRICE_BAND_FLOOR as i128 + q) as i64
}

/// The vertices of one candle centred at `x`: its body, then the wick above
/// the body where the high rises over it, then the wick below where the low
/// falls under it.
pub open spec fn candle_quads(c: CandleView, x: int, lo: int, hi: int, width: int) -> Seq<Vertex> {
    let open_y = spec_price_y(c.ohlcv.open, lo, hi);
    let high_y = spec_price_y(c.ohlcv.high, lo, hi);
    let low_y = spec_price_y(c.ohlcv.low, lo, hi);
    let close_y = spec_price_y(c.ohlcv.close, lo, hi);
    let bottom = if open_y < close_y {
        open_y
    } else {
        close_y
    };
    let top = if open_y < close_y {
        close_y
    } else {
        open_y
    };
    let body_top = if top - bottom < MIN_BODY_HEIGHT {
        bottom + MIN_BODY_HEIGHT
    } else {
        top
    };
    let half = width / 2;
    let wick_half = width / 20;
    let body = quad(x - half, x + half, bottom, body_top, ElementKind::body(c.is_bullish()));
    let upper = if high_y > body_top {
        quad(x - wick_half, x + wick_half, body_top, high_y, ElementKind::Wick)
    } else {
        Seq::empty()
    };
    let lower = if low_y < bottom {
        quad(x - wick_half, x + wick_half, low_y, bottom, ElementKind::Wick)
    } else {
        Seq::empty()
    };
    body + upper + lower
}

/// The vertices of the first `n` candles of the window, in order.
pub open spec fn candle_vertices(
    visible: Seq<CandleView>,
    lo: int,
    hi: int,
    width: int,
    n: nat,
) -> Seq<Vertex>
    decreases n,
{
    if n == 0 {
        Seq::empty()
    } else {
        candle_vertices(visible, lo, hi, width, (n - 1) as nat) + candle_quads(
            visible[n - 1],
            spec_candle_x(n - 1, visible.len() as int),
            lo,
            hi,
            width,
        )
    }
}

/// Appends the vertices of one candle centred at `x`.
fn push_candle(out: &mut Vec<Vertex>, candle: &Candle, x: i64, bounds: &PriceBounds, width: i64)
    requires
        -COORD_LIMIT <= x <= COORD_LIMIT,
        0 <= width <= 300_000,
    ensures
        final(out)@ == old(out)@ + candle_quads(
            candle@,
            x as int,
            bounds@.0,
            bounds@.1,
            width as int,
        ),
{
    let o = candle.ohlcv();
    let open_y: i64 = price_y(o.open, bounds);
    let high_y: i64 = price_y(o.high, bounds);
    let low_y: i64 = price_y(o.low, bounds);
    let close_y: i64 = price_y(o.close, bounds);
    let bottom: i64 = if open_y < close_y {
        open_y
    } else {
        close_y
    };
    let top: i64 = if open_y < close_y {
        close_y
    } else {
        open_y
    };
    let body_top: i64 = if top - bottom < MIN_BODY_HEIGHT {
        bottom + MIN_BODY_HEIGHT
    } else {
        top
    };
    let half: i64 = width / 2;
    let wick_half: i64 = width / 20;
    let kind = if o.close >= o.open {
        ElementKind::BodyBullish
    } else {
        ElementKind::BodyBearish
    };
    let ghost before = out@;
    push_quad(out, x - half, x + half, bottom, body_top, kind);
    if high_y > body_top {
        push_quad(out, x - wick_half, x + wick_half, body_top, high_y, ElementKind::Wick);
    }
    if low_y < bottom {
        push_quad(out, x - wick_half, x + wick_half, low_y, bottom, ElementKind::Wick);
    }
    assert(out@ =~= before + candle_quads(
        candle@,
        x as int,
        bounds@.0,
        bounds@.1,
        width as int,
    ));
}

/// Appends the vertices of every candle of the window, in order.
pub fn push_candles(
    out: &mut Vec<Vertex>,
    window: &CandleWindow,
    bounds: &PriceBounds,
    zoom_milli: u32,
)
    ensures
        final(out)@ == old(out)@ + candle_vertices(
            window@,
            bounds@.0,
            bounds@.1,
            spec_candle_width(zoom_milli as int),
            window@.len(),
        ),
{
    let visible = window.candles();
    let width: i64 = candle_width(zoom_milli);
    let ghost before = out@;
    let ghost views = window@;
    let mut i: usize = 0;
    while i < visible.len()
        invariant
            i <= visible.len() <= MAX_CANDLES,
            views == candle_views(visible@),
            width == spec_candle_width(zoom_milli as int),
            0 <= width <= 300_000,
            out@ == before + candle_vertices(
                views,
                bounds@.0,
                bounds@.1,
                width as int,
                i as nat,
            ),
        decreases visible.len() - i,
    {
        let x = candle_x_position(i, visible.len());
        let ghost so_far = out@;
        push_candle(out, &visible[i], x, bounds, width);
        proof {
            let added = candle_quads(views[i as int], x as int, bounds@.0, bounds@.1, width as int);
            assert(out@ == so_far + added);
            assert(before + candle_vertices(
                views,
                bounds@.0,
                bounds@.1,
                width as int,
                (i + 1) as nat,
            ) =~= so_far + added);
        }
        i = i + 1;
    }
}

/// The full-width line at the latest close; nothing for an empty window.
pub open spec fn price_line(visible: Seq<CandleView>, lo: int, hi: int) -> Seq<Vertex> {
    if visible.len() == 0 {
        Seq::empty()
    } else {
        let y = spec_price_y(visible.last().ohlcv.close, lo, hi);
        quad(
            -NDC_ONE as int,
            NDC_ONE as int,
            y - PRICE_LINE_HALF,
            y + PRICE_LINE_HALF,
            ElementKind::PriceLine,
        )
    }
}

/// Appends the line at the latest close.
pub fn push_price_line(out: &mut Vec<Vertex>, window: &CandleWindow, bounds: &PriceBounds)
    ensures
        final(out)@ == old(out)@ + price_line(window@, bounds@.0, bounds@.1),
{
    let visible = window.candles();
    if visible.len() > 0 {
        let last = visible[visible.len() - 1].ohlcv();
        let y: i64 = price_y(last.close, bounds);
        push_quad(
            out,
            -NDC_ONE,
            NDC_ONE,
            y - PRICE_LINE_HALF,
            y + PRICE_LINE_HALF,
            ElementKind::PriceLine,
        );
    } else {
        assert(out@ =~= old(out)@ + Seq::<Vertex>::empty());
    }
}

/// Height of the `i`-th horizontal grid line.
pub open spec fn price_grid_y(i: int) -> int {
    PRICE_BAND_FLOOR + (PRICE_BAND_HEIGHT * i) / (PRICE_GRID_LINES as int)
}

/// The first `n` horizontal grid lines, from the lowest up.
pub open spec fn price_grid(n: nat) -> Seq<Vertex>
    decreases n,
{
    if n == 0 {
        Seq::empty()
    } else {
        price_grid((n - 1) as nat) + quad(
            -NDC_ONE as int,
            NDC_ONE as int,
            price_grid_y(n as int) - GRID_HALF,
            price_grid_y(n as int) + GRID_HALF,
            ElementKind::Grid,
        )
    }
}

/// The slot that the `i`-th vertical grid line runs through.
pub open spec fn time_grid_slot(i: int, count: int) -> int {
    i * (count / (TIME_GRID_LINES as int))
}

/// The first `n` vertical grid lines, from the left. Each runs from the floor
/// of the volume band to the ceiling of the candle band.
pub open spec fn time_grid(count: int, n: nat) -> Seq<Vertex>
    decreases n,
{
    if n == 0 {
        Seq::empty()
    } else {
        let x = spec_candle_x(time_grid_slot(n as int, count), count);
        time_grid(count, (n - 1) as nat) + quad(
            x - GRID_HALF,
            x + GRID_HALF,
            VOLUME_FLOOR as int,
            CANDLE_CEILING as int,
            ElementKind::Grid,
        )
    }
}

/// The grid: the horizontal lines that split the price band into
/// `PRICE_GRID_LINES` parts, then, where there are candles, the vertical lines
/// that split the window into `TIME_GRID_LINES` parts.
pub open spec fn grid_lines(count: int) -> Seq<Vertex> {
    price_grid((PRICE_GRID_LINES - 1) as nat) + if count > 0 {
        time_grid(count, (TIME_GRID_LINES - 1) as nat)
    } else {
        Seq::empty()
    }
}

/// The grid for the window.
pub fn create_grid_lines(window: &CandleWindow) -> (lines: Vec<Vertex>)
    ensures
        lines@ == grid_lines(window@.len() as int),
{
    let candle_count: usize = window.len();
    let mut lines: Vec<Vertex> = Vec::new();
    let mut i: i64 = 1;
    while i < PRICE_GRID_LINES
        invariant
            1 <= i <= PRICE_GRID_LINES,
            lines@ == price_grid((i - 1) as nat),
        decreases PRICE_GRID_LINES - i,
    {
        let y: i64 = PRICE_BAND_FLOOR + (PRICE_BAND_HEIGHT * i) / PRICE_GRID_LINES;
        push_quad(&mut lines, -NDC_ONE, NDC_ONE, y - GRID_HALF, y + GRID_HALF, ElementKind::Grid);
        i = i + 1;
    }
    let ghost horizontal = lines@;
    if candle_count > 0 {
        let step: usize = candle_count / TIME_GRID_LINES;
        let mut k: usize = 1;
        assert(lines@ =~= horizontal + time_grid(candle_count as int, 0));
        while k < TIME_GRID_LINES
            invariant
                1 <= k <= TIME_GRID_LINES,
                0 < candle_count <= MAX_CANDLES,
                step == candle_count / TIME_GRID_LINES,
                lines@ == horizontal + time_grid(candle_count as int, (k - 1) as nat),
            decreases TIME_GRID_LINES - k,
        {
            assert(k * step <= 9 * step && 9 * step <= candle_count) by (nonlinear_arith)
                requires
                    1 <= k <= 9,
                    step == candle_count / 10,
            ;
            let slot: usize = k * step;
            let x: i64 = candle_x_position(slot, candle_count);
            let ghost so_far = lines@;
            push_quad(
                &mut lines,
                x - GRID_HALF,
                x + GRID_HALF,
                VOLUME_FLOOR,
                CANDLE_CEILING,
                ElementKind::Grid,
            );
            assert(lines@ =~= horizontal + time_grid(candle_count as int, k as nat));
            k = k + 1;
        }
    } else {
        assert(lines@ =~= horizontal + Seq::<Vertex>::empty());
    }
    lines
}

/// Sub-units that one unit of pan shifts the volume bars by.
pub const PAN_UNIT: i64 = 3_000;

/// The greatest volume among the candles; zero where there are none.
pub open spec fn max_volume(candles: Seq<CandleView>) -> int
    decreases candles.len(),
{
    if candles.len() == 0 {
        0
    } else {
        let rest = max_volume(candles.drop_last());
        if candles.last().ohlcv.volume > rest {
            candles.last().ohlcv.volume
        } else {
            rest
        }
    }
}

/// No volume of the run is above `max_volume`, which is not negative.
pub proof fn lemma_max_volume(candles: Seq<CandleView>)
    ensures
        max_volume(candles) >= 0,
        forall|i: int| 0 <= i < candles.len() ==> candles[i].ohlcv.volume <= max_volume(candles),
    decreases candles.len(),
{
    if candles.len() > 0 {
        let rest = candles.drop_last();
        lemma_max_volume(rest);
        assert forall|i: int| 0 <= i < candles.len() implies candles[i].ohlcv.volume <= max_volume(
            candles,
        ) by {
            if i < candles.len() - 1 {
                assert(rest[i] == candles[i]);
            }
        }
    }
}

/// The centre of the volume bar in slot `index`: the slot's centre, moved by
/// the pan and held on screen.
pub open spec fn volume_bar_x(index: int, count: int, pan: int) -> int {
    let x = spec_candle_x(index, count) + pan * PAN_UNIT;
    if x < -NDC_ONE {
        -NDC_ONE as int
    } else if x > NDC_ONE {
        NDC_ONE as int
    } else {
        x
    }
}

/// The bar of one candle: from the floor of the volume band up to the share of
/// the band that the candle's volume is of `peak`.
pub open spec fn volume_bar(c: CandleView, x: int, peak: int, width: int) -> Seq<Vertex> {
    let top = VOLUME_FLOOR + (VOLUME_BAND_HEIGHT * c.ohlcv.volume) / peak;
    quad(
        x - width / 2,
        x + width / 2,
        VOLUME_FLOOR as int,
        top,
        ElementKind::volume(c.is_bullish()),
    )
}

/// The bars of the first `n` candles of the window, in order.
pub open spec fn volume_bars(
    visible: Seq<CandleView>,
    peak: int,
    width: int,
    pan: int,
    n: nat,
) -> Seq<Vertex>
    decreases n,
{
    if n == 0 {
        Seq::empty()
    } else {
        volume_bars(visible, peak, width, pan, (n - 1) as nat) + volume_bar(
            visible[n - 1],
            volume_bar_x(n - 1, visible.len() as int, pan),
            peak,
            width,
        )
    }
}

/// The volume bars of the window; none where no candle has any volume.
pub open spec fn volume_vertices(visible: Seq<CandleView>, zoom_milli: int, pan: int) -> Seq<
    Vertex,
> {
    if max_volume(visible) <= 0 {
        Seq::empty()
    } else {
        volume_bars(
            visible,
            max_volume(visible),
            spec_bar_width(zoom_milli),
            pan,
            visible.len(),
        )
    }
}

/// The volume bars of the window, scaled against its greatest volume.
pub fn create_volume_bars(window: &CandleWindow, zoom_milli: u32, pan: i32) -> (bars: Vec<Vertex>)
    ensures
        bars@ == volume_vertices(window@, zoom_milli as int, pan as int),
{
    let candles = window.candles();
    let ghost views = window@;
    let mut bars: Vec<Vertex> = Vec::new();
    let mut peak: i64 = 0;
    let mut i: usize = 0;
    while i < candles.len()
        invariant
            i <= candles.len(),
            views == candle_views(candles@),
            peak == max_volume(views.take(i as int)),
            0 <= peak <= VOLUME_LIMIT,
        decreases candles.len() - i,
    {
        let volume: i64 = candles[i].ohlcv().volume.value();
        proof {
            let next = views.take(i + 1);
            assert(next.drop_last() =~= views.take(i as int));
            assert(next.last() == candles@[i as int]@);
        }
        if volume > peak {
            peak = volume;
        }
        i = i + 1;
    }
    assert(views.take(candles.len() as int) =~= views);
    if peak <= 0 {
        return bars;
    }
    proof {
        lemma_max_volume(views);
    }
    let width: i64 = bar_width(zoom_milli);
    let shift: i64 = (pan as i64) * PAN_UNIT;
    let mut i: usize = 0;
    while i < candles.len()
        invariant
            i <= candles.len() <= MAX_CANDLES,
            views == candle_views(candles@),
            peak == max_volume(views),
            0 < peak <= VOLUME_LIMIT,
            forall|j: int| 0 <= j < views.len() ==> views[j].ohlcv.volume <= peak,
            width == spec_bar_width(zoom_milli as int),
            6_000 <= width <= 160_000,
            shift == pan * PAN_UNIT,
            bars@ == volume_bars(views, peak as int, width as int, pan as int, i as nat),
        decreases candles.len() - i,
    {
        let o = candles[i].ohlcv();
        let slot_x: i64 = candle_x_position(i, candles.len());
        let moved: i64 = slot_x + shift;
        let x: i64 = if moved < -NDC_ONE {
            -NDC_ONE
        } else if moved > NDC_ONE {
            NDC_ONE
        } else {
            moved
        };
        let volume: i64 = o.volume.value();
        assert(views[i as int].ohlcv.volume == volume);
        assert(0 <= VOLUME_BAND_HEIGHT * volume <= VOLUME_BAND_HEIGHT * peak) by (nonlinear_arith)
            requires
                0 <= volume <= peak,
        ;
        let scaled: i128 = (VOLUME_BAND_HEIGHT as i128) * (volume as i128);
        let rise: i128 = scaled / (peak as i128);
        proof {
            lemma_floor_div_bound(
                scaled as int,
                peak as int,
                peak as int,
                VOLUME_BAND_HEIGHT as int,
            );
        }
        let top: i64 = VOLUME_FLOOR + (rise as i64);
        let kind = if o.close >= o.open {
            ElementKind::VolumeBullish
        } else {
            ElementKind::VolumeBearish
        };
        push_quad(&mut bars, x - width / 2, x + width / 2, VOLUME_FLOOR, top, kind);
        assert(bars@ =~= volume_bars(views, peak as int, width as int, pan as int, (i + 1) as nat));
        i = i + 1;
    }
    bars
}

/// Share of a slot that is left empty between candles, in thousandths.
pub const SPACING_RATIO: u16 = 200;

/// Thickness of indicator lines that the GPU is told, in sub-units.
pub const LINE_THICKNESS: i64 = 12_000;

/// What can change from frame to frame without the series changing.
#[derive(Clone, Copy, Debug, PartialEq)]
pub struct ViewSettings {
    /// Zoom level in thousandths; `ZOOM_ONE` shows `BASE_CANDLES` candles.
    pub zoom_milli: u32,
    /// Pan offset; one unit moves by `PAN_UNIT` sub-units.
    pub pan: i32,
    /// Which indicator lines are drawn.
    pub visibility: LineVisibility,
    /// How the vertical price range is chosen.
    pub prices: PriceRange,
    /// Width of the surface in pixels.
    pub width: u32,
    /// Height of the surface in pixels.
    pub height: u32,
}

/// The candles on screen: the latest ones, as many as the zoom shows.
pub open spec fn visible_window(candles: Seq<CandleView>, zoom_milli: int) -> Seq<CandleView> {
    newest(candles, spec_visible_count(candles.len() as int, zoom_milli) as nat)
}

/// Whether nothing is drawn: no candle is on screen, or the price range of
/// the screen is too narrow to be drawn.
pub open spec fn scene_is_blank(candles: Seq<CandleView>, view: ViewSettings) -> bool {
    let visible = visible_window(candles, view.zoom_milli as int);
    visible.len() == 0 || is_degenerate(view.prices.bounds(visible))
}

/// The vertex list of a frame: the candles, the line at the latest close, the
/// grid, the volume bars and the indicator lines, in that order; or nothing
/// at all where the scene is blank.
pub open spec fn scene_vertices(candles: Seq<CandleView>, view: ViewSettings) -> Seq<Vertex> {
    let visible = visible_window(candles, view.zoom_milli as int);
    let bounds = view.prices.bounds(visible);
    if scene_is_blank(candles, view) {
        Seq::empty()
    } else {
        candle_vertices(
            visible,
            bounds.0,
            bounds.1,
            spec_candle_width(view.zoom_milli as int),
            visible.len(),
        ) + price_line(visible, bounds.0, bounds.1) + grid_lines(visible.len() as int)
            + volume_vertices(visible, view.zoom_milli as int, view.pan as int)
            + indicator_vertices(visible, bounds.0, bounds.1, view.visibility)
    }
}

/// The uniform block for a frame with nothing on it: only the size of the
/// surface is filled in.
pub open spec fn blank_uniforms(width: u32, height: u32) -> ChartUniforms {
    ChartUniforms { viewport_width: width, viewport_height: height, ..ChartUniforms::spec_new() }
}

/// The uniform block of a frame: the size of the surface always, and, where
/// something is drawn, the price range, the number of candles on screen and
/// the candle width.
pub open spec fn scene_uniforms(candles: Seq<CandleView>, view: ViewSettings) -> ChartUniforms {
    let visible = visible_window(candles, view.zoom_milli as int);
    let bounds = view.prices.bounds(visible);
    if scene_is_blank(candles, view) {
        blank_uniforms(view.width, view.height)
    } else {
        ChartUniforms {
            min_price: bounds.0 as i64,
            max_price: bounds.1 as i64,
            time_start: 0,
            time_end: visible.len() as u64,
            candle_width: spec_candle_width(view.zoom_milli as int) as i64,
            spacing_ratio: SPACING_RATIO,
            line_thickness: LINE_THICKNESS,
            ..blank_uniforms(view.width, view.height)
        }
    }
}

/// Why a scene is drawn or is not.
#[derive(Clone, Copy, Debug, PartialEq, Eq, Structural)]
pub enum SceneStatus {
    /// There is something to draw.
    Drawn,
    /// No candle is on screen.
    NoCandles,
    /// The price range of the screen is narrower than `MIN_PRICE_RANGE`.
    DegenerateRange,
}

/// Why the scene of the given candles is drawn or is not.
pub open spec fn spec_scene_status(candles: Seq<CandleView>, view: ViewSettings) -> SceneStatus {
    let visible = visible_window(candles, view.zoom_milli as int);
    if visible.len() == 0 {
        SceneStatus::NoCandles
    } else if is_degenerate(view.prices.bounds(visible)) {
        SceneStatus::DegenerateRange
    } else {
        SceneStatus::Drawn
    }
}

/// Says why the scene of the series is drawn or is not.
pub fn scene_status(series: &CandleSeries, view: &ViewSettings) -> (status: SceneStatus)
    ensures
        status == spec_scene_status(series@.candles, *view),
        (status == SceneStatus::Drawn) == !scene_is_blank(series@.candles, *view),
{
    let window = visible_candles(series, view.zoom_milli);
    if window.is_empty() {
        return SceneStatus::NoCandles;
    }
    match resolve_bounds(&view.prices, &window) {
        Some(_) => SceneStatus::Drawn,
        None => SceneStatus::DegenerateRange,
    }
}

/// The candles of the series that are on screen at the given zoom.
pub fn visible_candles(series: &CandleSeries, zoom_milli: u32) -> (window: CandleWindow)
    ensures
        window@ == visible_window(series@.candles, zoom_milli as int),
{
    let candles = series.get_candles();
    assert(candles@.len() == candle_views(candles@).len());
    let shown: usize = visible_count(candles.len(), zoom_milli);
    CandleWindow::latest(candles, shown)
}

/// Builds the vertex list and the uniform block of a frame from the series
/// and the view settings.
pub fn synthesize(series: &CandleSeries, view: &ViewSettings) -> (scene: (Vec<Vertex>, ChartUniforms))
    ensures
        scene.0@ == scene_vertices(series@.candles, *view),
        scene.1 == scene_uniforms(series@.candles, *view),
{
    let mut blank = ChartUniforms::new();
    blank.viewport_width = view.width;
    blank.viewport_height = view.height;
    let window = visible_candles(series, view.zoom_milli);
    if window.is_empty() {
        return (Vec::new(), blank);
    }
    let bounds = match resolve_bounds(&view.prices, &window) {
        Some(b) => b,
        None => {
            return (Vec::new(), blank);
        },
    };
    let mut vertices: Vec<Vertex> = Vec::new();
    push_candles(&mut vertices, &window, &bounds, view.zoom_milli);
    push_price_line(&mut vertices, &window, &bounds);
    let mut grid = create_grid_lines(&window);
    vertices.append(&mut grid);
    let mut bars = create_volume_bars(&window, view.zoom_milli, view.pan);
    vertices.append(&mut bars);
    let mut lines = create_moving_averages(&window, &bounds, &view.visibility);
    vertices.append(&mut lines);
    let mut uniforms = blank;
    uniforms.min_price = bounds.lo();
    uniforms.max_price = bounds.hi();
    uniforms.time_start = 0;
    uniforms.time_end = window.len() as u64;
    uniforms.candle_width = candle_width(view.zoom_milli);
    uniforms.spacing_ratio = SPACING_RATIO;
    uniforms.line_thickness = LINE_THICKNESS;
    assert(vertices@ =~= scene_vertices(series@.candles, *view));
    (vertices, uniforms)
}

/// The widest span of prices whose padded range is still too narrow to be
/// drawn.
pub const MAX_FLAT_SPAN: i64 = 909_091;

/// The scene of a series without candles is blank: no vertex at all.
pub proof fn lemma_empty_series_is_blank(view: ViewSettings)
    ensures
        scene_is_blank(Seq::empty(), view),
        scene_vertices(Seq::empty(), view) == Seq::<Vertex>::empty(),
        scene_uniforms(Seq::empty(), view) == blank_uniforms(view.width, view.height),
{
    let none = Seq::<CandleView>::empty();
    assert(visible_window(none, view.zoom_milli as int).len() == 0);
}

/// Where the price range follows the data, the scene is blank exactly when
/// the prices on screen span no more than `MAX_FLAT_SPAN` ticks.
pub proof fn lemma_narrow_span_is_blank(candles: Seq<CandleView>, view: ViewSettings)
    requires
        candles.len() > 0,
        view.prices == PriceRange::Auto,
    ensures
        scene_is_blank(candles, view) <==> max_high(visible_window(candles, view.zoom_milli as int))
            - min_low(visible_window(candles, view.zoom_milli as int)) <= MAX_FLAT_SPAN,
        scene_is_blank(candles, view) ==> scene_vertices(candles, view) == Seq::<Vertex>::empty(),
{
    let visible = visible_window(candles, view.zoom_milli as int);
    assert(visible.len() > 0);
    let span = max_high(visible) - min_low(visible);
    assert(span <= MAX_FLAT_SPAN <==> span + 2 * (span / 20) < MIN_PRICE_RANGE);
}

/// A window whose candles all stand at one and the same price, open, high,
/// low and close alike, has the lows and highs of that price.
pub proof fn lemma_flat_extremes(candles: Seq<CandleView>, price: int)
    requires
        candles.len() > 0,
        forall|i: int|
            0 <= i < candles.len() ==> (#[trigger] candles[i]).ohlcv.low == price
                && candles[i].ohlcv.high == price,
    ensures
        min_low(candles) == price,
        max_high(candles) == price,
{
    lemma_extremes(candles);
}

/// Where the price range follows the data and every candle on screen is flat
/// at one and the same price, nothing is drawn: the range has collapsed.
pub proof fn lemma_flat_window_is_blank(candles: Seq<CandleView>, view: ViewSettings, price: int)
    requires
        candles.len() > 0,
        view.prices == PriceRange::Auto,
        forall|i: int|
            0 <= i < candles.len() ==> (#[trigger] candles[i]).ohlcv.open == price
                && candles[i].ohlcv.high == price && candles[i].ohlcv.low == price
                && candles[i].ohlcv.close == price,
    ensures
        scene_is_blank(candles, view),
        scene_vertices(candles, view) == Seq::<Vertex>::empty(),
{
    let visible = visible_window(candles, view.zoom_milli as int);
    assert(visible.len() > 0);
    assert forall|i: int| 0 <= i < visible.len() implies (#[trigger] visible[i]).ohlcv.low == price
        && visible[i].ohlcv.high == price by {
        let cut = candles.len() - visible.len();
        assert(visible[i] == candles[i + cut]);
    }
    lemma_flat_extremes(visible, price);
    lemma_narrow_span_is_blank(candles, view);
}

/// A scene that is not blank has vertices: at the least the line at the
/// latest close.
pub proof fn lemma_drawn_scene_has_vertices(candles: Seq<CandleView>, view: ViewSettings)
    requires
        !scene_is_blank(candles, view),
    ensures
        scene_vertices(candles, view).len() >= 6,
{
    let visible = visible_window(candles, view.zoom_milli as int);
    let bounds = view.prices.bounds(visible);
    assert(price_line(visible, bounds.0, bounds.1).len() == 6);
}

/// The window on screen holds `spec_visible_count` candles: it is never
/// longer than the series, and it is empty only if the series is.
pub proof fn lemma_visible_window_len(candles: Seq<CandleView>, zoom_milli: int)
    ensures
        visible_window(candles, zoom_milli).len() == spec_visible_count(
            candles.len() as int,
            zoom_milli,
        ),
        visible_window(candles, zoom_milli).len() <= candles.len(),
        candles.len() > 0 ==> visible_window(candles, zoom_milli).len() > 0,
{
}

/// The visibility flags only filter what is drawn. Hiding every line leaves
/// the beginning of the scene as it is, candles, grid and volume bars alike,
/// and takes away nothing but the indicator lines at its end.
pub proof fn lemma_visibility_only_filters(candles: Seq<CandleView>, view: ViewSettings)
    ensures
        ({
            let bare = ViewSettings {
                visibility: LineVisibility {
                    sma_20: false,
                    sma_50: false,
                    sma_200: false,
                    ema_12: false,
                    ema_26: false,
                },
                ..view
            };
            &&& scene_is_blank(candles, bare) == scene_is_blank(candles, view)
            &&& scene_vertices(candles, bare).is_prefix_of(scene_vertices(candles, view))
            &&& scene_uniforms(candles, bare) == scene_uniforms(candles, view)
        }),
{
    let none = LineVisibility {
        sma_20: false,
        sma_50: false,
        sma_200: false,
        ema_12: false,
        ema_26: false,
    };
    let bare = ViewSettings { visibility: none, ..view };
    let visible = visible_window(candles, view.zoom_milli as int);
    let bounds = view.prices.bounds(visible);
    assert(indicator_vertices(visible, bounds.0, bounds.1, none) =~= Seq::<Vertex>::empty());
    if !scene_is_blank(candles, view) {
        let base = scene_vertices(candles, bare);
        let lines = indicator_vertices(visible, bounds.0, bounds.1, view.visibility);
        assert(scene_vertices(candles, view) =~= base + lines);
        assert((base + lines).subrange(0, base.len() as int) =~= base);
    }
}

/// A price within the range of the screen falls within the candle band, and
/// the ends of the range fall on the band's floor and ceiling.
pub proof fn lemma_price_stays_in_band(price: int, lo: int, hi: int)
    requires
        lo < hi,
        lo <= price <= hi,
    ensures
        PRICE_BAND_FLOOR <= spec_price_y(price, lo, hi) <= CANDLE_CEILING,
        spec_price_y(lo, lo, hi) == PRICE_BAND_FLOOR,
        spec_price_y(hi, lo, hi) == CANDLE_CEILING,
{
    let height = PRICE_BAND_HEIGHT as int;
    let span = hi - lo;
    assert(0 <= (price - lo) * height <= height * span) by (nonlinear_arith)
        requires
            0 <= price - lo <= span,
            height > 0,
    ;
    lemma_floor_div_bound((price - lo) * height, span, span, height);
    lemma_div_pos_is_pos((price - lo) * height, span);
    assert((lo - lo) * height == 0);
    assert((hi - lo) * height == height * span) by (nonlinear_arith)
        requires
            span == hi - lo,
    ;
    lemma_div_multiples_vanish(height, span);
}

/// A higher price is never drawn lower.
pub proof fn lemma_price_y_is_monotone(lower: int, higher: int, lo: int, hi: int)
    requires
        lo < hi,
        lower <= higher,
    ensures
        spec_price_y(lower, lo, hi) <= spec_price_y(higher, lo, hi),
{
    let height = PRICE_BAND_HEIGHT as int;
    assert((lower - lo) * height <= (higher - lo) * height) by (nonlinear_arith)
        requires
            lower <= higher,
            height > 0,
    ;
    lemma_div_is_ordered(
        (lower - lo) * height,
        (higher - lo) * height,
        hi - lo,
    );
}

/// A volume bar stays within the volume band, which lies wholly below the
/// candle band; the bar of the greatest volume fills the band.
pub proof fn lemma_volume_bar_stays_in_band(volume: int, peak: int)
    requires
        0 <= volume <= peak,
        0 < peak,
    ensures
        VOLUME_FLOOR <= VOLUME_FLOOR + (VOLUME_BAND_HEIGHT * volume) / peak <= VOLUME_FLOOR
            + VOLUME_BAND_HEIGHT,
        VOLUME_FLOOR + VOLUME_BAND_HEIGHT < PRICE_BAND_FLOOR,
        VOLUME_FLOOR + (VOLUME_BAND_HEIGHT * peak) / peak == VOLUME_FLOOR + VOLUME_BAND_HEIGHT,
{
    let height = VOLUME_BAND_HEIGHT as int;
    assert(0 <= height * volume <= height * peak) by (nonlinear_arith)
        requires
            0 <= volume <= peak,
            height > 0,
    ;
    lemma_floor_div_bound(height * volume, peak, peak, height);
    lemma_div_pos_is_pos(height * volume, peak);
    lemma_div_multiples_vanish(height, peak);
}

/// While the window holds no more than `BASE_CANDLES` candles, every slot is
/// on screen, and the latest candle sits in the slot at the right edge.
pub proof fn lemma_slots_are_on_screen(index: int, visible_len: int)
    requires
        0 <= index < visible_len <= BASE_CANDLES,
    ensures
        -NDC_ONE <= spec_candle_x(index, visible_len) - SLOT_PITCH / 2,
        spec_candle_x(index, visible_len) + SLOT_PITCH / 2 <= NDC_ONE,
        spec_candle_x(visible_len - 1, visible_len) + SLOT_PITCH / 2 == NDC_ONE,
        index + 1 < visible_len ==> spec_candle_x(index + 1, visible_len) == spec_candle_x(
            index,
            visible_len,
        ) + SLOT_PITCH,
{
    assert((BASE_CANDLES - visible_len) * SLOT_PITCH + index * SLOT_PITCH == (BASE_CANDLES
        - visible_len + index) * SLOT_PITCH) by (nonlinear_arith);
    assert(0 <= (BASE_CANDLES - visible_len + index) * SLOT_PITCH <= 299 * SLOT_PITCH)
        by (nonlinear_arith)
        requires
            0 <= BASE_CANDLES - visible_len + index <= 299,
    ;
    assert((BASE_CANDLES - visible_len) * SLOT_PITCH + (visible_len - 1) * SLOT_PITCH == 299
        * SLOT_PITCH) by (nonlinear_arith)
        requires
            BASE_CANDLES == 300,
    ;
    assert((index + 1) * SLOT_PITCH == index * SLOT_PITCH + SLOT_PITCH) by (nonlinear_arith);
}

/// The candles of a window are made of whole rectangles, six vertices each.
pub proof fn lemma_candle_vertices_len(
    visible: Seq<CandleView>,
    lo: int,
    hi: int,
    width: int,
    n: nat,
)
    ensures
        candle_vertices(visible, lo, hi, width, n).len() % 6 == 0,
        candle_vertices(visible, lo, hi, width, n).len() >= 6 * n,
        candle_vertices(visible, lo, hi, width, n).len() <= 18 * n,
    decreases n,
{
    if n > 0 {
        lemma_candle_vertices_len(visible, lo, hi, width, (n - 1) as nat);
    }
}

/// The grid is made of whole rectangles: seven horizontal lines, and nine
/// vertical ones where there are candles.
pub proof fn lemma_grid_len(count: int)
    ensures
        grid_lines(count).len() == if count > 0 {
            96nat
        } else {
            42nat
        },
{
    reveal_with_fuel(price_grid, 8);
    reveal_with_fuel(time_grid, 10);
}

/// The volume bars are made of whole rectangles, one for each candle.
pub proof fn lemma_volume_bars_len(
    visible: Seq<CandleView>,
    peak: int,
    width: int,
    pan: int,
    n: nat,
)
    ensures
        volume_bars(visible, peak, width, pan, n).len() == 6 * n,
    decreases n,
{
    if n > 0 {
        lemma_volume_bars_len(visible, peak, width, pan, (n - 1) as nat);
    }
}

/// Every scene is made of whole rectangles: the number of its vertices is a
/// multiple of six, so that it can be drawn as triangles in one call.
pub proof fn lemma_scene_is_whole_triangles(candles: Seq<CandleView>, view: ViewSettings)
    ensures
        scene_vertices(candles, view).len() % 6 == 0,
{
    if !scene_is_blank(candles, view) {
        let visible = visible_window(candles, view.zoom_milli as int);
        let bounds = view.prices.bounds(visible);
        lemma_candle_vertices_len(
            visible,
            bounds.0,
            bounds.1,
            spec_candle_width(view.zoom_milli as int),
            visible.len(),
        );
        lemma_grid_len(visible.len() as int);
        lemma_volume_bars_len(
            visible,
            max_volume(visible),
            spec_bar_width(view.zoom_milli as int),
            view.pan as int,
            visible.len(),
        );
        lemma_indicator_vertices_len(
            visible,
            bounds.0,
            bounds.1,
            view.visibility,
        );
    }
}

/// A window in which no candle has any volume has no volume bars.
pub proof fn lemma_no_volume_no_bars(visible: Seq<CandleView>, zoom_milli: int, pan: int)
    requires
        forall|i: int| 0 <= i < visible.len() ==> (#[trigger] visible[i]).ohlcv.volume <= 0,
    ensures
        volume_vertices(visible, zoom_milli, pan) == Seq::<Vertex>::empty(),
{
    lemma_volume_is_bounded(visible, 0);
}

/// Where no volume of the run is above `bound`, which is not negative,
/// `max_volume` is not above it either.
pub proof fn lemma_volume_is_bounded(candles: Seq<CandleView>, bound: int)
    requires
        bound >= 0,
        forall|i: int| 0 <= i < candles.len() ==> (#[trigger] candles[i]).ohlcv.volume <= bound,
    ensures
        max_volume(candles) <= bound,
    decreases candles.len(),
{
    if candles.len() > 0 {
        let rest = candles.drop_last();
        assert forall|i: int| 0 <= i < rest.len() implies (#[trigger] rest[i]).ohlcv.volume
            <= bound by {
            assert(rest[i] == candles[i]);
        }
        lemma_volume_is_bounded(rest, bound);
        assert(candles[candles.len() - 1].ohlcv.volume <= bound);
    }
}

} // verus!
