//! A chart: a series of candles and the viewport it is looked at through.

use vstd::prelude::*;
use crate::window::PriceRange;
use crate::market_data::Candle;
use crate::market_data::candle_views;
use crate::series::CandleSeries;
use crate::series::granted_capacity;
use crate::series::SeriesView;
use crate::series::UpsertOutcome;

verus! {

/// The kinds of chart that can be drawn.
#[derive(Clone, Copy, Debug, PartialEq, Eq, Structural)]
pub enum ChartType {
    Candlestick,
}

/// The window that the chart is looked at through.
#[derive(Clone, Copy, Debug, PartialEq)]
pub struct Viewport {
    /// Width in pixels.
    pub width: u32,
    /// Height in pixels.
    pub height: u32,
    /// How the vertical price range is chosen.
    pub prices: PriceRange,
}

/// The width of a viewport that was never resized.
pub const DEFAULT_WIDTH: u32 = 800;

/// The height of a viewport that was never resized.
pub const DEFAULT_HEIGHT: u32 = 600;

impl Default for Viewport {
    /// A viewport of the default size whose price range follows the data.
    fn default() -> (v: Viewport)
        ensures
            v == (Viewport {
                width: DEFAULT_WIDTH,
                height: DEFAULT_HEIGHT,
                prices: PriceRange::Auto,
            }),
    {
        Viewport { width: DEFAULT_WIDTH, height: DEFAULT_HEIGHT, prices: PriceRange::Auto }
    }
}

/// A series of candles with its viewport. The chart owns its series: a feed
/// hands candles in and holds no reference to what is stored.
#[derive(Clone, Debug)]
pub struct Chart {
    pub id: String,
    pub chart_type: ChartType,
    pub data: CandleSeries,
    pub viewport: Viewport,
}

impl Chart {
    /// A chart with no candles and the default viewport.
    pub fn new(id: String, chart_type: ChartType, max_candles: usize) -> (chart: Chart)
        ensures
            chart.id == id,
            chart.chart_type == chart_type,
            chart.data@ == (SeriesView {
                candles: Seq::empty(),
                capacity: granted_capacity(max_candles as nat),
                version: 0,
            }),
            chart.viewport == (Viewport {
                width: DEFAULT_WIDTH,
                height: DEFAULT_HEIGHT,
                prices: PriceRange::Auto,
            }),
    {
        Chart {
            id,
            chart_type,
            data: CandleSeries::new(max_candles),
            viewport: Viewport::default(),
        }
    }

    /// The number of candles in the chart.
    pub fn get_candle_count(&self) -> (n: usize)
        ensures
            n == self.data@.candles.len(),
    {
        self.data.len()
    }

    /// Merges a candle from the feed into the chart's series.
    pub fn add_candle(&mut self, candle: Candle) -> (outcome: UpsertOutcome)
        ensures
            outcome == old(self).data@.outcome(candle@),
            final(self).data@ == old(self).data@.upsert(candle@),
            final(self).id == old(self).id,
            final(self).chart_type == old(self).chart_type,
            final(self).viewport == old(self).viewport,
    {
        self.data.upsert(candle)
    }

    /// Merges candles from the feed into the chart's series, one by one.
    pub fn add_candles(&mut self, candles: &Vec<Candle>)
        ensures
            final(self).data@ == old(self).data@.feed(candle_views(candles@)),
            final(self).id == old(self).id,
            final(self).chart_type == old(self).chart_type,
            final(self).viewport == old(self).viewport,
    {
        self.data.upsert_all(candles)
    }

    /// Replaces the chart's candles by a history.
    pub fn load_history(&mut self, history: &Vec<Candle>)
        ensures
            final(self).data@ == old(self).data@.load(candle_views(history@)),
            final(self).id == old(self).id,
            final(self).chart_type == old(self).chart_type,
            final(self).viewport == old(self).viewport,
    {
        self.data.load_history(history)
    }

    /// Pins the vertical price range, or lets it follow the data again. The
    /// range is part of no fingerprint: a renderer that holds geometry of this
    /// chart has to be told, as `ChartCoordinator::set_price_range` does.
    pub fn set_price_range(&mut self, prices: PriceRange)
        ensures
            final(self).viewport == (Viewport { prices, ..old(self).viewport }),
            final(self).data == old(self).data,
            final(self).id == old(self).id,
            final(self).chart_type == old(self).chart_type,
    {
        self.viewport.prices = prices;
    }
}

} // verus!
