//! The core of a live candlestick chart.
//!
//! A feed hands in candles; the series store merges each into a bounded run
//! in strictly increasing order of time; for each frame the renderer asks its
//! cache whether anything has changed, and only then builds the geometry
//! anew: candles, grid, volume bars and moving averages as one flat list of
//! vertices with a block of uniform parameters.
//!
//! Everything is computed in whole numbers. Prices and volumes are counted in
//! ticks, coordinates in sub-units of normalized device space, zoom and
//! colours in thousandths, so that every result is exact and every contract
//! can say what it is. Whoever owns the device turns the numbers into the
//! floats that the GPU reads, and carries out the plans that the renderer
//! makes.
//!
//! - [`market_data`]: prices, volumes, candles, symbols, intervals
//! - [`series`]: the candle series store
//! - [`queue`]: the bounded queue between the feed and the chart
//! - [`indicators`]: moving averages and their lines
//! - [`window`]: the candles on screen and the price range they are shown in
//! - [`geometry`]: the synthesis of a frame's vertices and uniforms
//! - [`vertex`]: vertices, colours, the uniform block
//! - [`render_cache`]: the fingerprint and the buffers built from it
//! - [`renderer`]: the frame driver's decisions
//! - [`chart`], [`coordinator`]: a chart, and the value that owns chart and
//!   renderer
//! - [`binance_client`], [`decimal`]: the exchange's addresses and records
//! - [`fixed_point`], [`price_order`]: arithmetic and ordering helpers

pub mod binance_client;
pub mod chart;
pub mod coordinator;
pub mod decimal;
pub mod fixed_point;
pub mod geometry;
pub mod indicators;
pub mod market_data;
pub mod price_order;
pub mod queue;
pub mod render_cache;
pub mod renderer;
pub mod series;
pub mod vertex;
pub mod window;
