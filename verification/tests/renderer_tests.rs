use candle_chart::chart::Chart;
use candle_chart::chart::ChartType;
use candle_chart::chart::Viewport;
use candle_chart::coordinator::ChartCoordinator;
use candle_chart::coordinator::RenderError;
use candle_chart::window::PriceRange;
use candle_chart::geometry::SceneStatus;
use candle_chart::indicators::LineVisibility;
use candle_chart::market_data::Candle;
use candle_chart::queue::CandleQueue;
use candle_chart::market_data::Price;
use candle_chart::market_data::Timestamp;
use candle_chart::market_data::Volume;
use candle_chart::market_data::OHLCV;
use candle_chart::render_cache::Fingerprint;
use candle_chart::render_cache::RenderCache;
use candle_chart::renderer::dummy_renderer;
use candle_chart::renderer::BufferPlan;
use candle_chart::renderer::FrameOutcome;
use candle_chart::renderer::FramePlan;
use candle_chart::renderer::PerformanceInfo;
use candle_chart::renderer::WebGpuRenderer;
use candle_chart::renderer::MSAA_SAMPLE_COUNT;
use candle_chart::series::UpsertOutcome;
use candle_chart::vertex::ChartUniforms;
use candle_chart::vertex::ElementKind;
use candle_chart::vertex::Vertex;

const UNIT: i64 = 100_000_000;

fn candle(timestamp: u64, close_units: i64) -> Candle {
    let close = close_units * UNIT;
    Candle::new(
        Timestamp(timestamp),
        OHLCV::new(
            Price::validate(close - UNIT).unwrap(),
            Price::validate(close + 2 * UNIT).unwrap(),
            Price::validate(close - 2 * UNIT).unwrap(),
            Price::validate(close).unwrap(),
            Volume::validate(10 * UNIT).unwrap(),
        ),
    )
    .unwrap()
}

fn chart_with(count: u64) -> Chart {
    let mut chart = Chart::new("test".to_string(), ChartType::Candlestick, 300);
    for t in 1..=count {
        chart.add_candle(candle(t, 100 + t as i64));
    }
    chart
}

fn fingerprint(version: u64) -> Fingerprint {
    Fingerprint { data_version: version, zoom_milli: 1_000, pan: 0, visibility: LineVisibility::default() }
}

#[test]
fn empty_cache_always_needs_a_rebuild() {
    let cache = RenderCache::new();
    assert!(cache.needs_rebuild(0, 1_000, 0, LineVisibility::default()));
    assert_eq!(cache.committed(), None);
    assert!(cache.vertices().is_empty());
}

#[test]
fn committed_fingerprint_is_a_hit_and_any_change_a_miss() {
    let mut cache = RenderCache::new();
    let vertices = vec![Vertex { x: 1, y: 2, kind: ElementKind::Grid, aux: 1000 }];
    cache.commit(fingerprint(7), vertices.clone(), ChartUniforms::new());
    let all = LineVisibility::default();
    assert!(!cache.needs_rebuild(7, 1_000, 0, all));
    assert!(!cache.needs_rebuild(7, 1_000, 0, all));
    assert!(cache.needs_rebuild(8, 1_000, 0, all));
    assert!(cache.needs_rebuild(7, 1_001, 0, all));
    assert!(cache.needs_rebuild(7, 1_000, -1, all));
    assert!(cache.needs_rebuild(7, 1_000, 0, LineVisibility { ema_26: false, ..all }));
    assert!(cache.needs_rebuild(7, 1_000, 0, LineVisibility { sma_20: false, ..all }));
    assert_eq!(cache.vertices(), &vertices);
    assert_eq!(cache.committed(), Some(fingerprint(7)));
}

#[test]
fn invalidated_cache_needs_a_rebuild() {
    let mut cache = RenderCache::new();
    cache.commit(fingerprint(7), Vec::new(), ChartUniforms::new());
    cache.invalidate();
    assert!(cache.needs_rebuild(7, 1_000, 0, LineVisibility::default()));
    assert_eq!(cache.committed(), None);
}

#[test]
fn first_frame_builds_uploads_and_grows_the_buffer() {
    let chart = chart_with(30);
    let mut renderer = WebGpuRenderer::new("chart-canvas".to_string(), 800, 500);
    let plan = renderer.render(&chart);
    let count = renderer.cached_vertices().len();
    assert!(count > 0);
    assert_eq!(
        plan,
        FramePlan { rebuilt: true, upload: true, buffer: BufferPlan::Grow(count), draw_count: count }
    );
    assert_eq!(renderer.buffer_capacity(), 0);
    renderer.frame_done(&plan, FrameOutcome::Drawn, 16);
    assert_eq!(renderer.buffer_capacity(), count);
}

#[test]
fn second_frame_with_the_same_inputs_reuses_the_buffer() {
    let chart = chart_with(30);
    let mut renderer = WebGpuRenderer::new("chart-canvas".to_string(), 800, 500);
    let first = renderer.render(&chart);
    renderer.frame_done(&first, FrameOutcome::Drawn, 16);
    let built = renderer.cached_vertices().as_ptr();
    let held = renderer.cached_vertices().clone();
    let second = renderer.render(&chart);
    assert_eq!(
        second,
        FramePlan { rebuilt: false, upload: false, buffer: BufferPlan::Keep, draw_count: held.len() }
    );
    // The very same buffer, not a copy of it.
    assert_eq!(renderer.cached_vertices().as_ptr(), built);
    assert_eq!(renderer.cached_vertices(), &held);
}

#[test]
fn a_new_candle_forces_a_rebuild() {
    let mut chart = chart_with(30);
    let mut renderer = WebGpuRenderer::new("chart-canvas".to_string(), 800, 500);
    let first = renderer.render(&chart);
    renderer.frame_done(&first, FrameOutcome::Drawn, 16);
    assert_eq!(chart.add_candle(candle(31, 150)), UpsertOutcome::Appended);
    let plan = renderer.render(&chart);
    assert!(plan.rebuilt && plan.upload);
    assert_eq!(plan.buffer, BufferPlan::Grow(plan.draw_count));
    renderer.frame_done(&plan, FrameOutcome::Drawn, 16);
    // A replaced candle changes the data too.
    assert_eq!(chart.add_candle(candle(31, 151)), UpsertOutcome::Replaced);
    let again = renderer.render(&chart);
    assert!(again.rebuilt && again.upload);
    assert_eq!(again.buffer, BufferPlan::Keep);
    // A rejected candle changes nothing.
    renderer.frame_done(&again, FrameOutcome::Drawn, 16);
    chart.add_candle(candle(5, 10));
    assert!(!renderer.render(&chart).rebuilt);
}

#[test]
fn zoom_pan_and_visibility_force_a_rebuild() {
    let chart = chart_with(60);
    let mut renderer = WebGpuRenderer::new("chart-canvas".to_string(), 800, 500);
    renderer.render(&chart);
    assert!(!renderer.render(&chart).rebuilt);
    renderer.set_zoom(2_000);
    assert!(renderer.render(&chart).rebuilt);
    assert!(!renderer.render(&chart).rebuilt);
    renderer.set_pan(5);
    assert!(renderer.render(&chart).rebuilt);
    assert!(!renderer.render(&chart).rebuilt);
    renderer.set_line_visibility(LineVisibility { sma_20: false, ..LineVisibility::default() });
    assert!(renderer.render(&chart).rebuilt);
    assert!(!renderer.render(&chart).rebuilt);
    assert_eq!(renderer.zoom_level(), 2_000);
    assert_eq!(renderer.pan_offset(), 5);
    assert!(!renderer.line_visibility().sma_20);
}

#[test]
fn resize_forces_a_rebuild_and_reaches_the_uniforms() {
    let chart = chart_with(30);
    let mut renderer = WebGpuRenderer::new("chart-canvas".to_string(), 800, 500);
    let first = renderer.render(&chart);
    renderer.frame_done(&first, FrameOutcome::Drawn, 16);
    assert_eq!(renderer.cached_uniforms().viewport_width, 800);
    assert_eq!(renderer.cached_uniforms().viewport_height, 500);
    renderer.resize(1_024, 768);
    let plan = renderer.render(&chart);
    assert!(plan.rebuilt);
    assert!(plan.upload);
    assert_eq!(renderer.cached_uniforms().viewport_width, 1_024);
    assert_eq!(renderer.cached_uniforms().viewport_height, 768);
    assert_eq!((renderer.width(), renderer.height()), (1_024, 768));
    // Even a resize to the same size makes the cache stale.
    renderer.resize(1_024, 768);
    assert!(renderer.render(&chart).rebuilt);
}

#[test]
fn empty_chart_leaves_the_gpu_alone() {
    let chart = chart_with(0);
    let mut renderer = WebGpuRenderer::new("chart-canvas".to_string(), 800, 500);
    let plan = renderer.render(&chart);
    assert_eq!(
        plan,
        FramePlan { rebuilt: true, upload: false, buffer: BufferPlan::Keep, draw_count: 0 }
    );
    assert!(renderer.cached_vertices().is_empty());
    renderer.frame_done(&plan, FrameOutcome::Skipped, 0);
    assert_eq!(
        renderer.render(&chart),
        FramePlan { rebuilt: false, upload: false, buffer: BufferPlan::Keep, draw_count: 0 }
    );
    assert_eq!(renderer.get_performance_info().frames_drawn, 0);
}

#[test]
fn buffer_only_grows() {
    let mut renderer = WebGpuRenderer::new("chart-canvas".to_string(), 800, 500);
    let big = chart_with(60);
    let plan = renderer.render(&big);
    renderer.frame_done(&plan, FrameOutcome::Drawn, 16);
    let capacity = renderer.buffer_capacity();
    let small = chart_with(5);
    let plan = renderer.render(&small);
    assert!(plan.rebuilt && plan.upload);
    assert!(plan.draw_count < capacity);
    assert_eq!(plan.buffer, BufferPlan::Keep);
    renderer.frame_done(&plan, FrameOutcome::Drawn, 16);
    assert_eq!(renderer.buffer_capacity(), capacity);
}

#[test]
fn failed_frame_is_retried_from_scratch() {
    let chart = chart_with(30);
    let mut renderer = WebGpuRenderer::new("chart-canvas".to_string(), 800, 500);
    let plan = renderer.render(&chart);
    renderer.frame_done(&plan, FrameOutcome::Failed, 3);
    assert_eq!(renderer.buffer_capacity(), 0);
    let retry = renderer.render(&chart);
    assert_eq!(retry, plan);
    renderer.frame_done(&retry, FrameOutcome::Drawn, 21);
    let info = renderer.get_performance_info();
    assert_eq!(
        info,
        PerformanceInfo {
            initialized: true,
            width: 800,
            height: 500,
            frames_drawn: 1,
            frames_failed: 1,
            last_frame_ms: 21,
            vertex_count: plan.draw_count,
        }
    );
}

#[test]
fn dummy_renderer_has_the_default_size() {
    let renderer = dummy_renderer();
    assert_eq!((renderer.width(), renderer.height()), (800, 600));
    assert_eq!(renderer.canvas_id(), "");
    assert_eq!(renderer.zoom_level(), 1_000);
    assert_eq!(renderer.pan_offset(), 0);
    assert_eq!(renderer.line_visibility(), LineVisibility::default());
    assert_eq!(renderer.buffer_capacity(), 0);
    assert_eq!(MSAA_SAMPLE_COUNT, 4);
    assert_eq!(WebGpuRenderer::new("c".to_string(), 1, 2).canvas_id(), "c");
}

#[test]
fn create_geometry_does_not_touch_the_cache() {
    let chart = chart_with(30);
    let mut renderer = dummy_renderer();
    let (vertices, uniforms) = renderer.create_geometry(&chart);
    assert!(renderer.cached_vertices().is_empty());
    renderer.render(&chart);
    assert_eq!(renderer.cached_vertices(), &vertices);
    assert_eq!(renderer.cached_uniforms(), uniforms);
    assert_eq!(uniforms.viewport_width, 800);
    assert_eq!(uniforms.viewport_height, 600);
}

#[test]
fn pinned_range_of_the_chart_is_used() {
    let mut chart = chart_with(30);
    chart.set_price_range(PriceRange::Pinned {
        min: Price::validate(50 * UNIT).unwrap(),
        max: Price::validate(250 * UNIT).unwrap(),
    });
    let renderer = dummy_renderer();
    let (_, uniforms) = renderer.create_geometry(&chart);
    assert_eq!(uniforms.min_price, 50 * UNIT);
    assert_eq!(uniforms.max_price, 250 * UNIT);
    assert_eq!(chart.viewport.width, 800);
    assert_eq!(Viewport::default().prices, PriceRange::Auto);
}

#[test]
fn coordinator_refuses_to_render_before_it_is_ready() {
    let mut coordinator = ChartCoordinator::new("chart-canvas".to_string(), 800, 500);
    assert!(!coordinator.is_initialized());
    assert_eq!(coordinator.render_chart(), Err(RenderError::NotInitialized));
    coordinator.set_chart(chart_with(30));
    assert_eq!(coordinator.render_chart(), Err(RenderError::NotInitialized));
    let mut other = ChartCoordinator::new("chart-canvas".to_string(), 800, 500);
    other.initialize_renderer(dummy_renderer());
    assert!(other.is_initialized());
    assert_eq!(other.render_chart(), Err(RenderError::Unavailable));
    assert_eq!(RenderError::NotInitialized.message(), "Chart coordinator not initialized");
    assert_eq!(RenderError::Unavailable.message(), "Chart or renderer not available");
}

#[test]
fn coordinator_renders_and_caches() {
    let mut coordinator = ChartCoordinator::new("chart-canvas".to_string(), 800, 500);
    coordinator.initialize_renderer(WebGpuRenderer::new("chart-canvas".to_string(), 800, 500));
    coordinator.set_chart(chart_with(30));
    let plan = coordinator.render_chart().unwrap();
    assert!(plan.rebuilt && plan.upload && plan.draw_count > 0);
    coordinator.frame_done(&plan, FrameOutcome::Drawn, 16);
    assert!(!coordinator.render_chart().unwrap().rebuilt);
    assert_eq!(coordinator.get_chart().unwrap().get_candle_count(), 30);
    assert_eq!(coordinator.get_renderer().unwrap().buffer_capacity(), plan.draw_count);
}

#[test]
fn coordinator_feeds_candles_to_the_chart() {
    let mut coordinator = ChartCoordinator::new("chart-canvas".to_string(), 800, 500);
    assert_eq!(coordinator.add_candle(candle(1, 100)), None);
    coordinator.initialize_renderer(dummy_renderer());
    coordinator.set_chart(chart_with(3));
    coordinator.render_chart().unwrap();
    assert_eq!(coordinator.add_candle(candle(4, 100)), Some(UpsertOutcome::Appended));
    assert_eq!(coordinator.add_candle(candle(4, 101)), Some(UpsertOutcome::Replaced));
    assert!(coordinator.render_chart().unwrap().rebuilt);
    assert!(matches!(coordinator.add_candle(candle(2, 100)), Some(UpsertOutcome::Rejected(_))));
    assert!(!coordinator.render_chart().unwrap().rebuilt);
    coordinator.get_chart_mut().unwrap().add_candle(candle(9, 100));
    assert_eq!(coordinator.get_chart().unwrap().get_candle_count(), 5);
    assert!(coordinator.render_chart().unwrap().rebuilt);
}

#[test]
fn coordinator_resize_reaches_the_next_frame() {
    let mut coordinator = ChartCoordinator::new("chart-canvas".to_string(), 800, 500);
    coordinator.initialize_renderer(WebGpuRenderer::new("chart-canvas".to_string(), 800, 500));
    coordinator.set_chart(chart_with(30));
    coordinator.render_chart().unwrap();
    coordinator.resize(640, 480);
    assert_eq!((coordinator.width(), coordinator.height()), (640, 480));
    assert!(coordinator.render_chart().unwrap().rebuilt);
    let uniforms = coordinator.get_renderer().unwrap().cached_uniforms();
    assert_eq!((uniforms.viewport_width, uniforms.viewport_height), (640, 480));
}

#[test]
fn coordinator_without_renderer_reports_so() {
    let mut coordinator = ChartCoordinator::new("chart-canvas".to_string(), 800, 500);
    coordinator.resize(10, 20);
    assert_eq!((coordinator.width(), coordinator.height()), (10, 20));
    assert_eq!(
        coordinator.get_performance_info(),
        PerformanceInfo {
            initialized: false,
            width: 0,
            height: 0,
            frames_drawn: 0,
            frames_failed: 0,
            last_frame_ms: 0,
            vertex_count: 0,
        }
    );
    assert!(coordinator.get_chart().is_none());
    assert!(coordinator.get_chart_mut().is_none());
    assert!(coordinator.get_renderer().is_none());
    coordinator.initialize_renderer(dummy_renderer());
    assert!(coordinator.get_performance_info().initialized);
    assert_eq!(coordinator.get_performance_info().width, 800);
}

#[test]
fn chart_history_replaces_its_candles() {
    let mut chart = chart_with(3);
    let history: Vec<Candle> = (100..110u64).map(|t| candle(t, 200)).collect();
    chart.load_history(&history);
    assert_eq!(chart.get_candle_count(), 10);
    assert_eq!(chart.data.get(0).unwrap().timestamp().value(), 100);
    assert_eq!(chart.id, "test");
    assert_eq!(chart.chart_type, ChartType::Candlestick);
}

#[test]
fn renderer_says_why_a_frame_is_empty() {
    let renderer = dummy_renderer();
    assert_eq!(renderer.scene_status(&chart_with(0)), SceneStatus::NoCandles);
    assert_eq!(renderer.scene_status(&chart_with(30)), SceneStatus::Drawn);
    let mut chart = chart_with(30);
    chart.set_price_range(PriceRange::Pinned {
        min: Price::validate(UNIT).unwrap(),
        max: Price::validate(UNIT).unwrap(),
    });
    assert_eq!(renderer.scene_status(&chart), SceneStatus::DegenerateRange);
}

#[test]
fn chart_takes_candles_in_batches() {
    let mut chart = chart_with(3);
    chart.add_candles(&vec![candle(2, 100), candle(4, 100), candle(5, 100), candle(5, 120)]);
    assert_eq!(chart.get_candle_count(), 5);
    assert_eq!(chart.data.last().unwrap().ohlcv().close.value(), 120 * UNIT);
}

#[test]
fn price_range_change_reaches_the_next_frame_through_the_coordinator() {
    let mut coordinator = ChartCoordinator::new("chart-canvas".to_string(), 800, 500);
    coordinator.initialize_renderer(dummy_renderer());
    let pinned = PriceRange::Pinned {
        min: Price::validate(50 * UNIT).unwrap(),
        max: Price::validate(250 * UNIT).unwrap(),
    };
    coordinator.set_price_range(pinned);
    assert!(coordinator.get_chart().is_none());
    coordinator.set_chart(chart_with(30));
    coordinator.render_chart().unwrap();
    assert!(!coordinator.render_chart().unwrap().rebuilt);
    coordinator.set_price_range(pinned);
    assert_eq!(coordinator.get_chart().unwrap().viewport.prices, pinned);
    assert!(coordinator.render_chart().unwrap().rebuilt);
    let uniforms = coordinator.get_renderer().unwrap().cached_uniforms();
    assert_eq!((uniforms.min_price, uniforms.max_price), (50 * UNIT, 250 * UNIT));
}

#[test]
fn invalidated_renderer_builds_anew() {
    let chart = chart_with(30);
    let mut renderer = dummy_renderer();
    renderer.render(&chart);
    let held = renderer.cached_vertices().clone();
    renderer.invalidate_cache();
    assert_eq!(renderer.cached_vertices(), &held);
    let plan = renderer.render(&chart);
    assert!(plan.rebuilt && plan.upload);
    assert_eq!(renderer.cached_vertices(), &held);
}

#[test]
fn coordinator_drains_the_queue_into_the_chart() {
    let mut queue = CandleQueue::new(8);
    queue.push(candle(31, 150));
    queue.push(candle(30, 150));
    queue.push(candle(31, 160));
    queue.push(candle(32, 170));
    let mut coordinator = ChartCoordinator::new("chart-canvas".to_string(), 800, 500);
    assert_eq!(coordinator.drain_queue(&mut queue), 0);
    assert_eq!(queue.len(), 4);
    coordinator.initialize_renderer(dummy_renderer());
    coordinator.set_chart(chart_with(30));
    coordinator.render_chart().unwrap();
    assert_eq!(coordinator.drain_queue(&mut queue), 4);
    assert!(queue.is_empty());
    let chart = coordinator.get_chart().unwrap();
    assert_eq!(chart.get_candle_count(), 32);
    assert_eq!(chart.data.get(30).unwrap().ohlcv().close.value(), 160 * UNIT);
    assert!(coordinator.render_chart().unwrap().rebuilt);
    assert_eq!(coordinator.drain_queue(&mut queue), 0);
    assert!(!coordinator.render_chart().unwrap().rebuilt);
}
