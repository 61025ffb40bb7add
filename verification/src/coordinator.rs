//! The chart coordinator: one chart, one renderer, and the order in which
//! they are used. It is an ordinary value that its owner hands to whoever
//! needs it; there is no global state.

use vstd::prelude::*;
use crate::chart::Chart;
use crate::chart::Viewport;
use crate::window::PriceRange;
use crate::market_data::Candle;
use crate::market_data::candle_views;
use crate::queue::CandleQueue;
use crate::queue::QueueView;
use crate::render_cache::CacheView;
use crate::renderer::FrameOutcome;
use crate::renderer::FramePlan;
use crate::renderer::PerformanceInfo;
use crate::renderer::RendererView;
use crate::renderer::WebGpuRenderer;
use crate::series::next_version;
use crate::series::UpsertOutcome;

verus! {

/// Why no frame could be planned.
#[derive(Clone, Copy, Debug, PartialEq, Eq, Structural)]
pub enum RenderError {
    /// No renderer was handed to the coordinator yet.
    NotInitialized,
    /// The chart or the renderer is missing.
    Unavailable,
}

impl RenderError {
    /// The error in words.
    pub open spec fn spec_message(self) -> Seq<char> {
        match self {
            RenderError::NotInitialized => "Chart coordinator not initialized"@,
            RenderError::Unavailable => "Chart or renderer not available"@,
        }
    }

    /// The error in words.
    pub fn message(&self) -> (text: &'static str)
        ensures
            text@ == self.spec_message(),
    {
        match self {
            RenderError::NotInitialized => "Chart coordinator not initialized",
            RenderError::Unavailable => "Chart or renderer not available",
        }
    }
}

/// The mathematical content of a coordinator.
pub struct CoordinatorView {
    /// The renderer, once there is one.
    pub renderer: Option<RendererView>,
    /// The chart, once there is one.
    pub chart: Option<Chart>,
    /// The canvas that is drawn on.
    pub canvas_id: Seq<char>,
    /// Width of the canvas in pixels.
    pub width: u32,
    /// Height of the canvas in pixels.
    pub height: u32,
    /// Whether a renderer was handed over.
    pub is_initialized: bool,
}

impl CoordinatorView {
    /// What `render_chart` answers.
    pub open spec fn render_result(self) -> Result<FramePlan, RenderError> {
        if !self.is_initialized {
            Err(RenderError::NotInitialized)
        } else if self.chart is None || self.renderer is None {
            Err(RenderError::Unavailable)
        } else {
            Ok(self.renderer->0.plan(self.chart->0))
        }
    }

    /// The coordinator after `render_chart`: the renderer has planned a frame
    /// of the chart, if both are there.
    pub open spec fn rendered(self) -> CoordinatorView {
        if self.render_result() is Ok {
            CoordinatorView {
                renderer: Some(self.renderer->0.rendered(self.chart->0)),
                ..self
            }
        } else {
            self
        }
    }

    /// The coordinator after a resize: the new size is in force here and in
    /// the renderer, whose cache is stale.
    pub open spec fn resized(self, width: u32, height: u32) -> CoordinatorView {
        CoordinatorView {
            width,
            height,
            renderer: match self.renderer {
                Some(r) => Some(r.resized(width, height)),
                None => None,
            },
            ..self
        }
    }
}

/// Owns the chart and the renderer, and puts the two together for each frame.
#[derive(Debug)]
pub struct ChartCoordinator {
    webgpu_renderer: Option<WebGpuRenderer>,
    chart: Option<Chart>,
    canvas_id: String,
    width: u32,
    height: u32,
    is_initialized: bool,
}

impl View for ChartCoordinator {
    type V = CoordinatorView;

    closed spec fn view(&self) -> CoordinatorView {
        CoordinatorView {
            renderer: match self.webgpu_renderer {
                Some(r) => Some(r@),
                None => None,
            },
            chart: self.chart,
            canvas_id: self.canvas_id@,
            width: self.width,
            height: self.height,
            is_initialized: self.is_initialized,
        }
    }
}

impl ChartCoordinator {
    /// A coordinator with neither chart nor renderer.
    pub fn new(canvas_id: String, width: u32, height: u32) -> (c: ChartCoordinator)
        ensures
            c@ == (CoordinatorView {
                renderer: None,
                chart: None,
                canvas_id: canvas_id@,
                width,
                height,
                is_initialized: false,
            }),
    {
        ChartCoordinator {
            webgpu_renderer: None,
            chart: None,
            canvas_id,
            width,
            height,
            is_initialized: false,
        }
    }

    /// Hands the renderer over; from now on frames can be planned.
    pub fn initialize_renderer(&mut self, renderer: WebGpuRenderer)
        ensures
            final(self)@ == (CoordinatorView {
                renderer: Some(renderer@),
                is_initialized: true,
                ..old(self)@
            }),
    {
        self.webgpu_renderer = Some(renderer);
        self.is_initialized = true;
    }

    /// Plans a frame of the chart.
    pub fn render_chart(&mut self) -> (r: Result<FramePlan, RenderError>)
        ensures
            r == old(self)@.render_result(),
            final(self)@ == old(self)@.rendered(),
    {
        if !self.is_initialized {
            return Err(RenderError::NotInitialized);
        }
        match (&self.chart, &mut self.webgpu_renderer) {
            (Some(chart), Some(renderer)) => Ok(renderer.render(chart)),
            _ => Err(RenderError::Unavailable),
        }
    }

    /// Takes note of how the frame that `plan` was made for ended.
    pub fn frame_done(&mut self, plan: &FramePlan, outcome: FrameOutcome, elapsed_ms: u64)
        ensures
            final(self)@ == (CoordinatorView {
                renderer: match old(self)@.renderer {
                    Some(r) => Some(r.settled(*plan, outcome, elapsed_ms)),
                    None => None,
                },
                ..old(self)@
            }),
    {
        match &mut self.webgpu_renderer {
            Some(renderer) => {
                renderer.frame_done(plan, outcome, elapsed_ms);
            },
            None => {},
        }
    }

    /// Puts a chart in the place of the one that was there.
    pub fn set_chart(&mut self, chart: Chart)
        ensures
            final(self)@ == (CoordinatorView { chart: Some(chart), ..old(self)@ }),
    {
        self.chart = Some(chart);
    }

    /// The chart, if there is one.
    pub fn get_chart(&self) -> (chart: Option<&Chart>)
        ensures
            match chart {
                Some(c) => self@.chart == Some(*c),
                None => self@.chart is None,
            },
    {
        self.chart.as_ref()
    }

    /// The chart, if there is one, to be changed in place.
    pub fn get_chart_mut(&mut self) -> (chart: Option<&mut Chart>)
        ensures
            match chart {
                Some(c) => old(self)@.chart == Some(*c) && final(self)@ == (CoordinatorView {
                    chart: Some(*final(c)),
                    ..old(self)@
                }),
                None => old(self)@.chart is None && final(self)@ == old(self)@,
            },
    {
        match &mut self.chart {
            Some(chart) => Some(chart),
            None => None,
        }
    }

    /// Merges a candle from the feed into the chart, if there is one. A
    /// candle that is taken in moves the data version on, so the next frame
    /// is built anew.
    pub fn add_candle(&mut self, candle: Candle) -> (outcome: Option<UpsertOutcome>)
        ensures
            match old(self)@.chart {
                None => outcome is None && final(self)@ == old(self)@,
                Some(before) => {
                    &&& outcome == Some(before.data@.outcome(candle@))
                    &&& final(self)@.chart is Some
                    &&& final(self)@.chart->0.data@ == before.data@.upsert(candle@)
                    &&& final(self)@.chart->0.viewport == before.viewport
                    &&& final(self)@.chart->0.id == before.id
                    &&& final(self)@.chart->0.chart_type == before.chart_type
                    &&& final(self)@.renderer == old(self)@.renderer
                    &&& final(self)@.canvas_id == old(self)@.canvas_id
                    &&& final(self)@.width == old(self)@.width
                    &&& final(self)@.height == old(self)@.height
                    &&& final(self)@.is_initialized == old(self)@.is_initialized
                },
            },
    {
        match &mut self.chart {
            Some(chart) => Some(chart.add_candle(candle)),
            None => None,
        }
    }

    /// Takes every candle out of the queue and merges it into the chart, in
    /// the order they came in; says how many were taken out. Without a chart
    /// the queue is left alone.
    pub fn drain_queue(&mut self, queue: &mut CandleQueue) -> (taken: usize)
        ensures
            match old(self)@.chart {
                None => taken == 0 && final(self)@ == old(self)@ && final(queue)@ == old(queue)@,
                Some(before) => {
                    &&& taken == old(queue)@.pending.len()
                    &&& final(queue)@ == (QueueView {
                        pending: Seq::empty(),
                        capacity: old(queue)@.capacity,
                    })
                    &&& final(self)@.chart is Some
                    &&& final(self)@.chart->0.data@ == before.data@.feed(old(queue)@.pending)
                    &&& final(self)@.chart->0.viewport == before.viewport
                    &&& final(self)@.chart->0.id == before.id
                    &&& final(self)@.chart->0.chart_type == before.chart_type
                    &&& final(self)@.renderer == old(self)@.renderer
                    &&& final(self)@.canvas_id == old(self)@.canvas_id
                    &&& final(self)@.width == old(self)@.width
                    &&& final(self)@.height == old(self)@.height
                    &&& final(self)@.is_initialized == old(self)@.is_initialized
                },
            },
    {
        match &mut self.chart {
            Some(chart) => {
                let candles = queue.take_all();
                assert(candles@.len() == candle_views(candles@).len());
                chart.add_candles(&candles);
                candles.len()
            },
            None => 0,
        }
    }

    /// Pins the vertical price range of the chart, or lets it follow the data
    /// again. The range is part of no fingerprint, so the renderer's cache is
    /// declared stale. Without a chart nothing happens.
    pub fn set_price_range(&mut self, prices: PriceRange)
        ensures
            match old(self)@.chart {
                None => final(self)@ == old(self)@,
                Some(before) => {
                    &&& final(self)@.chart is Some
                    &&& final(self)@.chart->0.viewport == (Viewport { prices, ..before.viewport })
                    &&& final(self)@.chart->0.data == before.data
                    &&& final(self)@.chart->0.id == before.id
                    &&& final(self)@.chart->0.chart_type == before.chart_type
                    &&& final(self)@.renderer == match old(self)@.renderer {
                        Some(r) => Some(
                            RendererView {
                                cache: CacheView { committed: None, ..r.cache },
                                ..r
                            },
                        ),
                        None => None,
                    }
                    &&& final(self)@.canvas_id == old(self)@.canvas_id
                    &&& final(self)@.width == old(self)@.width
                    &&& final(self)@.height == old(self)@.height
                    &&& final(self)@.is_initialized == old(self)@.is_initialized
                },
            },
    {
        match &mut self.chart {
            Some(chart) => {
                chart.set_price_range(prices);
            },
            None => {
                return ;
            },
        }
        match &mut self.webgpu_renderer {
            Some(renderer) => {
                renderer.invalidate_cache();
            },
            None => {},
        }
    }

    /// Takes a new size of the canvas, and passes it on to the renderer.
    pub fn resize(&mut self, width: u32, height: u32)
        ensures
            final(self)@ == old(self)@.resized(width, height),
    {
        self.width = width;
        self.height = height;
        match &mut self.webgpu_renderer {
            Some(renderer) => {
                renderer.resize(width, height);
            },
            None => {},
        }
    }

    /// Whether a renderer was handed over.
    pub fn is_initialized(&self) -> (yes: bool)
        ensures
            yes == self@.is_initialized,
    {
        self.is_initialized
    }

    /// Width of the canvas in pixels.
    pub fn width(&self) -> (w: u32)
        ensures
            w == self@.width,
    {
        self.width
    }

    /// Height of the canvas in pixels.
    pub fn height(&self) -> (h: u32)
        ensures
            h == self@.height,
    {
        self.height
    }

    /// The renderer, if there is one.
    pub fn get_renderer(&self) -> (renderer: Option<&WebGpuRenderer>)
        ensures
            match renderer {
                Some(r) => self@.renderer == Some(r@),
                None => self@.renderer is None,
            },
    {
        self.webgpu_renderer.as_ref()
    }

    /// A summary of the renderer's state; where there is no renderer, one
    /// that says so and is otherwise empty.
    pub fn get_performance_info(&self) -> (info: PerformanceInfo)
        ensures
            info == match self@.renderer {
                Some(r) => PerformanceInfo {
                    initialized: true,
                    width: r.width,
                    height: r.height,
                    frames_drawn: r.frames_drawn,
                    frames_failed: r.frames_failed,
                    last_frame_ms: r.last_frame_ms,
                    vertex_count: r.cache.vertices.len() as usize,
                },
                None => PerformanceInfo {
                    initialized: false,
                    width: 0,
                    height: 0,
                    frames_drawn: 0,
                    frames_failed: 0,
                    last_frame_ms: 0,
                    vertex_count: 0,
                },
            },
    {
        match &self.webgpu_renderer {
            Some(renderer) => renderer.get_performance_info(),
            None => PerformanceInfo {
                initialized: false,
                width: 0,
                height: 0,
                frames_drawn: 0,
                frames_failed: 0,
                last_frame_ms: 0,
                vertex_count: 0,
            },
        }
    }
}

/// A resize reaches the next frame: it is built anew, and its uniform block
/// reports the new size.
pub proof fn lemma_resize_reaches_next_frame(c: CoordinatorView, width: u32, height: u32)
    requires
        c.render_result() is Ok,
    ensures
        c.resized(width, height).render_result() is Ok,
        c.resized(width, height).render_result()->Ok_0.rebuilt,
        c.resized(width, height).rendered().renderer->0.cache.uniforms.viewport_width == width,
        c.resized(width, height).rendered().renderer->0.cache.uniforms.viewport_height == height,
{
}

/// A candle that the series takes in makes the next frame a miss: the cache
/// cannot outlive a change of the data.
pub proof fn lemma_accepted_candle_forces_rebuild(r: RendererView, before: Chart, after: Chart)
    requires
        before.data@.wf(),
        after.data@.version == next_version(before.data@.version),
    ensures
        r.rendered(before).misses(after),
{
}

} // verus!
