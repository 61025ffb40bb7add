//! The frame driver: what is decided for each frame, apart from the GPU calls
//! themselves.
//!
//! The renderer holds the view settings, the render cache and what it knows of
//! the GPU's vertex buffer. For each frame it says what has to be done, as a
//! `FramePlan`; whoever owns the device does it and reports back with
//! `frame_done`. The vertex buffer only ever grows.

use vstd::prelude::*;
use crate::chart::Chart;
use crate::chart::DEFAULT_HEIGHT;
use crate::chart::DEFAULT_WIDTH;
use crate::geometry::scene_status;
use crate::geometry::scene_uniforms;
use crate::geometry::scene_vertices;
use crate::geometry::SceneStatus;
use crate::geometry::spec_scene_status;
use crate::geometry::synthesize;
use crate::geometry::ViewSettings;
use crate::geometry::ZOOM_ONE;
use crate::indicators::LineVisibility;
use crate::render_cache::CacheView;
use crate::render_cache::Fingerprint;
use crate::render_cache::RenderCache;
use crate::vertex::ChartUniforms;
use crate::vertex::Vertex;

verus! {

/// Number of samples of the multisampled target.
pub const MSAA_SAMPLE_COUNT: u32 = 4;

/// What has to happen to the GPU's vertex buffer before an upload.
#[derive(Clone, Copy, Debug, PartialEq, Eq, Structural)]
pub enum BufferPlan {
    /// The buffer has room: it is used as it is.
    Keep,
    /// The buffer is too small: one with room for this many vertices takes
    /// its place.
    Grow(usize),
}

/// What has to be done for one frame.
#[derive(Clone, Copy, Debug, PartialEq, Eq, Structural)]
pub struct FramePlan {
    /// The geometry was built anew for this frame.
    pub rebuilt: bool,
    /// The vertex buffer and the uniform block have to be written to the GPU.
    pub upload: bool,
    /// What has to happen to the vertex buffer before that.
    pub buffer: BufferPlan,
    /// The number of vertices of the one draw call; none means that the frame
    /// is skipped and the GPU is left alone.
    pub draw_count: usize,
}

/// How a frame ended.
#[derive(Clone, Copy, Debug, PartialEq, Eq, Structural)]
pub enum FrameOutcome {
    /// The plan was carried out and the frame was presented.
    Drawn,
    /// There was nothing to draw.
    Skipped,
    /// An upload or the draw failed; the frame was dropped.
    Failed,
}

/// A summary of the renderer's state for display.
#[derive(Clone, Copy, Debug, PartialEq, Eq, Structural)]
pub struct PerformanceInfo {
    /// Whether a renderer is there at all.
    pub initialized: bool,
    /// Width of the surface in pixels.
    pub width: u32,
    /// Height of the surface in pixels.
    pub height: u32,
    /// Frames presented so far.
    pub frames_drawn: u64,
    /// Frames dropped so far.
    pub frames_failed: u64,
    /// How long the last presented frame took, in milliseconds.
    pub last_frame_ms: u64,
    /// Vertices in the buffer that was built last.
    pub vertex_count: usize,
}

/// One more, but never past the greatest count.
pub open spec fn bumped(count: u64) -> u64 {
    if count < u64::MAX {
        (count + 1) as u64
    } else {
        count
    }
}

/// The mathematical content of a renderer.
pub struct RendererView {
    /// The canvas that the renderer draws on.
    pub canvas_id: Seq<char>,
    /// Width of the surface in pixels.
    pub width: u32,
    /// Height of the surface in pixels.
    pub height: u32,
    /// Vertices that the GPU's vertex buffer has room for.
    pub buffer_capacity: usize,
    /// The render cache.
    pub cache: CacheView,
    /// Zoom level in thousandths.
    pub zoom_milli: u32,
    /// Pan offset.
    pub pan: i32,
    /// Which indicator lines are drawn.
    pub visibility: LineVisibility,
    /// Frames presented so far.
    pub frames_drawn: u64,
    /// Frames dropped so far.
    pub frames_failed: u64,
    /// How long the last presented frame took, in milliseconds.
    pub last_frame_ms: u64,
}

impl RendererView {
    /// The fingerprint of a frame of the chart.
    pub open spec fn fingerprint(self, chart: Chart) -> Fingerprint {
        Fingerprint {
            data_version: chart.data@.version as u64,
            zoom_milli: self.zoom_milli,
            pan: self.pan,
            visibility: self.visibility,
        }
    }

    /// The view settings of a frame of the chart.
    pub open spec fn settings(self, chart: Chart) -> ViewSettings {
        ViewSettings {
            zoom_milli: self.zoom_milli,
            pan: self.pan,
            visibility: self.visibility,
            prices: chart.viewport.prices,
            width: self.width,
            height: self.height,
        }
    }

    /// Whether a frame of the chart needs its geometry built anew.
    pub open spec fn misses(self, chart: Chart) -> bool {
        self.cache.needs_rebuild(self.fingerprint(chart))
    }

    /// The renderer after a frame of the chart was planned: on a hit nothing
    /// has changed; on a miss the cache holds the chart's geometry and the
    /// fingerprint it was built from.
    pub open spec fn rendered(self, chart: Chart) -> RendererView {
        if self.misses(chart) {
            RendererView {
                cache: CacheView {
                    committed: Some(self.fingerprint(chart)),
                    vertices: scene_vertices(chart.data@.candles, self.settings(chart)),
                    uniforms: scene_uniforms(chart.data@.candles, self.settings(chart)),
                },
                ..self
            }
        } else {
            self
        }
    }

    /// The plan for a frame of the chart. Everything in the cache is drawn in
    /// one call. Only geometry that was just built is uploaded, only if there
    /// is any, and the vertex buffer grows only if it cannot hold it.
    pub open spec fn plan(self, chart: Chart) -> FramePlan {
        let count = self.rendered(chart).cache.vertices.len();
        let upload = self.misses(chart) && count > 0;
        FramePlan {
            rebuilt: self.misses(chart),
            upload,
            buffer: if upload && count > self.buffer_capacity {
                BufferPlan::Grow(count as usize)
            } else {
                BufferPlan::Keep
            },
            draw_count: count as usize,
        }
    }

    /// The renderer after its surface was resized: the new size is in force
    /// and the cache is stale.
    pub open spec fn resized(self, width: u32, height: u32) -> RendererView {
        RendererView {
            width,
            height,
            cache: CacheView { committed: None, ..self.cache },
            ..self
        }
    }

    /// The renderer after a frame ended. A presented frame is counted and
    /// timed, and a grown buffer is taken note of; a dropped frame is counted
    /// and makes the cache stale, so that the next frame starts afresh.
    pub open spec fn settled(
        self,
        plan: FramePlan,
        outcome: FrameOutcome,
        elapsed_ms: u64,
    ) -> RendererView {
        match outcome {
            FrameOutcome::Drawn => RendererView {
                buffer_capacity: match plan.buffer {
                    BufferPlan::Grow(n) if n > self.buffer_capacity => n,
                    _ => self.buffer_capacity,
                },
                frames_drawn: bumped(self.frames_drawn),
                last_frame_ms: elapsed_ms,
                ..self
            },
            FrameOutcome::Skipped => self,
            FrameOutcome::Failed => RendererView {
                cache: CacheView { committed: None, ..self.cache },
                frames_failed: bumped(self.frames_failed),
                ..self
            },
        }
    }
}

/// The decisions of the frame driver. The device, the surface and the buffers
/// themselves are with whoever carries the plans out.
#[derive(Debug)]
pub struct WebGpuRenderer {
    canvas_id: String,
    width: u32,
    height: u32,
    buffer_capacity: usize,
    cache: RenderCache,
    zoom_level: u32,
    pan_offset: i32,
    line_visibility: LineVisibility,
    frames_drawn: u64,
    frames_failed: u64,
    last_frame_time: u64,
}

impl View for WebGpuRenderer {
    type V = RendererView;

    closed spec fn view(&self) -> RendererView {
        RendererView {
            canvas_id: self.canvas_id@,
            width: self.width,
            height: self.height,
            buffer_capacity: self.buffer_capacity,
            cache: self.cache@,
            zoom_milli: self.zoom_level,
            pan: self.pan_offset,
            visibility: self.line_visibility,
            frames_drawn: self.frames_drawn,
            frames_failed: self.frames_failed,
            last_frame_ms: self.last_frame_time,
        }
    }
}

/// The renderer's content before its first frame.
pub open spec fn fresh_renderer(canvas_id: Seq<char>, width: u32, height: u32) -> RendererView {
    RendererView {
        canvas_id,
        width,
        height,
        buffer_capacity: 0,
        cache: CacheView {
            committed: None,
            vertices: Seq::empty(),
            uniforms: ChartUniforms::spec_new(),
        },
        zoom_milli: ZOOM_ONE,
        pan: 0,
        visibility: LineVisibility {
            sma_20: true,
            sma_50: true,
            sma_200: true,
            ema_12: true,
            ema_26: true,
        },
        frames_drawn: 0,
        frames_failed: 0,
        last_frame_ms: 0,
    }
}

impl WebGpuRenderer {
    /// A renderer for the given canvas, at no zoom and no pan, with every
    /// indicator line shown, an empty cache and no vertex buffer yet.
    pub fn new(canvas_id: String, width: u32, height: u32) -> (r: WebGpuRenderer)
        ensures
            r@ == fresh_renderer(canvas_id@, width, height),
    {
        WebGpuRenderer {
            canvas_id,
            width,
            height,
            buffer_capacity: 0,
            cache: RenderCache::new(),
            zoom_level: ZOOM_ONE,
            pan_offset: 0,
            line_visibility: LineVisibility::default(),
            frames_drawn: 0,
            frames_failed: 0,
            last_frame_time: 0,
        }
    }

    /// Builds the vertex list and the uniform block of a frame of the chart,
    /// whatever the cache holds.
    pub fn create_geometry(&self, chart: &Chart) -> (scene: (Vec<Vertex>, ChartUniforms))
        ensures
            scene.0@ == scene_vertices(chart.data@.candles, self@.settings(*chart)),
            scene.1 == scene_uniforms(chart.data@.candles, self@.settings(*chart)),
    {
        let view = ViewSettings {
            zoom_milli: self.zoom_level,
            pan: self.pan_offset,
            visibility: self.line_visibility,
            prices: chart.viewport.prices,
            width: self.width,
            height: self.height,
        };
        synthesize(&chart.data, &view)
    }

    /// Says why a frame of the chart has something to draw or has not.
    pub fn scene_status(&self, chart: &Chart) -> (status: SceneStatus)
        ensures
            status == spec_scene_status(chart.data@.candles, self@.settings(*chart)),
    {
        let view = ViewSettings {
            zoom_milli: self.zoom_level,
            pan: self.pan_offset,
            visibility: self.line_visibility,
            prices: chart.viewport.prices,
            width: self.width,
            height: self.height,
        };
        scene_status(&chart.data, &view)
    }

    /// Plans a frame of the chart. The geometry is built only if the cache
    /// does not hold it already.
    pub fn render(&mut self, chart: &Chart) -> (plan: FramePlan)
        ensures
            plan == old(self)@.plan(*chart),
            final(self)@ == old(self)@.rendered(*chart),
    {
        let version: u64 = chart.data.version();
        let rebuild = self.cache.needs_rebuild(
            version,
            self.zoom_level,
            self.pan_offset,
            self.line_visibility,
        );
        if rebuild {
            let (vertices, uniforms) = self.create_geometry(chart);
            let fingerprint = Fingerprint {
                data_version: version,
                zoom_milli: self.zoom_level,
                pan: self.pan_offset,
                visibility: self.line_visibility,
            };
            self.cache.commit(fingerprint, vertices, uniforms);
        }
        let count: usize = self.cache.vertices().len();
        let upload = rebuild && count > 0;
        let buffer = if upload && count > self.buffer_capacity {
            BufferPlan::Grow(count)
        } else {
            BufferPlan::Keep
        };
        FramePlan { rebuilt: rebuild, upload, buffer, draw_count: count }
    }

    /// Takes note of how the frame that `plan` was made for ended.
    pub fn frame_done(&mut self, plan: &FramePlan, outcome: FrameOutcome, elapsed_ms: u64)
        ensures
            final(self)@ == old(self)@.settled(*plan, outcome, elapsed_ms),
    {
        match outcome {
            FrameOutcome::Drawn => {
                match plan.buffer {
                    BufferPlan::Grow(n) => {
                        if n > self.buffer_capacity {
                            self.buffer_capacity = n;
                        }
                    },
                    BufferPlan::Keep => {},
                }
                if self.frames_drawn < u64::MAX {
                    self.frames_drawn = self.frames_drawn + 1;
                }
                self.last_frame_time = elapsed_ms;
            },
            FrameOutcome::Skipped => {},
            FrameOutcome::Failed => {
                self.cache.invalidate();
                if self.frames_failed < u64::MAX {
                    self.frames_failed = self.frames_failed + 1;
                }
            },
        }
    }

    /// Takes a new size of the surface. The cache becomes stale: the size is
    /// part of the uniform block.
    pub fn resize(&mut self, width: u32, height: u32)
        ensures
            final(self)@ == old(self)@.resized(width, height),
    {
        self.width = width;
        self.height = height;
        self.cache.invalidate();
    }

    /// Declares the cache stale, for a change that no fingerprint shows: the
    /// next frame is built anew.
    pub fn invalidate_cache(&mut self)
        ensures
            final(self)@ == (RendererView {
                cache: CacheView { committed: None, ..old(self)@.cache },
                ..old(self)@
            }),
    {
        self.cache.invalidate();
    }

    /// Sets the zoom level, in thousandths.
    pub fn set_zoom(&mut self, zoom_milli: u32)
        ensures
            final(self)@ == (RendererView { zoom_milli, ..old(self)@ }),
    {
        self.zoom_level = zoom_milli;
    }

    /// Sets the pan offset.
    pub fn set_pan(&mut self, pan: i32)
        ensures
            final(self)@ == (RendererView { pan, ..old(self)@ }),
    {
        self.pan_offset = pan;
    }

    /// Chooses which indicator lines are drawn.
    pub fn set_line_visibility(&mut self, visibility: LineVisibility)
        ensures
            final(self)@ == (RendererView { visibility, ..old(self)@ }),
    {
        self.line_visibility = visibility;
    }

    /// The zoom level, in thousandths.
    pub fn zoom_level(&self) -> (z: u32)
        ensures
            z == self@.zoom_milli,
    {
        self.zoom_level
    }

    /// The pan offset.
    pub fn pan_offset(&self) -> (p: i32)
        ensures
            p == self@.pan,
    {
        self.pan_offset
    }

    /// Which indicator lines are drawn.
    pub fn line_visibility(&self) -> (v: LineVisibility)
        ensures
            v == self@.visibility,
    {
        self.line_visibility
    }

    /// Width of the surface in pixels.
    pub fn width(&self) -> (w: u32)
        ensures
            w == self@.width,
    {
        self.width
    }

    /// Height of the surface in pixels.
    pub fn height(&self) -> (h: u32)
        ensures
            h == self@.height,
    {
        self.height
    }

    /// The canvas that the renderer draws on.
    pub fn canvas_id(&self) -> (id: &str)
        ensures
            id@ == self@.canvas_id,
    {
        self.canvas_id.as_str()
    }

    /// Vertices that the GPU's vertex buffer has room for.
    pub fn buffer_capacity(&self) -> (n: usize)
        ensures
            n == self@.buffer_capacity,
    {
        self.buffer_capacity
    }

    /// The vertex buffer that was built last.
    pub fn cached_vertices(&self) -> (v: &Vec<Vertex>)
        ensures
            v@ == self@.cache.vertices,
    {
        self.cache.vertices()
    }

    /// The uniform block that was built last.
    pub fn cached_uniforms(&self) -> (u: ChartUniforms)
        ensures
            u == self@.cache.uniforms,
    {
        self.cache.uniforms()
    }

    /// A summary of the renderer's state for display.
    pub fn get_performance_info(&self) -> (info: PerformanceInfo)
        ensures
            info == (PerformanceInfo {
                initialized: true,
                width: self@.width,
                height: self@.height,
                frames_drawn: self@.frames_drawn,
                frames_failed: self@.frames_failed,
                last_frame_ms: self@.last_frame_ms,
                vertex_count: self@.cache.vertices.len() as usize,
            }),
    {
        PerformanceInfo {
            initialized: true,
            width: self.width,
            height: self.height,
            frames_drawn: self.frames_drawn,
            frames_failed: self.frames_failed,
            last_frame_ms: self.last_frame_time,
            vertex_count: self.cache.vertices().len(),
        }
    }
}

/// A renderer that is tied to no canvas, of the default size.
pub fn dummy_renderer() -> (r: WebGpuRenderer)
    ensures
        r@ == fresh_renderer(Seq::empty(), DEFAULT_WIDTH, DEFAULT_HEIGHT),
{
    WebGpuRenderer::new(String::new(), DEFAULT_WIDTH, DEFAULT_HEIGHT)
}

/// Two frames in a row with the same data version, zoom, pan and visibility:
/// the second finds the cache valid, builds nothing, uploads nothing, and
/// leaves the renderer, vertex buffer and all, exactly as the first left it.
pub proof fn lemma_second_frame_is_a_hit(r: RendererView, chart: Chart, again: Chart)
    requires
        again.data@.version == chart.data@.version,
    ensures
        !r.rendered(chart).misses(again),
        r.rendered(chart).rendered(again) == r.rendered(chart),
        !r.rendered(chart).plan(again).rebuilt,
        !r.rendered(chart).plan(again).upload,
        r.rendered(chart).plan(again).buffer == BufferPlan::Keep,
{
}

/// After a resize the next frame is a miss, whatever the cache held, and its
/// uniform block reports the new size.
pub proof fn lemma_resize_forces_rebuild(r: RendererView, chart: Chart, width: u32, height: u32)
    ensures
        r.resized(width, height).misses(chart),
        r.resized(width, height).plan(chart).rebuilt,
        r.resized(width, height).rendered(chart).cache.uniforms.viewport_width == width,
        r.resized(width, height).rendered(chart).cache.uniforms.viewport_height == height,
{
}

/// A frame with nothing to draw leaves the GPU alone: nothing is uploaded,
/// the buffer is kept, and no vertex is drawn.
pub proof fn lemma_empty_frame_skips_gpu(r: RendererView, chart: Chart)
    requires
        r.rendered(chart).cache.vertices.len() == 0,
    ensures
        !r.plan(chart).upload,
        r.plan(chart).buffer == BufferPlan::Keep,
        r.plan(chart).draw_count == 0,
{
}

/// The vertex buffer never shrinks, and it grows only to hold what a frame
/// could not fit in.
pub proof fn lemma_buffer_only_grows(
    r: RendererView,
    chart: Chart,
    outcome: FrameOutcome,
    elapsed_ms: u64,
)
    ensures
        r.rendered(chart).settled(r.plan(chart), outcome, elapsed_ms).buffer_capacity
            >= r.buffer_capacity,
        r.rendered(chart).settled(r.plan(chart), outcome, elapsed_ms).buffer_capacity
            != r.buffer_capacity ==> outcome == FrameOutcome::Drawn && r.plan(chart).upload
            && r.rendered(chart).cache.vertices.len() > r.buffer_capacity,
{
}

/// A frame that was dropped makes the next frame start afresh: it is a miss,
/// so everything is built and uploaded again.
pub proof fn lemma_failed_frame_is_retried(
    r: RendererView,
    plan: FramePlan,
    elapsed_ms: u64,
    chart: Chart,
)
    ensures
        r.settled(plan, FrameOutcome::Failed, elapsed_ms).misses(chart),
{
}

} // verus!
