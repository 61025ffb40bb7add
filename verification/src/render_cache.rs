//! The render cache: the geometry that was built last, and the fingerprint of
//! what it was built from.
//!
//! Fingerprint and buffers change together or not at all, so a reader never
//! meets geometry that belongs to another fingerprint.

use vstd::prelude::*;
use crate::indicators::LineVisibility;
use crate::vertex::ChartUniforms;
use crate::vertex::Vertex;

verus! {

/// Everything that the geometry of a frame depends on, besides the size of
/// the surface.
#[derive(Clone, Copy, Debug, PartialEq, Eq, Structural)]
pub struct Fingerprint {
    /// The data version of the series.
    pub data_version: u64,
    /// Zoom level in thousandths.
    pub zoom_milli: u32,
    /// Pan offset.
    pub pan: i32,
    /// Which indicator lines are drawn.
    pub visibility: LineVisibility,
}

/// The mathematical content of a render cache.
pub struct CacheView {
    /// The fingerprint that the buffers were built from, if they are valid.
    pub committed: Option<Fingerprint>,
    /// The vertex buffer.
    pub vertices: Seq<Vertex>,
    /// The uniform block.
    pub uniforms: ChartUniforms,
}

impl CacheView {
    /// Whether geometry for `fingerprint` has to be built anew.
    pub open spec fn needs_rebuild(self, fingerprint: Fingerprint) -> bool {
        self.committed != Some(fingerprint)
    }
}

/// The geometry that was built last, with its fingerprint.
#[derive(Debug)]
pub struct RenderCache {
    committed: Option<Fingerprint>,
    vertices: Vec<Vertex>,
    uniforms: ChartUniforms,
}

impl View for RenderCache {
    type V = CacheView;

    closed spec fn view(&self) -> CacheView {
        CacheView { committed: self.committed, vertices: self.vertices@, uniforms: self.uniforms }
    }
}

impl RenderCache {
    /// A cache that holds nothing valid.
    pub fn new() -> (cache: RenderCache)
        ensures
            cache@ == (CacheView {
                committed: None,
                vertices: Seq::empty(),
                uniforms: ChartUniforms::spec_new(),
            }),
    {
        RenderCache { committed: None, vertices: Vec::new(), uniforms: ChartUniforms::new() }
    }

    /// Whether geometry for the given inputs has to be built anew: it has,
    /// unless they are exactly the inputs of what is held.
    pub fn needs_rebuild(
        &self,
        data_version: u64,
        zoom_milli: u32,
        pan: i32,
        visibility: LineVisibility,
    ) -> (rebuild: bool)
        ensures
            rebuild == self@.needs_rebuild(
                Fingerprint { data_version, zoom_milli, pan, visibility },
            ),
    {
        match self.committed {
            None => true,
            Some(held) => !(held.data_version == data_version && held.zoom_milli == zoom_milli
                && held.pan == pan && held.visibility == visibility),
        }
    }

    /// Takes new geometry and its fingerprint in, both at once.
    pub fn commit(&mut self, fingerprint: Fingerprint, vertices: Vec<Vertex>, uniforms: ChartUniforms)
        ensures
            final(self)@ == (CacheView {
                committed: Some(fingerprint),
                vertices: vertices@,
                uniforms,
            }),
    {
        *self = RenderCache { committed: Some(fingerprint), vertices, uniforms };
    }

    /// Declares what is held stale: the next question for any fingerprint is
    /// answered with a rebuild.
    pub fn invalidate(&mut self)
        ensures
            final(self)@ == (CacheView { committed: None, ..old(self)@ }),
    {
        self.committed = None;
    }

    /// The fingerprint of what is held, if it is valid.
    pub fn committed(&self) -> (f: Option<Fingerprint>)
        ensures
            f == self@.committed,
    {
        self.committed
    }

    /// The vertex buffer.
    pub fn vertices(&self) -> (v: &Vec<Vertex>)
        ensures
            v@ == self@.vertices,
    {
        &self.vertices
    }

    /// The uniform block.
    pub fn uniforms(&self) -> (u: ChartUniforms)
        ensures
            u == self@.uniforms,
    {
        self.uniforms
    }
}

/// Asking twice about the fingerprint that was just committed finds the
/// buffers valid, and asking changes nothing: no geometry is built again.
pub proof fn lemma_committed_is_a_hit(cache: CacheView, fingerprint: Fingerprint)
    requires
        cache.committed == Some(fingerprint),
    ensures
        !cache.needs_rebuild(fingerprint),
{
}

/// Any change in data version, zoom, pan or visibility is a miss.
pub proof fn lemma_changed_input_is_a_miss(cache: CacheView, held: Fingerprint, asked: Fingerprint)
    requires
        cache.committed == Some(held),
        asked != held,
    ensures
        cache.needs_rebuild(asked),
{
}

} // verus!
