//! What the synthesizer hands to the GPU: vertices in normalized device
//! coordinates, and the block of uniform parameters that goes with them.
//!
//! A coordinate is a whole number of sub-units, `NDC_ONE` of them to one unit
//! of normalized device space, so the visible square is
//! `[-NDC_ONE, NDC_ONE]` on both axes. Colours and ratios are in thousandths.

use vstd::prelude::*;

verus! {

/// Sub-units per unit of normalized device space.
pub const NDC_ONE: i64 = 3_000_000;

/// One whole, in thousandths.
pub const FULL: u16 = 1000;

/// The moving averages that can be drawn.
#[derive(Clone, Copy, Debug, PartialEq, Eq, Hash, Structural)]
pub enum IndicatorType {
    Sma20,
    Sma50,
    Sma200,
    Ema12,
    Ema26,
}

impl IndicatorType {
    /// The number of candles in the average's window.
    pub open spec fn spec_period(self) -> nat {
        match self {
            IndicatorType::Sma20 => 20,
            IndicatorType::Sma50 => 50,
            IndicatorType::Sma200 => 200,
            IndicatorType::Ema12 => 12,
            IndicatorType::Ema26 => 26,
        }
    }

    /// Whether the average is exponential rather than simple.
    pub open spec fn spec_is_exponential(self) -> bool {
        self == IndicatorType::Ema12 || self == IndicatorType::Ema26
    }

    /// The number of candles in the average's window.
    pub fn period(&self) -> (n: usize)
        ensures
            n == self.spec_period(),
    {
        match self {
            IndicatorType::Sma20 => 20,
            IndicatorType::Sma50 => 50,
            IndicatorType::Sma200 => 200,
            IndicatorType::Ema12 => 12,
            IndicatorType::Ema26 => 26,
        }
    }

    /// Whether the average is exponential rather than simple.
    pub fn is_exponential(&self) -> (e: bool)
        ensures
            e == self.spec_is_exponential(),
    {
        match self {
            IndicatorType::Sma20 => false,
            IndicatorType::Sma50 => false,
            IndicatorType::Sma200 => false,
            IndicatorType::Ema12 => true,
            IndicatorType::Ema26 => true,
        }
    }
}

/// What a vertex is part of; the GPU picks the colour by it.
#[derive(Clone, Copy, Debug, PartialEq, Eq, Hash, Structural)]
pub enum ElementKind {
    BodyBullish,
    BodyBearish,
    Wick,
    VolumeBullish,
    VolumeBearish,
    Grid,
    PriceLine,
    Indicator(IndicatorType),
}

impl ElementKind {
    /// The number that stands for the kind in the vertex buffer.
    pub open spec fn spec_tag(self) -> nat {
        match self {
            ElementKind::BodyBullish => 0,
            ElementKind::BodyBearish => 1,
            ElementKind::Wick => 2,
            ElementKind::VolumeBullish => 3,
            ElementKind::VolumeBearish => 4,
            ElementKind::Grid => 5,
            ElementKind::PriceLine => 6,
            ElementKind::Indicator(IndicatorType::Sma20) => 7,
            ElementKind::Indicator(IndicatorType::Sma50) => 8,
            ElementKind::Indicator(IndicatorType::Sma200) => 9,
            ElementKind::Indicator(IndicatorType::Ema12) => 10,
            ElementKind::Indicator(IndicatorType::Ema26) => 11,
        }
    }

    /// The number that stands for the kind in the vertex buffer.
    pub fn tag(&self) -> (t: u32)
        ensures
            t == self.spec_tag(),
    {
        match self {
            ElementKind::BodyBullish => 0,
            ElementKind::BodyBearish => 1,
            ElementKind::Wick => 2,
            ElementKind::VolumeBullish => 3,
            ElementKind::VolumeBearish => 4,
            ElementKind::Grid => 5,
            ElementKind::PriceLine => 6,
            ElementKind::Indicator(IndicatorType::Sma20) => 7,
            ElementKind::Indicator(IndicatorType::Sma50) => 8,
            ElementKind::Indicator(IndicatorType::Sma200) => 9,
            ElementKind::Indicator(IndicatorType::Ema12) => 10,
            ElementKind::Indicator(IndicatorType::Ema26) => 11,
        }
    }

    /// The body kind for a rising or a falling candle.
    pub open spec fn body(bullish: bool) -> ElementKind {
        if bullish {
            ElementKind::BodyBullish
        } else {
            ElementKind::BodyBearish
        }
    }

    /// The volume-bar kind for a rising or a falling candle.
    pub open spec fn volume(bullish: bool) -> ElementKind {
        if bullish {
            ElementKind::VolumeBullish
        } else {
            ElementKind::VolumeBearish
        }
    }
}

/// One corner of a triangle.
#[derive(Clone, Copy, Debug, PartialEq, Eq, Structural)]
pub struct Vertex {
    /// Horizontal position in sub-units.
    pub x: i64,
    /// Vertical position in sub-units.
    pub y: i64,
    /// What the vertex is part of.
    pub kind: ElementKind,
    /// Intensity in thousandths. Everything is drawn at full intensity.
    pub aux: u16,
}

/// The two triangles that cover the rectangle `[x0, x1] x [y0, y1]`.
pub open spec fn quad(x0: int, x1: int, y0: int, y1: int, kind: ElementKind) -> Seq<Vertex> {
    seq![
        Vertex { x: x0 as i64, y: y0 as i64, kind, aux: FULL },
        Vertex { x: x1 as i64, y: y0 as i64, kind, aux: FULL },
        Vertex { x: x0 as i64, y: y1 as i64, kind, aux: FULL },
        Vertex { x: x1 as i64, y: y0 as i64, kind, aux: FULL },
        Vertex { x: x1 as i64, y: y1 as i64, kind, aux: FULL },
        Vertex { x: x0 as i64, y: y1 as i64, kind, aux: FULL },
    ]
}

/// The two triangles of a line piece from `(xa, ya)` to `(xb, yb)` that
/// reaches `half` above and below both ends.
pub open spec fn segment(xa: int, ya: int, xb: int, yb: int, half: int, kind: ElementKind) -> Seq<
    Vertex,
> {
    seq![
        Vertex { x: xa as i64, y: (ya - half) as i64, kind, aux: FULL },
        Vertex { x: xb as i64, y: (yb - half) as i64, kind, aux: FULL },
        Vertex { x: xa as i64, y: (ya + half) as i64, kind, aux: FULL },
        Vertex { x: xb as i64, y: (yb - half) as i64, kind, aux: FULL },
        Vertex { x: xb as i64, y: (yb + half) as i64, kind, aux: FULL },
        Vertex { x: xa as i64, y: (ya + half) as i64, kind, aux: FULL },
    ]
}

/// Appends the two triangles of a rectangle to `out`.
pub fn push_quad(out: &mut Vec<Vertex>, x0: i64, x1: i64, y0: i64, y1: i64, kind: ElementKind)
    ensures
        final(out)@ == old(out)@ + quad(x0 as int, x1 as int, y0 as int, y1 as int, kind),
{
    out.push(Vertex { x: x0, y: y0, kind, aux: FULL });
    out.push(Vertex { x: x1, y: y0, kind, aux: FULL });
    out.push(Vertex { x: x0, y: y1, kind, aux: FULL });
    out.push(Vertex { x: x1, y: y0, kind, aux: FULL });
    out.push(Vertex { x: x1, y: y1, kind, aux: FULL });
    out.push(Vertex { x: x0, y: y1, kind, aux: FULL });
}

/// Appends the two triangles of a line piece to `out`.
pub(crate) fn push_segment(
    out: &mut Vec<Vertex>,
    xa: i64,
    ya: i64,
    xb: i64,
    yb: i64,
    half: i64,
    kind: ElementKind,
)
    requires
        half >= 0,
        i64::MIN <= ya - half,
        ya + half <= i64::MAX,
        i64::MIN <= yb - half,
        yb + half <= i64::MAX,
    ensures
        final(out)@ == old(out)@ + segment(
            xa as int,
            ya as int,
            xb as int,
            yb as int,
            half as int,
            kind,
        ),
{
    out.push(Vertex { x: xa, y: ya - half, kind, aux: FULL });
    out.push(Vertex { x: xb, y: yb - half, kind, aux: FULL });
    out.push(Vertex { x: xa, y: ya + half, kind, aux: FULL });
    out.push(Vertex { x: xb, y: yb - half, kind, aux: FULL });
    out.push(Vertex { x: xb, y: yb + half, kind, aux: FULL });
    out.push(Vertex { x: xa, y: ya + half, kind, aux: FULL });
}

/// A colour in thousandths of full intensity.
#[derive(Clone, Copy, Debug, PartialEq, Eq, Structural)]
pub struct Rgba {
    pub r: u16,
    pub g: u16,
    pub b: u16,
    pub a: u16,
}

/// The colour of each kind of element.
#[derive(Clone, Copy, Debug, PartialEq, Eq, Structural)]
pub struct ColorTable {
    pub bullish: Rgba,
    pub bearish: Rgba,
    pub wick: Rgba,
    pub sma20: Rgba,
    pub sma50: Rgba,
    pub sma200: Rgba,
    pub ema12: Rgba,
    pub ema26: Rgba,
    pub current_price: Rgba,
}

impl ColorTable {
    /// The chart's colours.
    pub open spec fn spec_standard() -> ColorTable {
        ColorTable {
            bullish: Rgba { r: 455, g: 780, b: 529, a: 1000 },
            bearish: Rgba { r: 882, g: 424, b: 282, a: 1000 },
            wick: Rgba { r: 600, g: 600, b: 600, a: 900 },
            sma20: Rgba { r: 1000, g: 200, b: 200, a: 900 },
            sma50: Rgba { r: 1000, g: 800, b: 0, a: 900 },
            sma200: Rgba { r: 200, g: 400, b: 800, a: 900 },
            ema12: Rgba { r: 800, g: 200, b: 800, a: 900 },
            ema26: Rgba { r: 0, g: 800, b: 800, a: 900 },
            current_price: Rgba { r: 1000, g: 1000, b: 0, a: 800 },
        }
    }

    /// The chart's colours.
    pub fn standard() -> (t: ColorTable)
        ensures
            t == Self::spec_standard(),
    {
        ColorTable {
            bullish: Rgba { r: 455, g: 780, b: 529, a: 1000 },
            bearish: Rgba { r: 882, g: 424, b: 282, a: 1000 },
            wick: Rgba { r: 600, g: 600, b: 600, a: 900 },
            sma20: Rgba { r: 1000, g: 200, b: 200, a: 900 },
            sma50: Rgba { r: 1000, g: 800, b: 0, a: 900 },
            sma200: Rgba { r: 200, g: 400, b: 800, a: 900 },
            ema12: Rgba { r: 800, g: 200, b: 800, a: 900 },
            ema26: Rgba { r: 0, g: 800, b: 800, a: 900 },
            current_price: Rgba { r: 1000, g: 1000, b: 0, a: 800 },
        }
    }
}

/// The parameters that hold for a whole frame.
#[derive(Clone, Copy, Debug, PartialEq, Eq)]
pub struct ChartUniforms {
    /// The view-projection matrix in thousandths, row by row. Vertices are
    /// already in normalized device coordinates, so it is the identity.
    pub view_proj: [[i32; 4]; 4],
    /// Width of the surface in pixels.
    pub viewport_width: u32,
    /// Height of the surface in pixels.
    pub viewport_height: u32,
    /// Lower end of the price range on screen, in ticks.
    pub min_price: i64,
    /// Upper end of the price range on screen, in ticks.
    pub max_price: i64,
    /// Index of the first candle on screen.
    pub time_start: u64,
    /// Number of candles on screen.
    pub time_end: u64,
    /// The colour of each kind of element.
    pub colors: ColorTable,
    /// Width of a candle body in sub-units.
    pub candle_width: i64,
    /// Share of a slot that is left empty between candles, in thousandths.
    pub spacing_ratio: u16,
    /// Thickness of indicator lines in sub-units.
    pub line_thickness: i64,
}

/// The identity matrix in thousandths.
pub open spec fn identity_matrix() -> [[i32; 4]; 4] {
    [[1000, 0, 0, 0], [0, 1000, 0, 0], [0, 0, 1000, 0], [0, 0, 0, 1000]]
}

impl ChartUniforms {
    /// The block for a frame with nothing on it: no surface, no price range,
    /// the standard colours, and a candle width for no zoom.
    pub open spec fn spec_new() -> ChartUniforms {
        ChartUniforms {
            view_proj: identity_matrix(),
            viewport_width: 0,
            viewport_height: 0,
            min_price: 0,
            max_price: 0,
            time_start: 0,
            time_end: 0,
            colors: ColorTable::spec_standard(),
            candle_width: 16_000,
            spacing_ratio: 200,
            line_thickness: 12_000,
        }
    }

    /// The block for a frame with nothing on it.
    pub fn new() -> (u: ChartUniforms)
        ensures
            u == Self::spec_new(),
    {
        ChartUniforms {
            view_proj: [[1000, 0, 0, 0], [0, 1000, 0, 0], [0, 0, 1000, 0], [0, 0, 0, 1000]],
            viewport_width: 0,
            viewport_height: 0,
            min_price: 0,
            max_price: 0,
            time_start: 0,
            time_end: 0,
            colors: ColorTable::standard(),
            candle_width: 16_000,
            spacing_ratio: 200,
            line_thickness: 12_000,
        }
    }
}

} // verus!
