//! Immutable configuration values built once at startup: the window and
//! graphics-context request, the font-rendering configuration, and the
//! draw-conversion configuration consumed by the renderer.

use vstd::prelude::*;

verus! {

/// Handle to a texture owned by the renderer.  The renderer hands out
/// identifiers starting at 1; an identifier of 0 marks a handle that has
/// not been assigned yet.
#[derive(Clone, Copy, Debug, PartialEq, Eq, Structural)]
pub struct TextureHandle {
    pub id: u32,
}

impl TextureHandle {
    /// A handle is usable by the renderer exactly when it has been
    /// assigned a nonzero identifier.
    pub open spec fn is_valid(self) -> bool {
        self.id >= 1
    }
}

/// Sentinel texture reference used to render untextured primitives
/// through the same path as textured ones.  Produced during atlas
/// finalization; read-only afterwards.
#[derive(Clone, Copy, Debug, PartialEq, Eq, Structural)]
pub struct DrawNullTexture {
    pub texture: TextureHandle,
}

impl Default for DrawNullTexture {
    /// The default marker carries the unassigned handle; atlas
    /// finalization fills it in.
    fn default() -> (r: Self)
        ensures
            r.texture.id == 0,
    {
        DrawNullTexture { texture: TextureHandle { id: 0 } }
    }
}

/// An inclusive range of Unicode code points to rasterize.
#[derive(Clone, Copy, Debug, PartialEq, Eq, Structural)]
pub struct GlyphRange {
    pub lo: u32,
    pub hi: u32,
}

/// Largest Unicode scalar value a glyph range may reach.
pub const MAX_CODE_POINT: u32 = 0x10FFFF;

/// Font-rendering configuration: oversampling factors, the glyph ranges
/// to rasterize, and the raw bytes of the font file.
#[derive(Clone, Debug)]
pub struct FontConfig {
    /// Pixel height the font is rasterized at.
    pub size: u32,
    /// Horizontal supersampling factor.
    pub oversample_h: u32,
    /// Vertical supersampling factor.
    pub oversample_v: u32,
    /// Code-point ranges to bake into the atlas.
    pub glyph_ranges: Vec<GlyphRange>,
    /// Raw bytes of the font file.
    pub ttf: Vec<u8>,
    /// Whether the atlas takes ownership of the font bytes.
    pub ttf_owned_by_atlas: bool,
}

/// A font configuration the atlas accepts: a positive size within the
/// rasterizer's limit, oversampling factors between 1 and 8, between 1
/// and 16 well-formed glyph ranges, and a non-empty font file.
pub open spec fn valid_font_config(c: FontConfig) -> bool {
    &&& 1 <= c.size <= 256
    &&& 1 <= c.oversample_h <= 8
    &&& 1 <= c.oversample_v <= 8
    &&& 1 <= c.glyph_ranges@.len() <= 16
    &&& forall|i: int|
        0 <= i < c.glyph_ranges@.len() ==> #[trigger] valid_glyph_range(c.glyph_ranges@[i])
    &&& c.ttf@.len() >= 1
}

/// A well-formed glyph range: non-empty and within the Unicode scalar
/// values.
pub open spec fn valid_glyph_range(r: GlyphRange) -> bool {
    r.lo <= r.hi <= MAX_CODE_POINT
}

/// The glyph ranges the demo bakes: basic Latin plus the Cyrillic
/// blocks (Cyrillic, Cyrillic Extended-A, Cyrillic Extended-B).
pub open spec fn cyrillic_glyph_range_seq() -> Seq<GlyphRange> {
    seq![
        GlyphRange { lo: 0x0020, hi: 0x00FF },
        GlyphRange { lo: 0x0400, hi: 0x052F },
        GlyphRange { lo: 0x2DE0, hi: 0x2DFF },
        GlyphRange { lo: 0xA640, hi: 0xA69F },
    ]
}

/// Builds the Latin-plus-Cyrillic glyph range table.
pub fn font_cyrillic_glyph_ranges() -> (r: Vec<GlyphRange>)
    ensures
        r@ == cyrillic_glyph_range_seq(),
{
    let mut r: Vec<GlyphRange> = Vec::new();
    r.push(GlyphRange { lo: 0x0020, hi: 0x00FF });
    r.push(GlyphRange { lo: 0x0400, hi: 0x052F });
    r.push(GlyphRange { lo: 0x2DE0, hi: 0x2DFF });
    r.push(GlyphRange { lo: 0xA640, hi: 0xA69F });
    proof {
        assert(r@ =~= cyrillic_glyph_range_seq());
    }
    r
}

/// Builds the demo's font configuration: 3x2 oversampling, the
/// Latin-plus-Cyrillic glyph ranges, and the given font file bytes.
/// The size starts at 0 and is chosen when the font is registered with
/// the atlas.
pub fn font_config_setup(ttf: Vec<u8>) -> (c: FontConfig)
    ensures
        c.size == 0,
        c.oversample_h == 3,
        c.oversample_v == 2,
        c.glyph_ranges@ == cyrillic_glyph_range_seq(),
        c.ttf@ == ttf@,
        c.ttf_owned_by_atlas == false,
{
    FontConfig {
        size: 0,
        oversample_h: 3,
        oversample_v: 2,
        glyph_ranges: font_cyrillic_glyph_ranges(),
        ttf,
        ttf_owned_by_atlas: false,
    }
}

/// Anti-aliasing mode for shape and line rendering.
#[derive(Clone, Copy, Debug, PartialEq, Eq, Structural)]
pub enum AntiAliasing {
    Off,
    On,
}

/// Draw-conversion configuration: how abstract draw commands are
/// tessellated into concrete vertex geometry.  The global alpha is kept
/// in permille (1000 = fully opaque).
#[derive(Clone, Copy, Debug, PartialEq, Eq, Structural)]
pub struct ConvertConfig {
    /// Sentinel texture for untextured primitives.
    pub null: DrawNullTexture,
    /// Segments used to approximate a circle.
    pub circle_segment_count: u32,
    /// Segments used to approximate a curve.
    pub curve_segment_count: u32,
    /// Segments used to approximate an arc.
    pub arc_segment_count: u32,
    /// Global alpha multiplier, in permille.
    pub global_alpha_permille: u32,
    /// Anti-aliasing mode for filled shapes.
    pub shape_aa: AntiAliasing,
    /// Anti-aliasing mode for lines.
    pub line_aa: AntiAliasing,
}

/// Builds the demo's draw-conversion configuration: 22 segments for
/// every curved shape, full opacity, anti-aliasing on, and the given
/// null-texture sentinel.
pub fn convert_config_setup(null: &DrawNullTexture) -> (c: ConvertConfig)
    ensures
        c.null == *null,
        c.circle_segment_count == 22,
        c.curve_segment_count == 22,
        c.arc_segment_count == 22,
        c.global_alpha_permille == 1000,
        c.shape_aa is On,
        c.line_aa is On,
{
    ConvertConfig {
        null: *null,
        circle_segment_count: 22,
        curve_segment_count: 22,
        arc_segment_count: 22,
        global_alpha_permille: 1000,
        shape_aa: AntiAliasing::On,
        line_aa: AntiAliasing::On,
    }
}

/// Requested graphics API versions: the preferred desktop version and
/// the embedded fallback.
#[derive(Clone, Copy, Debug, PartialEq, Eq, Structural)]
pub struct GlRequest {
    pub opengl_major: u32,
    pub opengl_minor: u32,
    pub opengles_major: u32,
    pub opengles_minor: u32,
}

/// Everything the platform layer needs to create the window and its
/// graphics context.
#[derive(Clone, Debug)]
pub struct WindowConfig {
    pub title: String,
    pub width: u32,
    pub height: u32,
    pub vsync: bool,
    pub srgb: bool,
    pub depth_bits: u32,
    pub gl: GlRequest,
}

/// Builds the demo's window request: a 1280x800 window with vsync, no
/// sRGB, a 24-bit depth buffer, and OpenGL 3.3 with an OpenGL ES 2.0
/// fallback.
pub fn base_window_config() -> (c: WindowConfig)
    ensures
        c.title@ == "Nuklear Rust Gfx OpenGL Demo"@,
        c.width == 1280,
        c.height == 800,
        c.vsync == true,
        c.srgb == false,
        c.depth_bits == 24,
        c.gl == (GlRequest { opengl_major: 3, opengl_minor: 3, opengles_major: 2, opengles_minor: 0 }),
{
    WindowConfig {
        title: "Nuklear Rust Gfx OpenGL Demo".to_owned(),
        width: 1280,
        height: 800,
        vsync: true,
        srgb: false,
        depth_bits: 24,
        gl: GlRequest { opengl_major: 3, opengl_minor: 3, opengles_major: 2, opengles_minor: 0 },
    }
}

} // verus!
