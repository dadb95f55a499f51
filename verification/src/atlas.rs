//! The font atlas: fonts are registered while the atlas is building,
//! one bake step rasterizes every registered font into a single bitmap,
//! and finalization hands out the null-texture sentinel.  After the
//! bake the atlas is read-only.
//!
//! The atlas models rasterization at the level the frame loop depends
//! on: each font occupies a grid of glyph cells whose size follows from
//! the font size and the oversampling factors, and the baked bitmap is
//! a solid placeholder of exactly the packed dimensions.  The bitmap
//! dimensions are capped at the largest texture side the renderer
//! accepts.

use vstd::prelude::*;

use crate::config::DrawNullTexture;
use crate::config::FontConfig;
use crate::config::GlyphRange;
use crate::config::MAX_CODE_POINT;
use crate::config::TextureHandle;
use crate::config::valid_font_config;
use crate::config::valid_glyph_range;

verus! {

/// Glyph cells per packing row.
pub const GRID_COLS: usize = 32;

/// Largest width or height of the baked bitmap, in pixels.
pub const MAX_ATLAS_SIDE: usize = 4096;

/// Most fonts one atlas can hold.
pub const MAX_ATLAS_FONTS: usize = 64;

/// Most glyphs one registered font can request: 16 ranges of at most
/// the whole Unicode scalar space each.
pub const MAX_FONT_GLYPHS: usize = 16 * 0x110000;

/// What the atlas records of one registered font.
#[derive(Clone, Copy, Debug, PartialEq, Eq, Structural)]
pub struct FontSpec {
    /// Pixel height the font is rasterized at.
    pub size: u32,
    /// Horizontal supersampling factor.
    pub oversample_h: u32,
    /// Vertical supersampling factor.
    pub oversample_v: u32,
    /// Number of glyphs the font's ranges request.
    pub glyphs: usize,
}

/// Bounds on a registered font, guaranteed by registration and relied
/// on by the bake arithmetic.
pub open spec fn valid_font_spec(f: FontSpec) -> bool {
    &&& 1 <= f.size <= 256
    &&& 1 <= f.oversample_h <= 8
    &&& 1 <= f.oversample_v <= 8
    &&& 1 <= f.glyphs <= MAX_FONT_GLYPHS
}

/// Lifecycle of the atlas: fonts may be registered only while it is
/// building; the bake happens exactly once; finalization follows it.
#[derive(Clone, Copy, Debug, PartialEq, Eq, Structural)]
pub enum AtlasState {
    Building,
    Baked,
    Finalized,
}

/// Pixel layout of the baked bitmap.
#[derive(Clone, Copy, Debug, PartialEq, Eq, Structural)]
pub enum FontAtlasFormat {
    Alpha8,
    Rgba32,
}

/// Bytes per pixel of a bitmap format.
pub open spec fn bytes_per_pixel(f: FontAtlasFormat) -> int {
    match f {
        FontAtlasFormat::Alpha8 => 1,
        FontAtlasFormat::Rgba32 => 4,
    }
}

/// Why a font could not be registered.
#[derive(Clone, Copy, Debug, PartialEq, Eq, Structural)]
pub enum AtlasError {
    /// The atlas was already baked.
    Sealed,
    /// The atlas already holds the most fonts it can.
    Full,
    /// The font configuration is out of the rasterizer's bounds.
    InvalidConfig,
}

/// Reference to a registered font, used to style the UI context.
#[derive(Clone, Copy, Debug, PartialEq, Eq, Structural)]
pub struct FontHandle {
    /// Index of the font in registration order.
    pub index: usize,
    /// Pixel height of the font.
    pub height: u32,
}

/// Glyphs requested by a sequence of code-point ranges.
pub open spec fn glyphs_of(rs: Seq<GlyphRange>) -> int
    decreases rs.len(),
{
    if rs.len() == 0 {
        0
    } else {
        glyphs_of(rs.drop_last()) + (rs.last().hi - rs.last().lo + 1)
    }
}

/// Every well-formed range requests between 1 and 0x110000 glyphs, so
/// the total is bounded by the number of ranges.
pub proof fn lemma_glyphs_of_bounds(rs: Seq<GlyphRange>)
    requires
        forall|i: int| 0 <= i < rs.len() ==> #[trigger] valid_glyph_range(rs[i]),
    ensures
        rs.len() <= glyphs_of(rs) <= rs.len() * (MAX_CODE_POINT + 1),
    decreases rs.len(),
{
    if rs.len() == 0 {
    } else {
        lemma_glyphs_of_bounds(rs.drop_last());
        assert(valid_glyph_range(rs[rs.len() - 1]));
        assert((rs.len() - 1) * (MAX_CODE_POINT + 1) + (MAX_CODE_POINT + 1) == rs.len() * (
        MAX_CODE_POINT + 1)) by (nonlinear_arith);
    }
}

/// Width in pixels of one glyph cell of a font.
pub open spec fn cell_w(f: FontSpec) -> int {
    f.size * f.oversample_h
}

/// Height in pixels of one glyph cell of a font.
pub open spec fn cell_h(f: FontSpec) -> int {
    f.size * f.oversample_v
}

/// Packing rows a font needs for its glyphs.
pub open spec fn font_rows(f: FontSpec) -> int {
    (f.glyphs + GRID_COLS - 1) / (GRID_COLS as int)
}

/// Width of a font's packed block, capped at the largest texture side.
pub open spec fn font_block_w(f: FontSpec) -> int {
    let w = GRID_COLS * cell_w(f);
    if w > MAX_ATLAS_SIDE {
        MAX_ATLAS_SIDE as int
    } else {
        w
    }
}

/// Height of a font's packed block.
pub open spec fn font_block_h(f: FontSpec) -> int {
    font_rows(f) * cell_h(f)
}

/// Width of the baked bitmap: the widest font block.
pub open spec fn atlas_w(fs: Seq<FontSpec>) -> int
    decreases fs.len(),
{
    if fs.len() == 0 {
        0
    } else {
        let p = atlas_w(fs.drop_last());
        let b = font_block_w(fs.last());
        if b > p {
            b
        } else {
            p
        }
    }
}

/// Height of the baked bitmap: the font blocks stacked, capped at the
/// largest texture side.
pub open spec fn atlas_h(fs: Seq<FontSpec>) -> int
    decreases fs.len(),
{
    if fs.len() == 0 {
        0
    } else {
        let s = atlas_h(fs.drop_last()) + font_block_h(fs.last());
        if s > MAX_ATLAS_SIDE {
            MAX_ATLAS_SIDE as int
        } else {
            s
        }
    }
}

/// The packed dimensions of any sequence of registered fonts stay
/// within the largest texture side, and at least one font makes both
/// dimensions positive.
pub proof fn lemma_atlas_dims(fs: Seq<FontSpec>)
    requires
        forall|i: int| 0 <= i < fs.len() ==> #[trigger] valid_font_spec(fs[i]),
    ensures
        0 <= atlas_w(fs) <= MAX_ATLAS_SIDE,
        0 <= atlas_h(fs) <= MAX_ATLAS_SIDE,
        fs.len() >= 1 ==> GRID_COLS <= atlas_w(fs) && 1 <= atlas_h(fs),
    decreases fs.len(),
{
    if fs.len() == 0 {
    } else {
        lemma_atlas_dims(fs.drop_last());
        let f = fs.last();
        assert(valid_font_spec(fs[fs.len() - 1]));
        lemma_font_block_bounds(f);
    }
}

/// Bounds on one font's packed block, from the registration bounds.
pub proof fn lemma_font_block_bounds(f: FontSpec)
    requires
        valid_font_spec(f),
    ensures
        GRID_COLS <= font_block_w(f) <= MAX_ATLAS_SIDE,
        1 <= font_block_h(f) <= 557056 * 2048,
        1 <= cell_w(f) <= 2048,
        1 <= cell_h(f) <= 2048,
        1 <= font_rows(f) <= 557056,
{
    assert(1 <= f.size * f.oversample_h <= 2048) by (nonlinear_arith)
        requires
            1 <= f.size <= 256,
            1 <= f.oversample_h <= 8,
    ;
    assert(1 <= f.size * f.oversample_v <= 2048) by (nonlinear_arith)
        requires
            1 <= f.size <= 256,
            1 <= f.oversample_v <= 8,
    ;
    assert(1 <= font_rows(f) <= 557056);
    assert(1 <= font_rows(f) * cell_h(f) <= 557056 * 2048) by (nonlinear_arith)
        requires
            1 <= font_rows(f) <= 557056,
            1 <= cell_h(f) <= 2048,
    ;
    assert(GRID_COLS * cell_w(f) >= GRID_COLS) by (nonlinear_arith)
        requires
            1 <= cell_w(f),
    ;
}

/// Checks a font configuration against the rasterizer's bounds.
fn font_config_valid(cfg: &FontConfig) -> (b: bool)
    ensures
        b == valid_font_config(*cfg),
{
    if !(1 <= cfg.size && cfg.size <= 256) {
        return false;
    }
    if !(1 <= cfg.oversample_h && cfg.oversample_h <= 8) {
        return false;
    }
    if !(1 <= cfg.oversample_v && cfg.oversample_v <= 8) {
        return false;
    }
    if !(1 <= cfg.glyph_ranges.len() && cfg.glyph_ranges.len() <= 16) {
        return false;
    }
    if cfg.ttf.len() < 1 {
        return false;
    }
    let n = cfg.glyph_ranges.len();
    let mut i: usize = 0;
    while i < n
        invariant
            0 <= i <= n,
            n == cfg.glyph_ranges@.len(),
            forall|j: int| 0 <= j < i ==> #[trigger] valid_glyph_range(cfg.glyph_ranges@[j]),
        decreases n - i,
    {
        let r = cfg.glyph_ranges[i];
        if !(r.lo <= r.hi && r.hi <= MAX_CODE_POINT) {
            proof {
                assert(!valid_glyph_range(cfg.glyph_ranges@[i as int]));
            }
            return false;
        }
        i = i + 1;
    }
    true
}

/// Counts the glyphs a configuration's ranges request.
fn glyph_total(ranges: &Vec<GlyphRange>) -> (g: usize)
    requires
        ranges@.len() <= 16,
        forall|i: int| 0 <= i < ranges@.len() ==> #[trigger] valid_glyph_range(ranges@[i]),
    ensures
        g == glyphs_of(ranges@),
        g <= MAX_FONT_GLYPHS,
{
    let n = ranges.len();
    let mut g: usize = 0;
    let mut i: usize = 0;
    while i < n
        invariant
            0 <= i <= n,
            n == ranges@.len() <= 16,
            forall|j: int| 0 <= j < n ==> #[trigger] valid_glyph_range(ranges@[j]),
            g == glyphs_of(ranges@.subrange(0, i as int)),
            g <= i * 0x110000,
        decreases n - i,
    {
        let r = ranges[i];
        proof {
            assert(valid_glyph_range(ranges@[i as int]));
            lemma_glyphs_of_bounds(ranges@.subrange(0, i as int));
            assert(ranges@.subrange(0, i + 1).drop_last() =~= ranges@.subrange(0, i as int));
            assert(ranges@.subrange(0, i + 1).last() == ranges@[i as int]);
            assert(i * 0x110000 + 0x110000 == (i + 1) * 0x110000) by (nonlinear_arith);
            assert(i * 0x110000 <= 15 * 0x110000) by (nonlinear_arith)
                requires
                    i <= 15,
            ;
        }
        g = g + ((r.hi - r.lo + 1) as usize);
        i = i + 1;
    }
    proof {
        assert(ranges@.subrange(0, n as int) =~= ranges@);
        assert(n * 0x110000 <= 16 * 0x110000) by (nonlinear_arith)
            requires
                n <= 16,
        ;
    }
    g
}

/// The font atlas.  Fonts are registered while it is building; the
/// bake fixes the bitmap dimensions; finalization seals it.
#[derive(Debug)]
pub struct FontAtlas {
    /// Registered fonts, in registration order.
    pub fonts: Vec<FontSpec>,
    /// Where the atlas stands in its lifecycle.
    pub state: AtlasState,
    /// Baked bitmap width in pixels; 0 while building.
    pub width: usize,
    /// Baked bitmap height in pixels; 0 while building.
    pub height: usize,
}

impl FontAtlas {
    /// Well-formedness: registered fonts are within bounds, and once
    /// baked the stored dimensions are the packed dimensions.
    pub open spec fn wf(&self) -> bool {
        &&& self.fonts@.len() <= MAX_ATLAS_FONTS
        &&& forall|i: int| 0 <= i < self.fonts@.len() ==> #[trigger] valid_font_spec(self.fonts@[i])
        &&& (self.state is Building ==> self.width == 0 && self.height == 0)
        &&& (!(self.state is Building) ==> {
            &&& self.fonts@.len() >= 1
            &&& self.width == atlas_w(self.fonts@)
            &&& self.height == atlas_h(self.fonts@)
        })
    }

    /// A fresh atlas: building, no fonts yet.
    pub fn new() -> (r: FontAtlas)
        ensures
            r.wf(),
            r.state is Building,
            r.fonts@.len() == 0,
    {
        FontAtlas { fonts: Vec::new(), state: AtlasState::Building, width: 0, height: 0 }
    }

    /// Registers a font described by `cfg`.  Succeeds exactly when the
    /// atlas is still building, has room, and the configuration is
    /// within the rasterizer's bounds; the result is the font's index
    /// in registration order.
    pub fn add_font_with_config(&mut self, cfg: &FontConfig) -> (r: Result<usize, AtlasError>)
        requires
            old(self).wf(),
        ensures
            final(self).wf(),
            final(self).state == old(self).state,
            r is Ok <==> (old(self).state is Building && old(self).fonts@.len() < MAX_ATLAS_FONTS
                && valid_font_config(*cfg)),
            r matches Ok(i) ==> i == old(self).fonts@.len() && final(self).fonts@ == old(
                self,
            ).fonts@.push(
                FontSpec {
                    size: cfg.size,
                    oversample_h: cfg.oversample_h,
                    oversample_v: cfg.oversample_v,
                    glyphs: glyphs_of(cfg.glyph_ranges@) as usize,
                },
            ),
            r is Err ==> final(self).fonts@ == old(self).fonts@ && final(self).width == old(
                self,
            ).width && final(self).height == old(self).height,
            r matches Err(AtlasError::Sealed) <==> !(old(self).state is Building),
            r matches Err(AtlasError::Full) <==> (old(self).state is Building && old(
                self,
            ).fonts@.len() >= MAX_ATLAS_FONTS),
            r matches Err(AtlasError::InvalidConfig) <==> (old(self).state is Building && old(
                self,
            ).fonts@.len() < MAX_ATLAS_FONTS && !valid_font_config(*cfg)),
    {
        match self.state {
            AtlasState::Building => {},
            _ => { return Err(AtlasError::Sealed) },
        }
        if self.fonts.len() >= MAX_ATLAS_FONTS {
            return Err(AtlasError::Full);
        }
        if !font_config_valid(cfg) {
            return Err(AtlasError::InvalidConfig);
        }
        let glyphs = glyph_total(&cfg.glyph_ranges);
        proof {
            lemma_glyphs_of_bounds(cfg.glyph_ranges@);
        }
        let index = self.fonts.len();
        self.fonts.push(
            FontSpec {
                size: cfg.size,
                oversample_h: cfg.oversample_h,
                oversample_v: cfg.oversample_v,
                glyphs,
            },
        );
        Ok(index)
    }

    /// Looks a registered font up by index.
    pub fn font_handle(&self, index: usize) -> (r: Option<FontHandle>)
        ensures
            r is Some <==> index < self.fonts@.len(),
            r matches Some(h) ==> h.index == index && h.height == self.fonts@[index as int].size,
    {
        if index < self.fonts.len() {
            Some(FontHandle { index, height: self.fonts[index].size })
        } else {
            None
        }
    }

    /// Bakes every registered font into one bitmap.  The returned
    /// triple is the bitmap bytes, its width and its height; the bitmap
    /// is a solid opaque placeholder of exactly the packed dimensions,
    /// so it is never empty.
    pub fn bake(&mut self, format: FontAtlasFormat) -> (r: (Vec<u8>, usize, usize))
        requires
            old(self).wf(),
            old(self).state is Building,
            old(self).fonts@.len() >= 1,
        ensures
            final(self).wf(),
            final(self).state is Baked,
            final(self).fonts@ == old(self).fonts@,
            final(self).width == atlas_w(old(self).fonts@),
            final(self).height == atlas_h(old(self).fonts@),
            r.1 == final(self).width,
            r.2 == final(self).height,
            GRID_COLS <= r.1 <= MAX_ATLAS_SIDE,
            1 <= r.2 <= MAX_ATLAS_SIDE,
            r.0@.len() == bytes_per_pixel(format) * r.1 * r.2,
            r.0@.len() >= 1,
            forall|i: int| 0 <= i < r.0@.len() ==> #[trigger] r.0@[i] == 255,
    {
        let n = self.fonts.len();
        let mut w: usize = 0;
        let mut h: usize = 0;
        let mut i: usize = 0;
        while i < n
            invariant
                0 <= i <= n,
                n == self.fonts@.len(),
                forall|j: int| 0 <= j < n ==> #[trigger] valid_font_spec(self.fonts@[j]),
                w == atlas_w(self.fonts@.subrange(0, i as int)),
                h == atlas_h(self.fonts@.subrange(0, i as int)),
                w <= MAX_ATLAS_SIDE,
                h <= MAX_ATLAS_SIDE,
            decreases n - i,
        {
            let f = self.fonts[i];
            proof {
                assert(valid_font_spec(self.fonts@[i as int]));
                lemma_font_block_bounds(f);
                assert(self.fonts@.subrange(0, i + 1).drop_last() =~= self.fonts@.subrange(
                    0,
                    i as int,
                ));
                assert(self.fonts@.subrange(0, i + 1).last() == self.fonts@[i as int]);
            }
            let cw: usize = (f.size as usize) * (f.oversample_h as usize);
            let ch: usize = (f.size as usize) * (f.oversample_v as usize);
            let rows: usize = (f.glyphs + (GRID_COLS - 1)) / GRID_COLS;
            let bw_raw: usize = GRID_COLS * cw;
            let bw: usize = if bw_raw > MAX_ATLAS_SIDE {
                MAX_ATLAS_SIDE
            } else {
                bw_raw
            };
            let bh: usize = rows * ch;
            if bw > w {
                w = bw;
            }
            h = if h + bh > MAX_ATLAS_SIDE {
                MAX_ATLAS_SIDE
            } else {
                h + bh
            };
            i = i + 1;
        }
        proof {
            assert(self.fonts@.subrange(0, n as int) =~= self.fonts@);
            lemma_atlas_dims(self.fonts@);
        }
        let bpp: usize = match format {
            FontAtlasFormat::Alpha8 => 1,
            FontAtlasFormat::Rgba32 => 4,
        };
        proof {
            assert(bpp * w >= 1 && bpp * w <= 4 * 4096) by (nonlinear_arith)
                requires
                    1 <= bpp <= 4,
                    1 <= w <= 4096,
            ;
            assert((bpp * w) * h >= 1 && (bpp * w) * h <= 4 * 4096 * 4096) by (nonlinear_arith)
                requires
                    1 <= bpp * w <= 4 * 4096,
                    1 <= h <= 4096,
            ;
        }
        let total: usize = bpp * w * h;
        let mut bitmap: Vec<u8> = Vec::new();
        let mut j: usize = 0;
        while j < total
            invariant
                0 <= j <= total,
                bitmap@.len() == j,
                forall|k: int| 0 <= k < j ==> #[trigger] bitmap@[k] == 255,
            decreases total - j,
        {
            bitmap.push(255);
            j = j + 1;
        }
        self.state = AtlasState::Baked;
        self.width = w;
        self.height = h;
        (bitmap, w, h)
    }

    /// Finalizes the baked atlas: records nothing further, seals the
    /// lifecycle, and fills the null-texture sentinel with the texture
    /// the renderer created for the baked bitmap.
    pub fn end(&mut self, texture: TextureHandle, null: &mut DrawNullTexture)
        requires
            old(self).wf(),
            old(self).state is Baked,
            texture.is_valid(),
        ensures
            final(self).wf(),
            final(self).state is Finalized,
            final(self).fonts@ == old(self).fonts@,
            final(self).width == old(self).width,
            final(self).height == old(self).height,
            final(null).texture == texture,
            final(null).texture.is_valid(),
    {
        self.state = AtlasState::Finalized;
        null.texture = texture;
    }
}

/// Registers a font at the given size: fixes the configuration's size
/// and ownership flag, then hands it to the atlas.  Succeeds exactly
/// when the atlas still accepts the adjusted configuration.
pub fn set_font(cfg: &mut FontConfig, atlas: &mut FontAtlas, size: u32, owned_by_atlas: bool) -> (r:
    Result<usize, AtlasError>)
    requires
        old(atlas).wf(),
    ensures
        final(atlas).wf(),
        final(atlas).state == old(atlas).state,
        final(cfg).size == size,
        final(cfg).ttf_owned_by_atlas == owned_by_atlas,
        final(cfg).oversample_h == old(cfg).oversample_h,
        final(cfg).oversample_v == old(cfg).oversample_v,
        final(cfg).glyph_ranges@ == old(cfg).glyph_ranges@,
        final(cfg).ttf@ == old(cfg).ttf@,
        r is Ok <==> (old(atlas).state is Building && old(atlas).fonts@.len() < MAX_ATLAS_FONTS
            && valid_font_config(*final(cfg))),
        r matches Ok(i) ==> i == old(atlas).fonts@.len() && final(atlas).fonts@ == old(
            atlas,
        ).fonts@.push(
            FontSpec {
                size,
                oversample_h: old(cfg).oversample_h,
                oversample_v: old(cfg).oversample_v,
                glyphs: glyphs_of(old(cfg).glyph_ranges@) as usize,
            },
        ),
        r is Err ==> final(atlas).fonts@ == old(atlas).fonts@,
        r matches Err(AtlasError::Sealed) <==> !(old(atlas).state is Building),
        r matches Err(AtlasError::Full) <==> (old(atlas).state is Building && old(
            atlas,
        ).fonts@.len() >= MAX_ATLAS_FONTS),
        r matches Err(AtlasError::InvalidConfig) <==> (old(atlas).state is Building && old(
            atlas,
        ).fonts@.len() < MAX_ATLAS_FONTS && !valid_font_config(*final(cfg))),
{
    cfg.ttf_owned_by_atlas = owned_by_atlas;
    cfg.size = size;
    atlas.add_font_with_config(cfg)
}

} // verus!
