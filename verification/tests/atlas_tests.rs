use nuklear_demo::atlas::AtlasError;
use nuklear_demo::atlas::AtlasState;
use nuklear_demo::atlas::FontAtlas;
use nuklear_demo::atlas::FontAtlasFormat;
use nuklear_demo::atlas::set_font;
use nuklear_demo::config::DrawNullTexture;
use nuklear_demo::config::TextureHandle;
use nuklear_demo::config::font_config_setup;

// One font at size 14 with 3x2 oversampling requests 656 glyphs
// (224 Latin, 304 + 32 + 96 Cyrillic) in 42x28 cells: 21 rows of 32
// cells, a 1344x588 bitmap.
#[test]
fn bake_one_font_size_14_gives_nonempty_rgba_bitmap() {
    let mut cfg = font_config_setup(vec![1u8; 8]);
    let mut atlas = FontAtlas::new();
    let font_14 = set_font(&mut cfg, &mut atlas, 14, false).unwrap();
    assert_eq!(font_14, 0);
    let (bitmap, w, h) = atlas.bake(FontAtlasFormat::Rgba32);
    assert!(!bitmap.is_empty());
    assert_eq!(w, 1344);
    assert_eq!(h, 588);
    assert_eq!(bitmap.len(), 4 * w * h);
    assert_eq!(atlas.state, AtlasState::Baked);
}

#[test]
fn bake_alpha8_gives_one_byte_per_pixel() {
    let mut cfg = font_config_setup(vec![1u8; 8]);
    let mut atlas = FontAtlas::new();
    set_font(&mut cfg, &mut atlas, 14, false).unwrap();
    let (bitmap, w, h) = atlas.bake(FontAtlasFormat::Alpha8);
    assert_eq!(bitmap.len(), w * h);
}

#[test]
fn finalize_fills_null_texture_with_valid_handle() {
    let mut cfg = font_config_setup(vec![1u8; 8]);
    let mut atlas = FontAtlas::new();
    set_font(&mut cfg, &mut atlas, 14, false).unwrap();
    let _ = atlas.bake(FontAtlasFormat::Rgba32);
    let mut null = DrawNullTexture::default();
    atlas.end(TextureHandle { id: 1 }, &mut null);
    assert_eq!(null.texture.id, 1);
    assert_eq!(atlas.state, AtlasState::Finalized);
}

#[test]
fn set_font_updates_config_and_registers() {
    let mut cfg = font_config_setup(vec![1u8; 8]);
    let mut atlas = FontAtlas::new();
    let r = set_font(&mut cfg, &mut atlas, 14, true);
    assert_eq!(r, Ok(0));
    assert_eq!(cfg.size, 14);
    assert!(cfg.ttf_owned_by_atlas);
    assert_eq!(atlas.fonts.len(), 1);
    assert_eq!(atlas.fonts[0].size, 14);
    assert_eq!(atlas.fonts[0].oversample_h, 3);
    assert_eq!(atlas.fonts[0].oversample_v, 2);
    assert_eq!(atlas.fonts[0].glyphs, 656);
}

#[test]
fn size_zero_font_is_rejected() {
    let mut cfg = font_config_setup(vec![1u8; 8]);
    let mut atlas = FontAtlas::new();
    let r = set_font(&mut cfg, &mut atlas, 0, false);
    assert_eq!(r, Err(AtlasError::InvalidConfig));
    assert_eq!(atlas.fonts.len(), 0);
}

#[test]
fn empty_font_file_is_rejected() {
    let mut cfg = font_config_setup(Vec::new());
    let mut atlas = FontAtlas::new();
    let r = set_font(&mut cfg, &mut atlas, 14, false);
    assert_eq!(r, Err(AtlasError::InvalidConfig));
}

#[test]
fn registration_after_bake_is_rejected() {
    let mut cfg = font_config_setup(vec![1u8; 8]);
    let mut atlas = FontAtlas::new();
    set_font(&mut cfg, &mut atlas, 14, false).unwrap();
    let _ = atlas.bake(FontAtlasFormat::Rgba32);
    let r = set_font(&mut cfg, &mut atlas, 20, false);
    assert_eq!(r, Err(AtlasError::Sealed));
}

#[test]
fn full_atlas_rejects_the_65th_font() {
    let mut cfg = font_config_setup(vec![1u8; 8]);
    let mut atlas = FontAtlas::new();
    for i in 0..64 {
        let r = set_font(&mut cfg, &mut atlas, 14, false);
        assert_eq!(r, Ok(i));
    }
    let r = set_font(&mut cfg, &mut atlas, 14, false);
    assert_eq!(r, Err(AtlasError::Full));
    assert_eq!(atlas.fonts.len(), 64);
}

#[test]
fn font_handle_exists_exactly_for_registered_fonts() {
    let mut cfg = font_config_setup(vec![1u8; 8]);
    let mut atlas = FontAtlas::new();
    let idx = set_font(&mut cfg, &mut atlas, 14, false).unwrap();
    let h = atlas.font_handle(idx).unwrap();
    assert_eq!(h.index, 0);
    assert_eq!(h.height, 14);
    assert!(atlas.font_handle(1).is_none());
}
