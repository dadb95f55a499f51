use nuklear_demo::config::AntiAliasing;
use nuklear_demo::config::DrawNullTexture;
use nuklear_demo::config::TextureHandle;
use nuklear_demo::config::base_window_config;
use nuklear_demo::config::convert_config_setup;
use nuklear_demo::config::font_config_setup;
use nuklear_demo::config::font_cyrillic_glyph_ranges;

#[test]
fn cyrillic_ranges_cover_latin_and_cyrillic_blocks() {
    let r = font_cyrillic_glyph_ranges();
    assert_eq!(r.len(), 4);
    assert_eq!((r[0].lo, r[0].hi), (0x0020, 0x00FF));
    assert_eq!((r[1].lo, r[1].hi), (0x0400, 0x052F));
    assert_eq!((r[2].lo, r[2].hi), (0x2DE0, 0x2DFF));
    assert_eq!((r[3].lo, r[3].hi), (0xA640, 0xA69F));
}

#[test]
fn font_config_has_three_by_two_oversampling() {
    let cfg = font_config_setup(vec![7u8; 16]);
    assert_eq!(cfg.size, 0);
    assert_eq!(cfg.oversample_h, 3);
    assert_eq!(cfg.oversample_v, 2);
    assert_eq!(cfg.glyph_ranges.len(), 4);
    assert_eq!(cfg.ttf.len(), 16);
    assert!(!cfg.ttf_owned_by_atlas);
}

#[test]
fn convert_config_uses_22_segments_full_alpha_aa_on() {
    let null = DrawNullTexture { texture: TextureHandle { id: 5 } };
    let cfg = convert_config_setup(&null);
    assert_eq!(cfg.null, null);
    assert_eq!(cfg.circle_segment_count, 22);
    assert_eq!(cfg.curve_segment_count, 22);
    assert_eq!(cfg.arc_segment_count, 22);
    assert_eq!(cfg.global_alpha_permille, 1000);
    assert_eq!(cfg.shape_aa, AntiAliasing::On);
    assert_eq!(cfg.line_aa, AntiAliasing::On);
}

#[test]
fn window_config_requests_1280_by_800_with_vsync() {
    let w = base_window_config();
    assert_eq!(w.title, "Nuklear Rust Gfx OpenGL Demo");
    assert_eq!(w.width, 1280);
    assert_eq!(w.height, 800);
    assert!(w.vsync);
    assert!(!w.srgb);
    assert_eq!(w.depth_bits, 24);
    assert_eq!(w.gl.opengl_major, 3);
    assert_eq!(w.gl.opengl_minor, 3);
    assert_eq!(w.gl.opengles_major, 2);
    assert_eq!(w.gl.opengles_minor, 0);
}

#[test]
fn default_null_texture_is_unassigned() {
    let null = DrawNullTexture::default();
    assert_eq!(null.texture.id, 0);
}
