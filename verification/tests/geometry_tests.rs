use ascii_art::config::{resolve_target, ConfigError, ResizeTarget, DEFAULT_HEIGHT};
use ascii_art::palette::GlyphPalette;
use ascii_art::sampler::{random_canvas_point, to_image_coords, CanvasDimensions, CanvasPoint};
use ascii_art::scale::fit_dimensions;

#[test]
fn conflicting_dimensions_rejected() {
    assert_eq!(
        resolve_target(Some(10), Some(20)),
        Err(ConfigError::ConflictingDimensions)
    );
}

#[test]
fn single_dimension_accepted() {
    assert_eq!(resolve_target(Some(640), None), Ok(ResizeTarget::Width(640)));
    assert_eq!(resolve_target(None, Some(480)), Ok(ResizeTarget::Height(480)));
}

#[test]
fn default_height_applies() {
    assert_eq!(DEFAULT_HEIGHT, 1000);
    assert_eq!(
        resolve_target(None, None),
        Ok(ResizeTarget::Height(DEFAULT_HEIGHT))
    );
}

#[test]
fn fit_keeps_exact_ratios() {
    assert_eq!(fit_dimensions(100, 50, ResizeTarget::Height(50)), (100, 50));
    assert_eq!(fit_dimensions(200, 100, ResizeTarget::Height(50)), (100, 50));
    assert_eq!(fit_dimensions(100, 50, ResizeTarget::Width(50)), (50, 25));
    assert_eq!(fit_dimensions(1920, 1080, ResizeTarget::Height(540)), (960, 540));
}

#[test]
fn fit_rounds_to_nearest() {
    // 643 * 200 / 400 = 321.5, which rounds up.
    assert_eq!(fit_dimensions(643, 400, ResizeTarget::Height(200)), (322, 200));
    // 30 * 50 / 100 = 15 exactly.
    assert_eq!(fit_dimensions(100, 30, ResizeTarget::Width(50)), (50, 15));
    // 100 * 1 / 3 = 33.33..., which rounds down.
    assert_eq!(fit_dimensions(100, 3, ResizeTarget::Height(1)), (33, 1));
}

#[test]
fn fit_clamps_to_at_least_one_pixel() {
    assert_eq!(fit_dimensions(1, 1000, ResizeTarget::Height(1)), (1, 1));
    assert_eq!(fit_dimensions(1000, 1, ResizeTarget::Width(1)), (1, 1));
    assert_eq!(fit_dimensions(5, 5, ResizeTarget::Height(0)), (1, 1));
}

#[test]
fn default_palette_when_unconfigured() {
    let p = GlyphPalette::new(None);
    assert_eq!(p.len(), 94);
    assert_eq!(p.char_at(0), '!');
    assert_eq!(p.char_at(93), '~');
    for i in 0..94 {
        assert_eq!(p.char_at(i) as u32, 33 + i as u32);
    }
}

#[test]
fn empty_palette_falls_back_to_default() {
    let p = GlyphPalette::new(Some(Vec::new()));
    assert_eq!(p.len(), 94);
    assert_eq!(p.char_at(0), '!');
    assert_eq!(p.char_at(93), '~');
}

#[test]
fn configured_palette_kept_in_order() {
    let p = GlyphPalette::new(Some(vec!['a', 'b', 'c']));
    assert_eq!(p.len(), 3);
    assert_eq!(p.char_at(0), 'a');
    assert_eq!(p.char_at(1), 'b');
    assert_eq!(p.char_at(2), 'c');
}

#[test]
fn random_char_stays_in_configured_set() {
    let p = GlyphPalette::new(Some(vec!['x', 'y']));
    for _ in 0..500 {
        let c = p.random_char();
        assert!(c == 'x' || c == 'y');
    }
}

#[test]
fn random_char_from_default_set_is_visible_ascii() {
    let p = GlyphPalette::new(None);
    for _ in 0..500 {
        let c = p.random_char() as u32;
        assert!((33..=126).contains(&c));
    }
}

#[test]
fn random_points_stay_on_canvas() {
    let cases = [(1u32, 1u32), (1, 5), (2, 2), (3, 3), (7, 9), (100, 50)];
    for (w, h) in cases {
        let dims = CanvasDimensions { width: w, height: h };
        let half_w = (w / 2) as i64;
        let half_h = (h / 2) as i64;
        for _ in 0..1000 {
            let p = random_canvas_point(&dims);
            assert!(-half_w <= p.x && p.x < w as i64 - half_w);
            assert!(-half_h <= p.y && p.y < h as i64 - half_h);
            let (ix, iy) = to_image_coords(p, &dims);
            assert!(ix < w && iy < h);
        }
    }
}

#[test]
fn image_coordinate_conversion_is_exact() {
    let dims = CanvasDimensions { width: 100, height: 50 };
    let center = CanvasPoint { x: 0, y: 0 };
    assert_eq!(to_image_coords(center, &dims), (50, 25));
    let corner = CanvasPoint { x: -50, y: -25 };
    assert_eq!(to_image_coords(corner, &dims), (0, 0));
    let far = CanvasPoint { x: 49, y: 24 };
    assert_eq!(to_image_coords(far, &dims), (99, 49));
}
