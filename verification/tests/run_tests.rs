use ascii_art::compositor::{Compositor, Glyph, Phase, TickOutcome, MAX_FONT_SIZE, MIN_FONT_SIZE};
use ascii_art::config::ResizeTarget;
use ascii_art::palette::GlyphPalette;
use ascii_art::sampler::{CanvasDimensions, CanvasPoint};
use ascii_art::exporter::{
    export_canvas, export_jpeg, export_png, format_for_extension, ExportError, OutputFormat,
};
use ascii_art::render::stamp_glyph;
use ascii_art::source::{
    blank_raster, load_from_bytes, ColorMode, LoadError, PixelColor, PixelData, SampleError,
    SourceImage,
};

fn gray_image(width: u32, height: u32) -> SourceImage {
    let n = (width * height) as usize;
    let data: Vec<u8> = (0..n).map(|i| (i % 251) as u8).collect();
    SourceImage {
        width,
        height,
        pixels: PixelData::Gray(data),
    }
}

#[test]
fn color_lookup_is_exact() {
    let img = SourceImage {
        width: 2,
        height: 2,
        pixels: PixelData::Gray(vec![1, 2, 3, 4]),
    };
    assert_eq!(img.color_at(0, 0), Ok(PixelColor::Gray(1)));
    assert_eq!(img.color_at(1, 0), Ok(PixelColor::Gray(2)));
    assert_eq!(img.color_at(0, 1), Ok(PixelColor::Gray(3)));
    assert_eq!(img.color_at(1, 1), Ok(PixelColor::Gray(4)));
    assert_eq!(img.color_at(2, 0), Err(SampleError::OutOfBounds));
    assert_eq!(img.color_at(0, 2), Err(SampleError::OutOfBounds));

    let rgb = SourceImage {
        width: 2,
        height: 1,
        pixels: PixelData::Rgb(vec![1, 2, 3, 4, 5, 6]),
    };
    assert_eq!(rgb.color_at(0, 0), Ok(PixelColor::Rgb(1, 2, 3)));
    assert_eq!(rgb.color_at(1, 0), Ok(PixelColor::Rgb(4, 5, 6)));
}

#[test]
fn blank_raster_is_white() {
    let dims = CanvasDimensions {
        width: 100,
        height: 50,
    };
    let blank = blank_raster(&dims, ColorMode::Grayscale);
    assert_eq!(blank.width, 100);
    assert_eq!(blank.height, 50);
    for &(x, y) in &[(0, 0), (99, 0), (0, 49), (99, 49), (42, 17)] {
        assert_eq!(blank.color_at(x, y), Ok(PixelColor::Gray(255)));
    }
    let color_blank = blank_raster(&dims, ColorMode::Color);
    assert_eq!(
        color_blank.color_at(5, 5),
        Ok(PixelColor::Rgb(255, 255, 255))
    );
}

#[test]
fn export_produces_png_bytes() {
    let img = gray_image(8, 4);
    let bytes = export_png(&img);
    // The PNG signature: anything else would mean the raster was not encoded.
    assert_eq!(&bytes[0..8], &[137u8, 80, 78, 71, 13, 10, 26, 10]);
    assert_ne!(bytes.len(), 8 * 4);
}

#[test]
fn export_and_reload_keep_dimensions() {
    let img = gray_image(100, 50);
    let bytes = export_png(&img);
    let back = load_from_bytes(&bytes, ColorMode::Grayscale, ResizeTarget::Height(50))
        .expect("reloading exported bytes");
    assert_eq!(back.width, img.width);
    assert_eq!(back.height, img.height);
}

#[test]
fn export_and_reload_keep_samples() {
    let img = gray_image(16, 16);
    let bytes = export_png(&img);
    let back = load_from_bytes(&bytes, ColorMode::Grayscale, ResizeTarget::Height(16))
        .expect("reloading exported bytes");
    for y in 0..16 {
        for x in 0..16 {
            assert_eq!(back.color_at(x, y), img.color_at(x, y));
        }
    }
}

#[test]
fn reload_in_color_mode_gives_rgb() {
    let img = gray_image(10, 10);
    let bytes = export_png(&img);
    let back = load_from_bytes(&bytes, ColorMode::Color, ResizeTarget::Height(10))
        .expect("reloading exported bytes");
    assert!(matches!(back.color_at(0, 0), Ok(PixelColor::Rgb(_, _, _))));
}

#[test]
fn load_resizes_preserving_aspect_ratio() {
    let img = gray_image(100, 50);
    let bytes = export_png(&img);
    let half = load_from_bytes(&bytes, ColorMode::Grayscale, ResizeTarget::Height(25))
        .expect("reloading exported bytes");
    assert_eq!((half.width, half.height), (50, 25));
    let narrow = load_from_bytes(&bytes, ColorMode::Grayscale, ResizeTarget::Width(20))
        .expect("reloading exported bytes");
    assert_eq!((narrow.width, narrow.height), (20, 10));
}

#[test]
fn oversized_resize_target_is_rejected() {
    let img = gray_image(100, 50);
    let bytes = export_png(&img);
    let r = load_from_bytes(&bytes, ColorMode::Grayscale, ResizeTarget::Height(u32::MAX));
    assert!(matches!(r, Err(LoadError::TooLarge)));
}

#[test]
fn undecodable_bytes_are_rejected() {
    let garbage = vec![1u8, 2, 3, 4, 5];
    let r = load_from_bytes(&garbage, ColorMode::Grayscale, ResizeTarget::Height(10));
    assert!(matches!(r, Err(LoadError::Undecodable)));
}

fn check_drawn_glyph(g: &Glyph, source: &SourceImage, palette_len: usize) {
    let w = source.width;
    let h = source.height;
    let half_w = (w / 2) as i64;
    let half_h = (h / 2) as i64;
    assert!(-half_w <= g.position.x && g.position.x < w as i64 - half_w);
    assert!(-half_h <= g.position.y && g.position.y < h as i64 - half_h);
    assert!(MIN_FONT_SIZE <= g.size && g.size < MAX_FONT_SIZE);
    assert!(palette_len > 0);
    let ix = (g.position.x + half_w) as u32;
    let iy = (g.position.y + half_h) as u32;
    assert_eq!(Ok(g.color), source.color_at(ix, iy));
}

#[test]
fn grayscale_run_draws_then_captures_then_finishes() {
    // A 100 x 50 grayscale source, three drawing steps, default characters.
    let source = gray_image(100, 50);
    let palette = GlyphPalette::new(None);
    let palette_len = palette.len();
    let mut comp = Compositor::new(source, palette, 3);
    assert_eq!(comp.phase(), Phase::Drawing);

    for expected in 1..=3u64 {
        let outcome = comp.tick();
        match outcome {
            TickOutcome::Drew(g) => check_drawn_glyph(&g, &comp.source, palette_len),
            _ => panic!("expected a drawing tick"),
        }
        assert_eq!(comp.counter, expected);
        assert_eq!(comp.canvas.glyphs.len() as u64, expected);
    }

    assert_eq!(comp.phase(), Phase::Capturing);
    assert!(matches!(comp.tick(), TickOutcome::Capture));
    assert_eq!(comp.canvas.glyphs.len(), 3);

    // The canvas raster is the same size as the source; its export reloads
    // with identical dimensions.
    let dims = CanvasDimensions {
        width: comp.canvas.dims.width,
        height: comp.canvas.dims.height,
    };
    let raster = blank_raster(&dims, ColorMode::Grayscale);
    let bytes = export_png(&raster);
    let back = load_from_bytes(&bytes, ColorMode::Grayscale, ResizeTarget::Height(dims.height))
        .expect("reloading the exported canvas");
    assert_eq!((back.width, back.height), (100, 50));

    assert_eq!(comp.phase(), Phase::Finished);
    assert!(matches!(comp.tick(), TickOutcome::Done));
    assert_eq!(comp.canvas.glyphs.len(), 3);
}

#[test]
fn zero_steps_captures_immediately() {
    let source = gray_image(10, 10);
    let palette = GlyphPalette::new(None);
    let mut comp = Compositor::new(source, palette, 0);
    assert_eq!(comp.phase(), Phase::Capturing);
    assert!(matches!(comp.tick(), TickOutcome::Capture));
    assert_eq!(comp.canvas.glyphs.len(), 0);

    // The exported image is the blank initial canvas: all white.
    let dims = CanvasDimensions {
        width: 10,
        height: 10,
    };
    let raster = blank_raster(&dims, ColorMode::Grayscale);
    let bytes = export_png(&raster);
    let back = load_from_bytes(&bytes, ColorMode::Grayscale, ResizeTarget::Height(10))
        .expect("reloading the blank canvas");
    for y in 0..10 {
        for x in 0..10 {
            assert_eq!(back.color_at(x, y), Ok(PixelColor::Gray(255)));
        }
    }

    assert!(matches!(comp.tick(), TickOutcome::Done));
}

#[test]
fn every_run_captures_once_and_finishes_once() {
    for steps in [0u64, 1, 2, 5, 17] {
        let source = gray_image(7, 9);
        let palette = GlyphPalette::new(Some(vec!['#']));
        let mut comp = Compositor::new(source, palette, steps);
        let mut drew: u64 = 0;
        let mut captures: u64 = 0;
        let mut dones: u64 = 0;
        for _ in 0..steps + 2 {
            match comp.tick() {
                TickOutcome::Drew(g) => {
                    drew += 1;
                    assert_eq!(g.ch, '#');
                }
                TickOutcome::Capture => captures += 1,
                TickOutcome::Done => dones += 1,
            }
        }
        assert_eq!(drew, steps);
        assert_eq!(captures, 1);
        assert_eq!(dones, 1);
        assert_eq!(comp.canvas.glyphs.len() as u64, steps);
    }
}

#[test]
fn color_run_samples_rgb() {
    let source = SourceImage {
        width: 2,
        height: 2,
        pixels: PixelData::Rgb(vec![10, 20, 30, 40, 50, 60, 70, 80, 90, 100, 110, 120]),
    };
    let palette = GlyphPalette::new(None);
    let mut comp = Compositor::new(source, palette, 20);
    for _ in 0..20 {
        match comp.tick() {
            TickOutcome::Drew(g) => match g.color {
                PixelColor::Rgb(r, _, _) => assert!(r == 10 || r == 40 || r == 70 || r == 100),
                PixelColor::Gray(_) => panic!("a color run sampled a gray pixel"),
            },
            _ => panic!("expected a drawing tick"),
        }
    }
}

#[test]
fn draw_position_flips_the_vertical_axis() {
    let g = Glyph {
        position: CanvasPoint { x: 3, y: -4 },
        ch: 'a',
        size: 12,
        color: PixelColor::Gray(0),
    };
    assert_eq!(g.draw_position(), (3, 4));
}

#[test]
fn output_format_follows_the_extension() {
    let ext = |s: &str| -> Vec<char> { s.chars().collect() };
    assert_eq!(format_for_extension(&ext("png")), Ok(OutputFormat::Png));
    assert_eq!(format_for_extension(&ext("PNG")), Ok(OutputFormat::Png));
    assert_eq!(format_for_extension(&ext("jpg")), Ok(OutputFormat::Jpeg));
    assert_eq!(format_for_extension(&ext("JPeG")), Ok(OutputFormat::Jpeg));
    assert_eq!(
        format_for_extension(&ext("bmp")),
        Err(ExportError::UnsupportedFormat)
    );
    assert_eq!(
        format_for_extension(&ext("")),
        Err(ExportError::UnsupportedFormat)
    );
    assert_eq!(
        format_for_extension(&ext("pngx")),
        Err(ExportError::UnsupportedFormat)
    );
}

#[test]
fn jpeg_export_reloads_with_same_dimensions() {
    let img = gray_image(24, 12);
    let bytes = export_jpeg(&img).expect("a small raster fits the JPEG limits");
    let back = load_from_bytes(&bytes, ColorMode::Grayscale, ResizeTarget::Height(12))
        .expect("reloading exported JPEG bytes");
    assert_eq!((back.width, back.height), (24, 12));
}

#[test]
fn export_canvas_dispatches_on_format() {
    let img = gray_image(8, 8);
    let png = export_canvas(&img, OutputFormat::Png).expect("PNG always encodes");
    assert_eq!(&png[0..8], &[137u8, 80, 78, 71, 13, 10, 26, 10]);
    let jpeg = export_canvas(&img, OutputFormat::Jpeg).expect("small JPEG encodes");
    assert_eq!(&jpeg[0..2], &[0xFF, 0xD8]);
}

#[test]
fn stamping_covers_the_block_and_nothing_else() {
    let dims = CanvasDimensions {
        width: 9,
        height: 9,
    };
    let mut canvas = blank_raster(&dims, ColorMode::Grayscale);
    let glyph = Glyph {
        // Canvas center: image-space (4, 4) with half-width 12 / 2 / 2 = ...
        position: CanvasPoint { x: 0, y: 0 },
        ch: '#',
        size: 4,
        color: PixelColor::Gray(7),
    };
    stamp_glyph(&mut canvas, &glyph);
    // size 4 gives half 2: rows and columns 2..=6 around center (4, 4).
    for y in 0..9u32 {
        for x in 0..9u32 {
            let expected = if (2..=6).contains(&x) && (2..=6).contains(&y) {
                PixelColor::Gray(7)
            } else {
                PixelColor::Gray(255)
            };
            assert_eq!(canvas.color_at(x, y), Ok(expected));
        }
    }
}

#[test]
fn stamping_clips_at_the_canvas_edge() {
    let dims = CanvasDimensions {
        width: 5,
        height: 5,
    };
    let mut canvas = blank_raster(&dims, ColorMode::Color);
    let glyph = Glyph {
        // Image-space center (0, 0): most of the block falls off the grid.
        position: CanvasPoint { x: -2, y: -2 },
        ch: '#',
        size: 10,
        color: PixelColor::Rgb(1, 2, 3),
    };
    stamp_glyph(&mut canvas, &glyph);
    // half 5: columns/rows 0..=5 clipped to 0..=4 — everything is covered
    // except nothing; cells up to (4, 4) within distance 5 of (0, 0).
    assert_eq!(canvas.color_at(0, 0), Ok(PixelColor::Rgb(1, 2, 3)));
    assert_eq!(canvas.color_at(4, 4), Ok(PixelColor::Rgb(1, 2, 3)));
}

#[test]
fn ticks_after_the_run_are_idempotent_no_ops() {
    let source = gray_image(6, 6);
    let palette = GlyphPalette::new(None);
    let mut comp = Compositor::new(source, palette, 2);
    for _ in 0..4 {
        comp.tick();
    }
    assert_eq!(comp.counter, 4);
    assert_eq!(comp.phase(), Phase::Finished);
    let glyphs_before = comp.canvas.glyphs.len();
    for _ in 0..3 {
        assert!(matches!(comp.tick(), TickOutcome::Done));
        assert_eq!(comp.counter, 4);
        assert_eq!(comp.canvas.glyphs.len(), glyphs_before);
    }
}
