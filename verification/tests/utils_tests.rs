use amberol::utils::{
    color_format, load_palette, palette_from_result, palette_within_limits, schema_id, PixelFormat,
    MAX_PALETTE_SAMPLES,
};

#[test]
fn schema_id_strips_devel_suffix() {
    assert_eq!(schema_id("io.bassi.Amberol.Devel"), "io.bassi.Amberol");
    assert_eq!(schema_id("io.bassi.Amberol"), "io.bassi.Amberol");
    assert_eq!(schema_id("io.bassi.Amberol.Devel.Devel"), "io.bassi.Amberol");
    assert_eq!(schema_id(".Devel"), "");
    assert_eq!(schema_id("Devel"), "Devel");
    assert_eq!(schema_id("a.Devel.b"), "a.Devel.b");
}

#[test]
fn schema_id_matches_std_trim() {
    for id in ["x.Devel", "x.Devel.Devel", "ü.Devel", "x.devel", "", "x.Deve"] {
        assert_eq!(schema_id(id), id.trim_end_matches(".Devel"));
    }
}

#[test]
fn color_formats() {
    assert_eq!(color_format(true), PixelFormat::Rgba);
    assert_eq!(color_format(false), PixelFormat::Rgb);
}

fn solid_image(r: u8, g: u8, b: u8, alpha: bool, pixels: usize) -> Vec<u8> {
    let mut data = Vec::new();
    for _ in 0..pixels {
        data.push(r);
        data.push(g);
        data.push(b);
        if alpha {
            data.push(255);
        }
    }
    data
}

fn expected_palette(pixels: &[u8], format: color_thief::ColorFormat) -> Option<Vec<(u8, u8, u8)>> {
    color_thief::get_palette(pixels, format, 5, 4)
        .ok()
        .map(|colors| colors.iter().map(|c| (c.r, c.g, c.b)).collect())
}

#[test]
fn palette_of_solid_image() {
    let pixels = solid_image(200, 30, 40, false, 400);
    let palette = load_palette(&pixels, false);
    assert_eq!(palette, expected_palette(&pixels, color_thief::ColorFormat::Rgb));
    let palette = palette.unwrap();
    assert!(!palette.is_empty() && palette.len() <= 4);
    let (r, g, b) = palette[0];
    assert!(r > 150 && g < 80 && b < 80);
}

#[test]
fn palette_with_alpha() {
    let mut pixels = solid_image(20, 40, 220, true, 200);
    pixels.extend(solid_image(230, 200, 10, true, 200));
    let palette = load_palette(&pixels, true);
    assert_eq!(palette, expected_palette(&pixels, color_thief::ColorFormat::Rgba));
    assert!(palette.unwrap().len() <= 4);
}

#[test]
fn palette_errors_become_none() {
    assert_eq!(palette_from_result(Err(color_thief::Error::InvalidVBox)), None);
    assert_eq!(palette_from_result(Err(color_thief::Error::VBoxCutFailed)), None);
    assert_eq!(palette_from_result(Ok(vec![(1, 2, 3)])), Some(vec![(1, 2, 3)]));
}

#[test]
fn schema_id_is_idempotent() {
    for id in ["io.bassi.Amberol.Devel.Devel", "a.Devel", "plain"] {
        let once = schema_id(id);
        assert_eq!(schema_id(&once), once);
    }
}

#[test]
fn format_time_from_utils() {
    assert_eq!(amberol::utils::format_time(125, 250), "2:05 / 4:10");
}

#[test]
fn palette_size_limits() {
    let max = MAX_PALETTE_SAMPLES as usize;
    // Red, green, blue: one pixel in fifteen is sampled.
    assert!(palette_within_limits(3 * 15 * max, false));
    assert!(!palette_within_limits(3 * 15 * max + 3, false));
    // With alpha: one pixel in twenty is sampled.
    assert!(palette_within_limits(4 * 20 * max, true));
    assert!(!palette_within_limits(4 * 20 * max + 4, true));
    assert!(palette_within_limits(256 * 256 * 4, true));
    assert!(palette_within_limits(0, false));
    assert_eq!(MAX_PALETTE_SAMPLES, ((i32::MAX as u64) / 252));
}
