//! Small helpers: the settings schema of the application, and the colour
//! palette of a cover image.
use vstd::prelude::*;

pub use crate::time_format::format_time;

verus! {

/// Palette quality passed to the palette extraction: one pixel in five is sampled.
pub const PALETTE_QUALITY: u8 = 5;

/// Number of colours asked of the palette extraction.
pub const PALETTE_COLORS: u8 = 4;

/// The suffix that development builds add to the application id.
pub open spec fn devel_suffix() -> Seq<char> {
    seq!['.', 'D', 'e', 'v', 'e', 'l']
}

/// `s` with every trailing `".Devel"` removed, repeatedly.
pub open spec fn strip_devel(s: Seq<char>) -> Seq<char>
    decreases s.len(),
{
    if s.len() >= 6 && s.subrange(s.len() - 6, s.len() as int) == devel_suffix() {
        strip_devel(s.subrange(0, s.len() - 6))
    } else {
        s
    }
}

/// Whether the first `end` characters of `s` end with `".Devel"`.
fn ends_with_devel(s: &str, end: usize) -> (r: bool)
    requires
        6 <= end <= s@.len(),
    ensures
        r == (s@.subrange(0, end as int).subrange(end - 6, end as int) == devel_suffix()),
{
    let r = s.get_char(end - 6) == '.' && s.get_char(end - 5) == 'D' && s.get_char(end - 4) == 'e'
        && s.get_char(end - 3) == 'v' && s.get_char(end - 2) == 'e' && s.get_char(end - 1) == 'l';
    proof {
        let tail = s@.subrange(0, end as int).subrange(end - 6, end as int);
        if r {
            assert(tail =~= devel_suffix());
        } else if tail == devel_suffix() {
            assert(tail[0] == s@[end - 6]);
            assert(tail[1] == s@[end - 5]);
            assert(tail[2] == s@[end - 4]);
            assert(tail[3] == s@[end - 3]);
            assert(tail[4] == s@[end - 2]);
            assert(tail[5] == s@[end - 1]);
        }
    }
    r
}

/// The id of the settings schema: the application id without its
/// development suffix, as development and release builds share one schema.
pub fn schema_id(application_id: &str) -> (id: String)
    ensures
        id@ == strip_devel(application_id@),
{
    let len = application_id.unicode_len();
    let mut end = len;
    assert(application_id@.subrange(0, len as int) =~= application_id@);
    loop
        invariant
            len == application_id@.len(),
            end <= len,
            strip_devel(application_id@) == strip_devel(application_id@.subrange(0, end as int)),
        ensures
            strip_devel(application_id@) == application_id@.subrange(0, end as int),
        decreases end,
    {
        if end >= 6 && ends_with_devel(application_id, end) {
            let ghost prefix = application_id@.subrange(0, end as int);
            assert(prefix.subrange(0, prefix.len() - 6) =~= application_id@.subrange(0, end - 6));
            end = end - 6;
        } else {
            assert(application_id@.subrange(0, end as int).len() == end);
            break;
        }
    }
    application_id.substring_char(0, end).to_owned()
}

/// Stripping is idempotent: a schema id has no development suffix left, so
/// deriving the schema id again changes nothing.
pub proof fn lemma_strip_devel_idempotent(s: Seq<char>)
    ensures
        strip_devel(strip_devel(s)) == strip_devel(s),
    decreases s.len(),
{
    if s.len() >= 6 && s.subrange(s.len() - 6, s.len() as int) == devel_suffix() {
        lemma_strip_devel_idempotent(s.subrange(0, s.len() - 6));
    }
}

/// The layout of pixel data handed to the palette extraction.
#[derive(Clone, Copy, Debug, PartialEq, Eq, Structural)]
pub enum PixelFormat {
    Rgb,
    Rgba,
}

/// The pixel layout of an image with or without an alpha channel.
pub open spec fn spec_color_format(has_alpha: bool) -> PixelFormat {
    if has_alpha {
        PixelFormat::Rgba
    } else {
        PixelFormat::Rgb
    }
}

/// The pixel layout of an image with or without an alpha channel.
pub fn color_format(has_alpha: bool) -> (format: PixelFormat)
    ensures
        format == spec_color_format(has_alpha),
{
    if has_alpha {
        PixelFormat::Rgba
    } else {
        PixelFormat::Rgb
    }
}

/// The largest number of pixels the palette extraction may sample: each
/// sample adds at most 252 to a colour sum that the extraction keeps in an
/// `i32`, and this is the largest count for which `252` times it stays at or
/// below `i32::MAX`.
pub const MAX_PALETTE_SAMPLES: u64 = 8_521_760;

/// Bytes per pixel in a pixel layout.
pub open spec fn channels(format: PixelFormat) -> nat {
    match format {
        PixelFormat::Rgb => 3,
        PixelFormat::Rgba => 4,
    }
}

/// How many pixels the extraction samples from `len` bytes: it walks the
/// pixel indices from `0` in steps of `channels * quality`.
pub open spec fn sampled_pixels(len: nat, format: PixelFormat, quality: nat) -> nat {
    let pixel_count = len / channels(format);
    let stride = channels(format) * quality;
    if stride == 0 {
        0
    } else {
        ((pixel_count + stride - 1) / stride as int) as nat
    }
}

/// Whether the extraction's colour sums stay within `i32` on this many bytes.
pub open spec fn palette_input_in_range(len: nat, format: PixelFormat, quality: nat) -> bool {
    sampled_pixels(len, format, quality) <= MAX_PALETTE_SAMPLES
}

/// Whether `load_palette` may take `pixel_bytes` bytes of pixel data.
pub fn palette_within_limits(pixel_bytes: usize, has_alpha: bool) -> (fits: bool)
    ensures
        fits == palette_input_in_range(pixel_bytes as nat, spec_color_format(has_alpha), PALETTE_QUALITY as nat),
{
    let channels: usize = if has_alpha {
        4
    } else {
        3
    };
    let pixel_count = pixel_bytes / channels;
    let stride = channels * 5;
    let samples = (pixel_count + stride - 1) / stride;
    samples <= 8_521_760
}

#[verifier::external_type_specification]
#[verifier::external_body]
pub struct ExPaletteError(color_thief::Error);

/// The palette that `color_thief::get_palette` computes for the given pixels,
/// format, quality and number of colours, as red, green, blue triples; `None`
/// where it reports an error.
pub uninterp spec fn color_thief_palette(
    pixels: Seq<u8>,
    format: PixelFormat,
    quality: u8,
    max_colors: u8,
) -> Option<Seq<(u8, u8, u8)>>;

/// Calls `color_thief::get_palette`. Claimed of it: its result is a function
/// of its arguments alone (named `color_thief_palette`), and a palette holds
/// at most `max_colors` colours (the crate truncates it to that size). It
/// asserts a quality in `1..=10` and at least two colours, hence the
/// `requires`. It sums the colours of the sampled pixels in `i32`, which
/// overflows (a panic in debug builds) beyond `MAX_PALETTE_SAMPLES` samples of
/// bright pixels, hence the bound on the input's length. Left unsaid: which
/// colours the median cut finds.
#[verifier::external_body]
fn extract_palette(pixels: &[u8], format: PixelFormat, quality: u8, max_colors: u8) -> (palette: Result<Vec<(u8, u8, u8)>, color_thief::Error>)
    requires
        1 <= quality <= 10,
        max_colors >= 2,
        palette_input_in_range(pixels@.len(), format, quality as nat),
    ensures
        match palette {
            Ok(colors) => color_thief_palette(pixels@, format, quality, max_colors) == Some(colors@)
                && colors@.len() <= max_colors,
            Err(_) => color_thief_palette(pixels@, format, quality, max_colors) is None,
        },
{
    let format = match format {
        PixelFormat::Rgb => color_thief::ColorFormat::Rgb,
        PixelFormat::Rgba => color_thief::ColorFormat::Rgba,
    };
    color_thief::get_palette(pixels, format, quality, max_colors).map(
        |colors| colors.iter().map(|c| (c.r, c.g, c.b)).collect(),
    )
}

/// The palette kept from an extraction: its colours, or nothing on an error.
pub fn palette_from_result(extracted: Result<Vec<(u8, u8, u8)>, color_thief::Error>) -> (palette: Option<Vec<(u8, u8, u8)>>)
    ensures
        match extracted {
            Ok(colors) => palette == Some(colors),
            Err(_) => palette is None,
        },
{
    match extracted {
        Ok(colors) => Some(colors),
        Err(_) => None,
    }
}

/// The palette of a cover image: up to four representative colours of its
/// pixels, or `None` where the extraction fails.
pub fn load_palette(pixels: &[u8], has_alpha: bool) -> (palette: Option<Vec<(u8, u8, u8)>>)
    requires
        palette_input_in_range(pixels@.len(), spec_color_format(has_alpha), PALETTE_QUALITY as nat),
    ensures
        match palette {
            Some(colors) => color_thief_palette(pixels@, spec_color_format(has_alpha), PALETTE_QUALITY, PALETTE_COLORS)
                == Some(colors@) && colors@.len() <= PALETTE_COLORS,
            None => color_thief_palette(pixels@, spec_color_format(has_alpha), PALETTE_QUALITY, PALETTE_COLORS) is None,
        },
{
    let extracted = extract_palette(pixels, color_format(has_alpha), PALETTE_QUALITY, PALETTE_COLORS);
    palette_from_result(extracted)
}

} // verus!
