//! The scrolling ("marquee") label: its text and character counts, its size
//! requests, and the back-and-forth motion of text that does not fit.
use vstd::prelude::*;

verus! {

/// Pango units in one device pixel.
pub const PANGO_SCALE: i32 = 1024;

/// Minimum width, in characters, of a new label.
pub const DEFAULT_MIN_CHARS: u32 = 3;

/// Natural width, in characters, of a new label.
pub const DEFAULT_NAT_CHARS: u32 = 0;

/// Microseconds of animation per pixel of text that does not fit.
pub const SCROLL_TIME_PER_PIXEL: i64 = 60_000;

/// The font metrics the label reads, in Pango units.
#[derive(Clone, Copy, Debug, PartialEq, Eq, Structural)]
pub struct FontMetrics {
    pub approximate_char_width: i32,
    pub approximate_digit_width: i32,
    pub ascent: i32,
    pub descent: i32,
}

/// The direction along which a widget is measured.
#[derive(Clone, Copy, Debug, PartialEq, Eq, Structural)]
pub enum Orientation {
    Horizontal,
    Vertical,
    /// An orientation that the label does not know.
    Other,
}

/// A size request: minimum, natural, minimum baseline, natural baseline.
#[derive(Clone, Copy, Debug, PartialEq, Eq, Structural)]
pub struct Measurement {
    pub minimum: i32,
    pub natural: i32,
    pub minimum_baseline: i32,
    pub natural_baseline: i32,
}

/// Whole pixels covering `d` Pango units, rounding up; `-1` for no positive size.
pub open spec fn spec_pixels_ceil(d: int) -> int {
    if d > 0 {
        (d + 1023) / 1024
    } else {
        -1
    }
}

/// Whether `pixels_ceil` can take `d` without overflowing.
pub open spec fn pixels_ceil_in_range(d: int) -> bool {
    d <= i32::MAX - 1023
}

/// The value of a `u32` reinterpreted as an `i32`, as the `as` cast does.
pub open spec fn as_i32(x: u32) -> int {
    if x <= i32::MAX {
        x as int
    } else {
        x - 0x1_0000_0000
    }
}

/// The larger of two integers.
pub open spec fn max_int(a: int, b: int) -> int {
    if a >= b {
        a
    } else {
        b
    }
}

/// The width of one character: the wider of an average character and an
/// average digit; `0` without font metrics.
pub open spec fn spec_char_pixels(metrics: Option<FontMetrics>) -> int {
    match metrics {
        Some(m) => max_int(m.approximate_char_width as int, m.approximate_digit_width as int),
        None => 0,
    }
}

/// The height of a line and its baseline; `(0, -1)` without font metrics.
pub open spec fn spec_line_pixels(metrics: Option<FontMetrics>) -> (int, int) {
    match metrics {
        Some(m) => (m.ascent + m.descent, m.ascent as int),
        None => (0, -1),
    }
}

/// Minimum and natural width for the given character counts and character width.
pub open spec fn spec_width(min_chars: u32, nat_chars: u32, char_px: int) -> (int, int) {
    if min_chars == 0 && nat_chars == 0 {
        (0, 0)
    } else {
        (as_i32(min_chars) * char_px, max_int(as_i32(min_chars), as_i32(nat_chars)) * char_px)
    }
}

/// Whether the width for the given counts fits in an `i32`.
pub open spec fn width_in_range(min_chars: u32, nat_chars: u32, char_px: int) -> bool {
    let (minimum, natural) = spec_width(min_chars, nat_chars, char_px);
    &&& i32::MIN <= minimum <= i32::MAX
    &&& i32::MIN <= natural <= i32::MAX
}

/// Whether the line height of the metrics fits in an `i32`.
pub open spec fn line_in_range(metrics: Option<FontMetrics>) -> bool {
    let (line, baseline) = spec_line_pixels(metrics);
    i32::MIN <= line <= i32::MAX
}

/// The size request in pixels of a label along `orientation`.
pub open spec fn spec_measure(
    orientation: Orientation,
    min_chars: u32,
    nat_chars: u32,
    metrics: Option<FontMetrics>,
) -> (int, int, int, int) {
    match orientation {
        Orientation::Horizontal => {
            let (minimum, natural) = spec_width(min_chars, nat_chars, spec_char_pixels(metrics));
            (spec_pixels_ceil(minimum), spec_pixels_ceil(natural), -1, -1)
        },
        Orientation::Vertical => {
            let (line, baseline) = spec_line_pixels(metrics);
            (
                spec_pixels_ceil(line),
                spec_pixels_ceil(line),
                spec_pixels_ceil(baseline),
                spec_pixels_ceil(baseline),
            )
        },
        Orientation::Other => (-1, -1, -1, -1),
    }
}

/// Whether measuring along `orientation` stays within `i32` throughout.
pub open spec fn measure_in_range(
    orientation: Orientation,
    min_chars: u32,
    nat_chars: u32,
    metrics: Option<FontMetrics>,
) -> bool {
    match orientation {
        Orientation::Horizontal => {
            let (minimum, natural) = spec_width(min_chars, nat_chars, spec_char_pixels(metrics));
            &&& width_in_range(min_chars, nat_chars, spec_char_pixels(metrics))
            &&& pixels_ceil_in_range(minimum)
            &&& pixels_ceil_in_range(natural)
        },
        Orientation::Vertical => {
            let (line, baseline) = spec_line_pixels(metrics);
            &&& line_in_range(metrics)
            &&& pixels_ceil_in_range(line)
            &&& pixels_ceil_in_range(baseline)
        },
        Orientation::Other => true,
    }
}

/// The offset, in animation time, of text bouncing back and forth: the frame
/// time folded onto a ride from `0` up to `repeat` and back down.
pub open spec fn spec_bounce(frame_time: int, repeat: int) -> int {
    let folded = (if frame_time >= 0 {
        frame_time
    } else {
        -frame_time
    }) % (2 * repeat);
    if folded > repeat {
        2 * repeat - folded
    } else {
        folded
    }
}

/// Converts Pango units to whole pixels, rounding up; sizes that are not
/// positive become `-1`.
pub fn pixels_ceil(d: i32) -> (px: i32)
    requires
        pixels_ceil_in_range(d as int),
    ensures
        px == spec_pixels_ceil(d as int),
{
    if d > 0 {
        let sum = d + 1023;
        let px = sum >> 10;
        assert(px == sum / 1024) by (bit_vector)
            requires
                sum > 0,
                px == sum >> 10,
        ;
        px
    } else {
        -1
    }
}

/// The width of one character in Pango units.
pub fn char_pixels(metrics: Option<FontMetrics>) -> (px: i32)
    ensures
        px == spec_char_pixels(metrics),
{
    match metrics {
        Some(m) => if m.approximate_char_width >= m.approximate_digit_width {
            m.approximate_char_width
        } else {
            m.approximate_digit_width
        },
        None => 0,
    }
}

/// The height of a line and its baseline in Pango units.
pub fn line_pixels(metrics: Option<FontMetrics>) -> (line: (i32, i32))
    requires
        line_in_range(metrics),
    ensures
        line.0 == spec_line_pixels(metrics).0,
        line.1 == spec_line_pixels(metrics).1,
{
    match metrics {
        Some(m) => (m.ascent + m.descent, m.ascent),
        None => (0, -1),
    }
}

/// Reinterprets a character count as the signed integer the measurements use.
fn count_as_i32(x: u32) -> (r: i32)
    ensures
        r == as_i32(x),
{
    let r = x as i32;
    assert(r == (if x <= 0x7fff_ffff {
        x as int
    } else {
        x - 0x1_0000_0000
    })) by (bit_vector)
        requires
            r == x as i32,
    ;
    r
}

/// The vertical size request: line height twice, then the baseline twice.
pub fn measure_height(line: (i32, i32)) -> (m: Measurement)
    ensures
        m == (Measurement {
            minimum: line.0,
            natural: line.0,
            minimum_baseline: line.1,
            natural_baseline: line.1,
        }),
{
    Measurement { minimum: line.0, natural: line.0, minimum_baseline: line.1, natural_baseline: line.1 }
}

/// The text bounce: where along its ride text is at `frame_time`, for a ride
/// of `repeat` in each direction.
pub fn bounce_offset(frame_time: i64, repeat: i64) -> (offset: i64)
    requires
        repeat > 0,
        2 * repeat <= i64::MAX,
    ensures
        offset == spec_bounce(frame_time as int, repeat as int),
        0 <= offset <= repeat,
{
    let period = 2 * repeat;
    let rem = frame_time % period;
    let mut folded = if rem < 0 {
        -rem
    } else {
        rem
    };
    assert(folded == (if frame_time >= 0 {
        frame_time as int
    } else {
        -frame_time
    }) % (period as int));
    if folded > repeat {
        folded = period - folded;
    }
    folded
}

/// The length of one ride of text that is `logical_width` wide in a widget
/// `widget_width` wide.
pub fn bounce_repeat(logical_width: i32, widget_width: i64) -> (repeat: i64)
    requires
        i64::MIN <= (logical_width - widget_width) * SCROLL_TIME_PER_PIXEL <= i64::MAX,
    ensures
        repeat == (logical_width - widget_width) * SCROLL_TIME_PER_PIXEL,
{
    (logical_width as i64 - widget_width) * SCROLL_TIME_PER_PIXEL
}

/// The text, the character counts that size the label, and whether its
/// text is animated (a tick callback redraws it every frame).
#[derive(Debug)]
pub struct MarqueeLabel {
    label: Option<String>,
    min_chars: u32,
    nat_chars: u32,
    animating: bool,
}

impl MarqueeLabel {
    /// The text shown, if one was set.
    pub closed spec fn spec_label(&self) -> Option<Seq<char>> {
        match self.label {
            Some(s) => Some(s@),
            None => None,
        }
    }

    /// The minimum width in characters.
    pub closed spec fn spec_min_chars(&self) -> u32 {
        self.min_chars
    }

    /// The natural width in characters.
    pub closed spec fn spec_nat_chars(&self) -> u32 {
        self.nat_chars
    }

    /// Whether the text is animated.
    pub closed spec fn spec_animating(&self) -> bool {
        self.animating
    }

    /// A still label without text, at least three characters wide.
    pub fn new() -> (label: Self)
        ensures
            label.spec_label() is None,
            label.spec_min_chars() == DEFAULT_MIN_CHARS,
            label.spec_nat_chars() == DEFAULT_NAT_CHARS,
            !label.spec_animating(),
    {
        MarqueeLabel {
            label: None,
            min_chars: DEFAULT_MIN_CHARS,
            nat_chars: DEFAULT_NAT_CHARS,
            animating: false,
        }
    }

    /// Sets the text and stops the animation. Returns whether the label was
    /// animating: only then must its tick callback be removed. Once the text
    /// is laid out, the animation starts again after a delay
    /// (`start_animation`).
    pub fn set_label(&mut self, label: &str) -> (was_animating: bool)
        ensures
            final(self).spec_label() == Some(label@),
            final(self).spec_min_chars() == old(self).spec_min_chars(),
            final(self).spec_nat_chars() == old(self).spec_nat_chars(),
            !final(self).spec_animating(),
            was_animating == old(self).spec_animating(),
    {
        let was_animating = self.animating;
        self.animating = false;
        self.label = Some(label.to_owned());
        was_animating
    }

    /// Starts animating the text.
    pub fn start_animation(&mut self)
        ensures
            final(self).spec_animating(),
            final(self).spec_label() == old(self).spec_label(),
            final(self).spec_min_chars() == old(self).spec_min_chars(),
            final(self).spec_nat_chars() == old(self).spec_nat_chars(),
    {
        self.animating = true;
    }

    /// Whether the text is animated.
    pub fn is_animating(&self) -> (animating: bool)
        ensures
            animating == self.spec_animating(),
    {
        self.animating
    }

    /// The text; empty where none was set.
    pub fn label(&self) -> (text: String)
        ensures
            text@ == (match self.spec_label() {
                Some(s) => s,
                None => Seq::<char>::empty(),
            }),
    {
        match &self.label {
            Some(s) => s.clone(),
            None => String::new(),
        }
    }

    /// Sets the minimum width in characters. Returns whether it changed: only
    /// then is the change announced and the size requested again.
    pub fn set_min_chars(&mut self, min_chars: u32) -> (changed: bool)
        ensures
            final(self).spec_min_chars() == min_chars,
            final(self).spec_nat_chars() == old(self).spec_nat_chars(),
            final(self).spec_label() == old(self).spec_label(),
            final(self).spec_animating() == old(self).spec_animating(),
            changed == (min_chars != old(self).spec_min_chars()),
    {
        let previous = self.min_chars;
        self.min_chars = min_chars;
        min_chars != previous
    }

    /// The minimum width in characters.
    pub fn min_chars(&self) -> (min_chars: u32)
        ensures
            min_chars == self.spec_min_chars(),
    {
        self.min_chars
    }

    /// Sets the natural width in characters. Returns whether it changed: only
    /// then is the change announced and the size requested again.
    pub fn set_nat_chars(&mut self, nat_chars: u32) -> (changed: bool)
        ensures
            final(self).spec_nat_chars() == nat_chars,
            final(self).spec_min_chars() == old(self).spec_min_chars(),
            final(self).spec_label() == old(self).spec_label(),
            final(self).spec_animating() == old(self).spec_animating(),
            changed == (nat_chars != old(self).spec_nat_chars()),
    {
        let previous = self.nat_chars;
        self.nat_chars = nat_chars;
        nat_chars != previous
    }

    /// The natural width in characters.
    pub fn nat_chars(&self) -> (nat_chars: u32)
        ensures
            nat_chars == self.spec_nat_chars(),
    {
        self.nat_chars
    }

    /// Minimum and natural width in Pango units, for characters `char_px` wide.
    pub fn measure_width(&self, char_px: i32) -> (width: (i32, i32))
        requires
            width_in_range(self.spec_min_chars(), self.spec_nat_chars(), char_px as int),
        ensures
            width.0 == spec_width(self.spec_min_chars(), self.spec_nat_chars(), char_px as int).0,
            width.1 == spec_width(self.spec_min_chars(), self.spec_nat_chars(), char_px as int).1,
    {
        if self.min_chars == 0 && self.nat_chars == 0 {
            return (0, 0);
        }
        let min_chars = count_as_i32(self.min_chars);
        let nat_chars = count_as_i32(self.nat_chars);
        let widest = if min_chars >= nat_chars {
            min_chars
        } else {
            nat_chars
        };
        (min_chars * char_px, widest * char_px)
    }

    /// The size request in pixels along `orientation`, for the given font.
    pub fn measure(&self, orientation: Orientation, metrics: Option<FontMetrics>) -> (m: Measurement)
        requires
            measure_in_range(orientation, self.spec_min_chars(), self.spec_nat_chars(), metrics),
        ensures
            (m.minimum as int, m.natural as int, m.minimum_baseline as int, m.natural_baseline as int)
                == spec_measure(orientation, self.spec_min_chars(), self.spec_nat_chars(), metrics),
    {
        let (minimum, natural, minimum_baseline, natural_baseline) = match orientation {
            Orientation::Horizontal => {
                let (minimum, natural) = self.measure_width(char_pixels(metrics));
                (minimum, natural, -1, -1)
            },
            Orientation::Vertical => {
                let line = measure_height(line_pixels(metrics));
                (line.minimum, line.natural, line.minimum_baseline, line.natural_baseline)
            },
            Orientation::Other => (0, 0, -1, -1),
        };
        Measurement {
            minimum: pixels_ceil(minimum),
            natural: pixels_ceil(natural),
            minimum_baseline: pixels_ceil(minimum_baseline),
            natural_baseline: pixels_ceil(natural_baseline),
        }
    }

    /// The size request along `orientation`, or `None` where computing it
    /// would overflow an `i32`.
    pub fn measure_checked(&self, orientation: Orientation, metrics: Option<FontMetrics>) -> (m: Option<Measurement>)
        ensures
            m is Some <==> measure_in_range(orientation, self.spec_min_chars(), self.spec_nat_chars(), metrics),
            m matches Some(m) ==> (m.minimum as int, m.natural as int, m.minimum_baseline as int, m.natural_baseline as int)
                == spec_measure(orientation, self.spec_min_chars(), self.spec_nat_chars(), metrics),
    {
        let fits = match orientation {
            Orientation::Horizontal => {
                if self.min_chars == 0 && self.nat_chars == 0 {
                    true
                } else {
                    let char_px = char_pixels(metrics) as i64;
                    let min_chars = count_as_i32(self.min_chars) as i64;
                    let nat_chars = count_as_i32(self.nat_chars) as i64;
                    let widest = if min_chars >= nat_chars {
                        min_chars
                    } else {
                        nat_chars
                    };
                    assert(-0x4000_0000_0000_0000 <= min_chars * char_px <= 0x4000_0000_0000_0000) by (nonlinear_arith)
                        requires
                            -0x8000_0000 <= min_chars <= 0x7fff_ffff,
                            -0x8000_0000 <= char_px <= 0x7fff_ffff,
                    ;
                    assert(-0x4000_0000_0000_0000 <= widest * char_px <= 0x4000_0000_0000_0000) by (nonlinear_arith)
                        requires
                            -0x8000_0000 <= widest <= 0x7fff_ffff,
                            -0x8000_0000 <= char_px <= 0x7fff_ffff,
                    ;
                    let minimum = min_chars * char_px;
                    let natural = widest * char_px;
                    i32::MIN as i64 <= minimum && minimum <= i32::MAX as i64 - 1023
                        && i32::MIN as i64 <= natural && natural <= i32::MAX as i64 - 1023
                }
            },
            Orientation::Vertical => {
                match metrics {
                    Some(m) => {
                        let line = m.ascent as i64 + m.descent as i64;
                        i32::MIN as i64 <= line && line <= i32::MAX as i64 - 1023 && m.ascent <= i32::MAX
                            - 1023
                    },
                    None => true,
                }
            },
            Orientation::Other => true,
        };
        if fits {
            Some(self.measure(orientation, metrics))
        } else {
            None
        }
    }
}

/// A character is as wide as the wider of an average character and an
/// average digit: at least each of them, and one of them exactly.
pub proof fn lemma_char_pixels_is_wider(m: FontMetrics)
    ensures
        spec_char_pixels(Some(m)) >= m.approximate_char_width,
        spec_char_pixels(Some(m)) >= m.approximate_digit_width,
        spec_char_pixels(Some(m)) == m.approximate_char_width || spec_char_pixels(Some(m))
            == m.approximate_digit_width,
        spec_char_pixels(None) == 0,
{
}

/// Rounding up to pixels covers the size, and by less than one pixel.
pub proof fn lemma_pixels_ceil_covers(d: int)
    requires
        d > 0,
    ensures
        spec_pixels_ceil(d) * 1024 >= d,
        (spec_pixels_ceil(d) - 1) * 1024 < d,
        spec_pixels_ceil(d) >= 1,
{
    let q = (d + 1023) / 1024;
    assert(q * 1024 <= d + 1023 < q * 1024 + 1024) by (nonlinear_arith)
        requires
            q == (d + 1023) / 1024,
            d > 0,
    ;
}

/// Rounding up to pixels keeps the order of sizes.
pub proof fn lemma_pixels_ceil_monotonic(a: int, b: int)
    requires
        a <= b,
    ensures
        spec_pixels_ceil(a) <= spec_pixels_ceil(b),
{
    if a > 0 {
        assert((a + 1023) / 1024 <= (b + 1023) / 1024) by (nonlinear_arith)
            requires
                a <= b,
                a > 0,
        ;
    }
}

/// The bounce is periodic: text is at the same place one full ride there and
/// back later, at any frame time.
pub proof fn lemma_bounce_periodic(frame_time: int, repeat: int)
    requires
        repeat > 0,
    ensures
        spec_bounce(frame_time + 2 * repeat, repeat) == spec_bounce(frame_time, repeat),
{
    let m = 2 * repeat;
    let t = frame_time;
    if t >= 0 {
        assert((t + m) % m == t % m) by (nonlinear_arith)
            requires
                m > 0,
                t >= 0,
        ;
    } else if t + m < 0 {
        assert((-t) % m == (-(t + m)) % m) by (nonlinear_arith)
            requires
                m > 0,
                -(t + m) > 0,
        ;
    } else {
        // Here 0 < -t <= m, so both foldings are plain differences.
        let a = -t;
        if a == m {
            assert(a % m == 0) by (nonlinear_arith)
                requires
                    a == m,
                    m > 0,
            ;
            assert((t + m) % m == 0) by (nonlinear_arith)
                requires
                    t + m == 0,
                    m > 0,
            ;
        } else {
            assert(a % m == a) by (nonlinear_arith)
                requires
                    0 < a < m,
            ;
            assert((t + m) % m == m - a) by (nonlinear_arith)
                requires
                    0 < a < m,
                    t + m == m - a,
            ;
        }
    }
}

} // verus!
