use amberol::marquee_label::{
    bounce_offset, bounce_repeat, char_pixels, line_pixels, measure_height, pixels_ceil,
    FontMetrics, MarqueeLabel, Measurement, Orientation,
};

fn metrics() -> FontMetrics {
    FontMetrics {
        approximate_char_width: 7 * 1024,
        approximate_digit_width: 8 * 1024 + 10,
        ascent: 12 * 1024,
        descent: 3 * 1024 + 1,
    }
}

#[test]
fn pixels_ceil_rounds_up() {
    assert_eq!(pixels_ceil(1), 1);
    assert_eq!(pixels_ceil(1024), 1);
    assert_eq!(pixels_ceil(1025), 2);
    assert_eq!(pixels_ceil(2048), 2);
    assert_eq!(pixels_ceil(0), -1);
    assert_eq!(pixels_ceil(-5), -1);
    assert_eq!(pixels_ceil(i32::MAX - 1023), (i32::MAX - 1023 + 1023) >> 10);
}

#[test]
fn new_label_defaults() {
    let label = MarqueeLabel::new();
    assert_eq!(label.label(), "");
    assert_eq!(label.min_chars(), 3);
    assert_eq!(label.nat_chars(), 0);
}

#[test]
fn label_roundtrip() {
    let mut label = MarqueeLabel::new();
    label.set_label("Song title");
    assert_eq!(label.label(), "Song title");
}

#[test]
fn char_counts_report_changes() {
    let mut label = MarqueeLabel::new();
    assert!(!label.set_min_chars(3));
    assert!(label.set_min_chars(5));
    assert_eq!(label.min_chars(), 5);
    assert!(label.set_nat_chars(20));
    assert!(!label.set_nat_chars(20));
    assert_eq!(label.nat_chars(), 20);
}

#[test]
fn character_and_line_sizes() {
    assert_eq!(char_pixels(Some(metrics())), 8 * 1024 + 10);
    assert_eq!(char_pixels(None), 0);
    assert_eq!(line_pixels(Some(metrics())), (15 * 1024 + 1, 12 * 1024));
    assert_eq!(line_pixels(None), (0, -1));
    assert_eq!(
        measure_height((10, 4)),
        Measurement { minimum: 10, natural: 10, minimum_baseline: 4, natural_baseline: 4 }
    );
}

#[test]
fn measure_width_by_characters() {
    let mut label = MarqueeLabel::new();
    assert_eq!(label.measure_width(100), (300, 300));
    label.set_nat_chars(10);
    assert_eq!(label.measure_width(100), (300, 1000));
    label.set_min_chars(0);
    label.set_nat_chars(0);
    assert_eq!(label.measure_width(100), (0, 0));
}

#[test]
fn measure_width_reinterprets_huge_counts() {
    let mut label = MarqueeLabel::new();
    label.set_min_chars(u32::MAX);
    label.set_nat_chars(2);
    assert_eq!(label.measure_width(5), (-5, 10));
}

#[test]
fn measure_in_pixels() {
    let mut label = MarqueeLabel::new();
    label.set_nat_chars(10);
    let horizontal = label.measure(Orientation::Horizontal, Some(metrics()));
    let char_px = 8 * 1024 + 10;
    assert_eq!(
        horizontal,
        Measurement {
            minimum: (3 * char_px + 1023) >> 10,
            natural: (10 * char_px + 1023) >> 10,
            minimum_baseline: -1,
            natural_baseline: -1,
        }
    );
    let vertical = label.measure(Orientation::Vertical, Some(metrics()));
    assert_eq!(
        vertical,
        Measurement { minimum: 16, natural: 16, minimum_baseline: 12, natural_baseline: 12 }
    );
    let without_font = label.measure(Orientation::Vertical, None);
    assert_eq!(
        without_font,
        Measurement { minimum: -1, natural: -1, minimum_baseline: -1, natural_baseline: -1 }
    );
    let other = label.measure(Orientation::Other, Some(metrics()));
    assert_eq!(
        other,
        Measurement { minimum: -1, natural: -1, minimum_baseline: -1, natural_baseline: -1 }
    );
}

#[test]
fn bounce_goes_there_and_back() {
    assert_eq!(bounce_offset(0, 100), 0);
    assert_eq!(bounce_offset(40, 100), 40);
    assert_eq!(bounce_offset(100, 100), 100);
    assert_eq!(bounce_offset(150, 100), 50);
    assert_eq!(bounce_offset(200, 100), 0);
    assert_eq!(bounce_offset(240, 100), 40);
    assert_eq!(bounce_offset(-40, 100), 40);
    assert_eq!(bounce_offset(-150, 100), 50);
}

#[test]
fn bounce_is_periodic() {
    for t in [0i64, 13, 99, 100, 101, 199, 777] {
        assert_eq!(bounce_offset(t, 100), bounce_offset(t + 200, 100));
    }
}

#[test]
fn bounce_repeat_scales_overflow() {
    assert_eq!(bounce_repeat(300, 200), 6_000_000);
    assert_eq!(bounce_repeat(200, 300), -6_000_000);
}

#[test]
fn measure_checked_refuses_overflow() {
    let mut label = MarqueeLabel::new();
    label.set_nat_chars(10);
    assert_eq!(
        label.measure_checked(Orientation::Horizontal, Some(metrics())),
        Some(label.measure(Orientation::Horizontal, Some(metrics())))
    );
    label.set_nat_chars(1_000_000);
    assert_eq!(label.measure_checked(Orientation::Horizontal, Some(metrics())), None);
    let tall = FontMetrics { approximate_char_width: 1, approximate_digit_width: 1, ascent: i32::MAX, descent: 1 };
    assert_eq!(label.measure_checked(Orientation::Vertical, Some(tall)), None);
    assert_eq!(
        label.measure_checked(Orientation::Other, Some(tall)),
        Some(Measurement { minimum: -1, natural: -1, minimum_baseline: -1, natural_baseline: -1 })
    );
}

#[test]
fn set_label_stops_animation() {
    let mut label = MarqueeLabel::new();
    assert!(!label.is_animating());
    assert!(!label.set_label("first"));
    label.start_animation();
    assert!(label.is_animating());
    assert!(label.set_label("second"));
    assert!(!label.is_animating());
    assert_eq!(label.label(), "second");
}
