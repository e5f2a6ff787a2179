//! Divider placement and fragment classification.

use frame_compare::divider::{classify_fragment, divider_center_px, FragmentSource};

#[test]
fn center_scenario_midpoint() {
    // divider_position = 0.5 on a 100-pixel-wide output: center column 50.
    let bits = 0.5f32.to_bits();
    assert_eq!(divider_center_px(bits, 100), 50);
}

#[test]
fn band_scenario_midpoint_width_four() {
    // position 0.5, width 4, extent 100x100: the band is X in [48, 52],
    // the left image shows for X < 48, the right image for X > 52.
    let bits = 0.5f32.to_bits();
    for x in 0..48u32 {
        assert_eq!(classify_fragment(x, bits, 4, 100), FragmentSource::Left);
    }
    for x in 48..=52u32 {
        assert_eq!(classify_fragment(x, bits, 4, 100), FragmentSource::Divider);
    }
    for x in 53..100u32 {
        assert_eq!(classify_fragment(x, bits, 4, 100), FragmentSource::Right);
    }
}

#[test]
fn center_matches_float_floor() {
    // The integer decode agrees with floor(position * width) computed in
    // double precision (exact for these magnitudes) for many positions.
    let widths = [1u32, 2, 3, 100, 640, 1920, 4096, 12345];
    let positions = [
        0.0f32, 0.1, 0.25, 1.0 / 3.0, 0.5, 0.625, 0.75, 0.9, 0.999, 1.0,
    ];
    for &w in &widths {
        for &p in &positions {
            let expect = ((p as f64) * (w as f64)).floor() as u32;
            assert_eq!(divider_center_px(p.to_bits(), w), expect, "p={p} w={w}");
        }
    }
}

#[test]
fn center_edges() {
    // Zero maps to column 0, one to the full width.
    assert_eq!(divider_center_px(0.0f32.to_bits(), 1920), 0);
    assert_eq!(divider_center_px(1.0f32.to_bits(), 1920), 1920);
    // The smallest subnormal is far below one pixel.
    assert_eq!(divider_center_px(1, u32::MAX), 0);
    // A position strictly between pixels rounds down.
    assert_eq!(divider_center_px(0.999f32.to_bits(), 10), 9);
}

#[test]
fn zero_width_band_is_one_column() {
    // Width zero degenerates to a single divider column at the center.
    let bits = 0.5f32.to_bits();
    assert_eq!(classify_fragment(49, bits, 0, 100), FragmentSource::Left);
    assert_eq!(classify_fragment(50, bits, 0, 100), FragmentSource::Divider);
    assert_eq!(classify_fragment(51, bits, 0, 100), FragmentSource::Right);
}

#[test]
fn wide_band_at_left_edge() {
    // Center at column 0 with a wide band: no column is left of the band.
    let bits = 0.0f32.to_bits();
    assert_eq!(classify_fragment(0, bits, 255, 10), FragmentSource::Divider);
    assert_eq!(classify_fragment(127, bits, 255, 10), FragmentSource::Divider);
    assert_eq!(classify_fragment(128, bits, 255, 10), FragmentSource::Right);
}

#[test]
fn odd_width_rounds_half_down() {
    // Width 5 gives half-width 2 on both sides, same as width 4.
    let bits = 0.5f32.to_bits();
    assert_eq!(classify_fragment(47, bits, 5, 100), FragmentSource::Left);
    assert_eq!(classify_fragment(48, bits, 5, 100), FragmentSource::Divider);
    assert_eq!(classify_fragment(52, bits, 5, 100), FragmentSource::Divider);
    assert_eq!(classify_fragment(53, bits, 5, 100), FragmentSource::Right);
}
