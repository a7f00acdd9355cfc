use cute_lights::color::{hsv_to_rgb, rgb_to_hsv};

fn hue_distance(a: i64, b: i64) -> i64 {
    let d = (a - b).abs() % 360;
    if d > 180 {
        360 - d
    } else {
        d
    }
}

#[test]
fn primary_colors() {
    assert_eq!(hsv_to_rgb(0, 100, 50), (255, 0, 0));
    assert_eq!(hsv_to_rgb(120, 100, 50), (0, 255, 0));
    assert_eq!(hsv_to_rgb(240, 100, 50), (0, 0, 255));
    assert_eq!(rgb_to_hsv(255, 0, 0), (0, 100, 50));
    assert_eq!(rgb_to_hsv(0, 255, 0), (120, 100, 50));
    assert_eq!(rgb_to_hsv(0, 0, 255), (240, 100, 50));
}

#[test]
fn gray_axis() {
    assert_eq!(hsv_to_rgb(0, 0, 0), (0, 0, 0));
    assert_eq!(hsv_to_rgb(0, 0, 100), (255, 255, 255));
    assert_eq!(rgb_to_hsv(0, 0, 0), (0, 0, 0));
    assert_eq!(rgb_to_hsv(255, 255, 255), (0, 0, 100));
    assert_eq!(rgb_to_hsv(128, 128, 128), (0, 0, 50));
}

#[test]
fn hue_360_wraps_to_0() {
    assert_eq!(hsv_to_rgb(360, 100, 50), hsv_to_rgb(0, 100, 50));
}

#[test]
fn lightness_round_trips_exactly_everywhere() {
    for h in (0..=360).step_by(4) {
        for s in 0..=100 {
            for l in 0..=100 {
                let (r, g, b) = hsv_to_rgb(h, s, l);
                let (_, _, l2) = rgb_to_hsv(r, g, b);
                assert_eq!(l2, l, "lightness moved at h={h} s={s} l={l}");
            }
        }
    }
}

#[test]
fn round_trip_within_one_unit_off_the_low_chroma_region() {
    // Outside a thin band of nearly-gray colors (chroma at most ~21.6%,
    // where the 8-bit RGB quantisation cannot carry hue or saturation),
    // the conversion round-trips within one integer unit per channel.
    for h in (0..=360).step_by(3) {
        for s in 0..=100 {
            for l in 0..=100 {
                let chroma = (100 - (2 * l - 100i64).abs()) * s;
                if chroma <= 2156 {
                    continue;
                }
                let (r, g, b) = hsv_to_rgb(h, s, l);
                let (h2, s2, l2) = rgb_to_hsv(r, g, b);
                assert!(
                    hue_distance(h2, h % 360) <= 1 && (s2 - s).abs() <= 1 && (l2 - l).abs() <= 1,
                    "round trip drifted at h={h} s={s} l={l}: got ({h2},{s2},{l2})"
                );
            }
        }
    }
}

#[test]
fn low_saturation_is_where_the_round_trip_fails() {
    // A witness that the law cannot hold on the full domain: at s=2, l=1
    // the whole color collapses to nearly-black RGB and saturation cannot
    // be recovered.
    let (r, g, b) = hsv_to_rgb(0, 2, 1);
    let (_, s2, _) = rgb_to_hsv(r, g, b);
    assert!((s2 - 2i64).abs() > 1);
}

#[test]
fn pure_hues_round_trip_exactly() {
    for h in 0..=360 {
        let (r, g, b) = hsv_to_rgb(h, 100, 50);
        assert_eq!(rgb_to_hsv(r, g, b), (h % 360, 100, 50));
    }
}

#[test]
fn saturation_round_trips_within_one_at_half_lightness() {
    for h in 0..=360 {
        for s in 0..=100 {
            let (r, g, b) = hsv_to_rgb(h, s, 50);
            let (_, s2, _) = rgb_to_hsv(r, g, b);
            assert!((s2 - s).abs() <= 1, "saturation drifted at h={h} s={s}");
        }
    }
}

#[test]
fn outputs_stay_in_range() {
    for h in (0..=360).step_by(7) {
        for s in (0..=100).step_by(3) {
            for l in (0..=100).step_by(3) {
                let (r, g, b) = hsv_to_rgb(h, s, l);
                let (h2, s2, l2) = rgb_to_hsv(r, g, b);
                let _ = (r, g, b);
                assert!((0..360).contains(&h2));
                assert!((0..=100).contains(&s2));
                assert!((0..=100).contains(&l2));
            }
        }
    }
}
