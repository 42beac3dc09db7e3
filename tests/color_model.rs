use color_led::color::hsv_to_rgb;

#[test]
fn primary_color_anchors() {
    assert_eq!(hsv_to_rgb(0, 255, 255), (255, 0, 0));
    assert_eq!(hsv_to_rgb(120, 255, 255), (0, 255, 0));
    assert_eq!(hsv_to_rgb(240, 255, 255), (0, 0, 255));
}

#[test]
fn zero_saturation_is_gray() {
    for hue in [0u16, 59, 60, 200, 359, 360, 65535] {
        for v in [0u8, 1, 77, 128, 254, 255] {
            assert_eq!(hsv_to_rgb(hue, 0, v), (v, v, v));
        }
    }
}

#[test]
fn partial_saturation_exact_values() {
    assert_eq!(hsv_to_rgb(30, 128, 200), (200, 149, 99));
    assert_eq!(hsv_to_rgb(200, 100, 50), (30, 43, 50));
}

#[test]
fn hue_past_the_wheel_falls_in_last_region() {
    assert_eq!(hsv_to_rgb(400, 255, 255), (255, 0, 85));
    assert_eq!(hsv_to_rgb(65535, 200, 100), (100, 21, 80));
}

#[test]
fn region_boundary_is_continuous() {
    let a = hsv_to_rgb(59, 255, 255);
    let b = hsv_to_rgb(60, 255, 255);
    assert_eq!(a, (255, 250, 0));
    assert_eq!(b, (255, 255, 0));
    assert!((a.1 as i32 - b.1 as i32).abs() <= 5);
}

#[test]
fn adjacent_hues_move_each_channel_by_at_most_five() {
    for hue in 0u16..360 {
        let a = hsv_to_rgb(hue, 255, 255);
        let b = hsv_to_rgb((hue + 1) % 360, 255, 255);
        assert!((a.0 as i32 - b.0 as i32).abs() <= 5, "hue {}", hue);
        assert!((a.1 as i32 - b.1 as i32).abs() <= 5, "hue {}", hue);
        assert!((a.2 as i32 - b.2 as i32).abs() <= 5, "hue {}", hue);
    }
}

#[test]
fn full_color_has_exactly_one_full_channel() {
    for hue in 0u16..360 {
        let (r, g, b) = hsv_to_rgb(hue, 255, 255);
        let full = [r, g, b].iter().filter(|c| **c == 255).count();
        if hue == 60 || hue == 180 || hue == 300 {
            assert_eq!(full, 2, "hue {}", hue);
        } else {
            assert_eq!(full, 1, "hue {}", hue);
        }
    }
}

#[test]
fn secondary_colors_at_odd_region_starts() {
    assert_eq!(hsv_to_rgb(60, 255, 255), (255, 255, 0));
    assert_eq!(hsv_to_rgb(180, 255, 255), (0, 255, 255));
    assert_eq!(hsv_to_rgb(300, 255, 255), (255, 0, 255));
    assert_eq!(hsv_to_rgb(330, 255, 255), (255, 0, 128));
}
