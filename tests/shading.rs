use fractal_raster::shading::{channel_value, gradient_level, shade_pixel, ChannelPolicy, ChannelSource, Color};

#[test]
fn gradient_is_three_tenths_truncated() {
    assert_eq!(gradient_level(0), 0);
    assert_eq!(gradient_level(3), 0);
    assert_eq!(gradient_level(4), 1);
    assert_eq!(gradient_level(10), 3);
    assert_eq!(gradient_level(799), 239);
    assert_eq!(gradient_level(800), 240);
}

#[test]
fn gradient_saturates_at_channel_max() {
    assert_eq!(gradient_level(850), 255);
    assert_eq!(gradient_level(853), 255);
    assert_eq!(gradient_level(860), 255);
    assert_eq!(gradient_level(u32::MAX), 255);
}

#[test]
fn gradient_matches_float_formula_on_default_canvas() {
    for c in 0..800u32 {
        assert_eq!(gradient_level(c), (0.3 * c as f32) as u8, "coordinate {}", c);
    }
}

#[test]
fn channel_sources_pick_their_value() {
    assert_eq!(channel_value(ChannelSource::GradientX, 100, 200, 9), 30);
    assert_eq!(channel_value(ChannelSource::GradientY, 100, 200, 9), 60);
    assert_eq!(channel_value(ChannelSource::Iterations, 100, 200, 9), 9);
}

#[test]
fn fractal_layout_puts_count_on_green() {
    let c = shade_pixel(ChannelPolicy::fractal(), 10, 900, 7);
    assert_eq!(c, Color { red: 3, green: 7, blue: 255 });
}

#[test]
fn generate_layout_puts_count_on_red() {
    let c = shade_pixel(ChannelPolicy::generate(), 10, 20, 42);
    assert_eq!(c, Color { red: 42, green: 6, blue: 3 });
}

#[test]
fn layouts_differ_only_in_placement() {
    let f = ChannelPolicy::fractal();
    let g = ChannelPolicy::generate();
    assert_eq!(f.green, ChannelSource::Iterations);
    assert_eq!(g.red, ChannelSource::Iterations);
    assert_ne!(f, g);
}
