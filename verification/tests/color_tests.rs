use pathtracer::color::Color;
use pathtracer::math::Ratio;

#[test]
fn from_rgba_keeps_all_four_channels() {
    let c = Color::from_rgba(1, 2, 3, 4);
    assert_eq!((c.r, c.g, c.b, c.a), (1, 2, 3, 4));
    assert_eq!(c.rgba(), [1, 2, 3, 4]);
}

#[test]
fn from_rgb_sets_alpha_to_one() {
    let c = Color::from_rgb(10, 20, 30);
    assert_eq!(c, Color { r: 10, g: 20, b: 30, a: 1 });
    assert_eq!(c.rgba(), [10, 20, 30, 1]);
    assert_eq!(c.rgb(), [10, 20, 30]);
}

#[test]
fn black_and_white_are_on_the_unit_scale() {
    assert_eq!(Color::black().rgba(), [0, 0, 0, 1]);
    assert_eq!(Color::white().rgba(), [1, 1, 1, 1]);
}

#[test]
fn color_lerp_interpolates_each_channel_on_its_own() {
    let a = Color::from_rgba(100, 10, 255, 200);
    let b = Color::from_rgba(50, 13, 0, 100);
    let half = Ratio::new(1, 2).unwrap();
    // 100 + 50/2, 10 - 3/2 (8.5), 255 + 255/2 (held at 255)
    assert_eq!(a.lerp(b, half).rgb(), [125, 8, 255]);
}

#[test]
fn color_lerp_resets_alpha_to_one() {
    let a = Color::from_rgba(1, 2, 3, 255);
    let b = Color::from_rgba(4, 5, 6, 255);
    assert_eq!(a.lerp(b, Ratio::new(0, 1).unwrap()).a, 1);
    assert_eq!(a.lerp(b, Ratio::new(1, 3).unwrap()).a, 1);
    assert_eq!(a.lerp(a, Ratio::new(5, 1).unwrap()), Color::from_rgb(1, 2, 3));
}

#[test]
fn color_lerp_at_zero_keeps_the_colour_channels() {
    let a = Color::from_rgba(9, 99, 199, 7);
    let b = Color::from_rgba(255, 0, 128, 7);
    assert_eq!(a.lerp(b, Ratio::new(0, 9).unwrap()).rgb(), a.rgb());
}
