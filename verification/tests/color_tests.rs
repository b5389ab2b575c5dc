use doodle::Color;

#[test]
fn rgb_is_opaque() {
    let c = Color::RGB(10, 20, 30);
    assert_eq!(c, Color { r: 10, g: 20, b: 30, a: 255 });
}

#[test]
fn rgba_keeps_alpha() {
    let c = Color::RGBA(1, 2, 3, 4);
    assert_eq!(c.a, 4);
}
