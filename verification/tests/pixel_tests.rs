use slint_shell::pixel::{Argb8888Pixel, PremultipliedRgba};

fn rgba(red: u8, green: u8, blue: u8, alpha: u8) -> PremultipliedRgba {
    PremultipliedRgba { red, green, blue, alpha }
}

#[test]
fn from_rgb_is_opaque_little_endian_bgra() {
    let p = Argb8888Pixel::from_rgb(0x12, 0x34, 0x56);
    assert_eq!(p.0.to_le_bytes(), [0x56, 0x34, 0x12, 0xff]);
}

#[test]
fn background_is_transparent_black() {
    assert_eq!(Argb8888Pixel::background().0, 0);
    assert_eq!(Argb8888Pixel::default().0, 0);
}

#[test]
fn blend_transparent_keeps_pixel() {
    let mut p = Argb8888Pixel(0x80402010);
    p.blend(rgba(0, 0, 0, 0));
    assert_eq!(p.0, 0x80402010);
}

#[test]
fn blend_opaque_replaces_pixel() {
    let mut p = Argb8888Pixel(0x80402010);
    p.blend(rgba(200, 100, 50, 255));
    assert_eq!(p, Argb8888Pixel::from_rgb(200, 100, 50));
}

#[test]
fn blend_over_background_gives_color() {
    let mut p = Argb8888Pixel::background();
    p.blend(rgba(10, 20, 30, 40));
    assert_eq!(p.0.to_le_bytes(), [30, 20, 10, 40]);
}

#[test]
fn blend_half_transparent_exact_values() {
    // bg = (b 200, g 100, r 50, a 255); colour (r 64, g 32, b 16, a 128)
    let mut p = Argb8888Pixel(u32::from_le_bytes([200, 100, 50, 255]));
    p.blend(rgba(64, 32, 16, 128));
    // channel: bg * 127 / 255 + fg
    let b = (200u16 * 127 / 255) as u8 + 16;
    let g = (100u16 * 127 / 255) as u8 + 32;
    let r = (50u16 * 127 / 255) as u8 + 64;
    // alpha: a + ca - a * ca / 255
    let a = (255u16 + 128 - 255 * 128 / 255) as u8;
    assert_eq!(p.0.to_le_bytes(), [b, g, r, a]);
    assert_eq!(p.0.to_le_bytes(), [115, 81, 88, 255]);
}

#[test]
fn blend_keeps_premultiplied_and_raises_alpha() {
    let mut p = Argb8888Pixel(u32::from_le_bytes([10, 20, 30, 40]));
    p.blend(rgba(90, 80, 70, 100));
    let [b, g, r, a] = p.0.to_le_bytes();
    assert!(b <= a && g <= a && r <= a);
    assert!(a >= 100 && a >= 40);
    assert_eq!(a, (40u16 + 100 - 40 * 100 / 255) as u8);
}

#[test]
fn blend_full_saturation_does_not_overflow() {
    let mut p = Argb8888Pixel(u32::MAX);
    p.blend(rgba(254, 254, 254, 254));
    assert_eq!(p.0.to_le_bytes(), [255, 255, 255, 255]);
}
