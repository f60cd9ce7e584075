use blinkt::pixel::{DEFAULT_LEVEL, HEADER_MARKER, MAX_LEVEL};
use blinkt::Pixel;

#[test]
fn default_pixel_is_black_at_level_seven() {
    let p = Pixel::default();
    assert_eq!(p.rgb(), (0, 0, 0));
    assert_eq!(p.brightness_level(), DEFAULT_LEVEL);
    assert_eq!(p.bytes(), &[0xE7, 0, 0, 0][..]);
}

#[test]
fn set_rgb_keeps_brightness() {
    let mut p = Pixel::default();
    p.set_rgb(1, 2, 3);
    assert_eq!(p.rgb(), (1, 2, 3));
    assert_eq!((p.red(), p.green(), p.blue()), (1, 2, 3));
    assert_eq!(p.brightness_level(), 7);
    assert_eq!(p.bytes(), &[0xE7, 3, 2, 1][..]);
}

#[test]
fn single_channel_setters() {
    let mut p = Pixel::default();
    p.set_red(10);
    p.set_green(20);
    p.set_blue(30);
    assert_eq!(p.rgbb_level(), (10, 20, 30, 7));
    p.set_green(0);
    assert_eq!(p.rgb(), (10, 0, 30));
}

#[test]
fn wire_byte_order_at_full_brightness() {
    let mut p = Pixel::default();
    p.set_rgbb_level(0xAA, 0xBB, 0xCC, MAX_LEVEL);
    assert_eq!(p.bytes(), &[0xFF, 0xCC, 0xBB, 0xAA][..]);
}

#[test]
fn brightness_level_round_trip() {
    for level in 0..=31u8 {
        let mut p = Pixel::default();
        p.set_brightness_level(level);
        assert_eq!(p.brightness_level(), level);
        assert_eq!(p.bytes()[0] & HEADER_MARKER, HEADER_MARKER);
        assert_eq!(p.bytes()[0], 0xE0 | level);
    }
}

#[test]
fn brightness_level_is_clamped() {
    let mut top = Pixel::default();
    top.set_brightness_level(MAX_LEVEL);
    for level in 32..=255u8 {
        let mut p = Pixel::default();
        p.set_brightness_level(level);
        assert_eq!(p.brightness_level(), 31);
        assert_eq!(p.bytes(), top.bytes());
    }
    let mut zero = Pixel::default();
    zero.set_brightness_level(0);
    assert_eq!(zero.bytes()[0], 0xE0);
}

#[test]
fn clear_keeps_brightness() {
    let mut p = Pixel::default();
    p.set_rgbb_level(9, 8, 7, 20);
    p.clear();
    assert_eq!(p.rgbb_level(), (0, 0, 0, 20));
    assert_eq!(p.bytes(), &[0xF4, 0, 0, 0][..]);
}
