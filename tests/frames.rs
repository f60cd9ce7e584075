use blinkt::frame::{end_frame_length, led_bytes, zero_bytes};
use blinkt::spi::{Bus, Mode, SlaveSelect};
use blinkt::{Blinkt, BlinktGpio, BlinktSpi, Pixel, SerialOutput, TeardownAction};

fn stream_len(b: &Blinkt) -> usize {
    let f = b.show().unwrap();
    f.start.len() + f.leds.len() + f.end.len()
}

#[test]
fn end_frame_length_formula() {
    assert_eq!(end_frame_length(0), 4);
    assert_eq!(end_frame_length(1), 5);
    assert_eq!(end_frame_length(8), 5);
    assert_eq!(end_frame_length(16), 5);
    assert_eq!(end_frame_length(17), 6);
    assert_eq!(end_frame_length(144), 13);
    assert_eq!(end_frame_length(145), 14);
}

#[test]
fn frame_length_for_many_pixel_counts() {
    for n in [0usize, 1, 2, 8, 15, 16, 17, 31, 32, 33, 144] {
        let b = Blinkt::with_settings(23, 24, n);
        let expected = 4 + 4 * n + (4 + (n + 15) / 16);
        assert_eq!(stream_len(&b), expected);
    }
}

#[test]
fn zero_pixels_gives_start_and_end_frames_only() {
    let b = Blinkt::with_spi(BlinktSpi::default(), 0);
    let f = b.show().unwrap();
    assert_eq!(f.start, vec![0u8; 4]);
    assert!(f.leds.is_empty());
    assert_eq!(f.end, vec![0u8; 4]);
}

#[test]
fn eight_red_pixels_at_a_tenth_brightness() {
    let mut b = Blinkt::new();
    b.set_all_pixels(255, 0, 0);
    // 0.1 of full brightness is level floor(0.1 * 31) = 3.
    b.set_all_pixels_brightness_level(3);
    let f = b.show().unwrap();
    assert_eq!(f.start, vec![0u8; 4]);
    let mut leds = Vec::new();
    for _ in 0..8 {
        leds.extend_from_slice(&[0b111_00011, 0x00, 0x00, 0xFF]);
    }
    assert_eq!(f.leds, leds);
    assert_eq!(f.end, vec![0u8; 5]);
    // 4 start bytes, 8 LED frames of 4 bytes, 5 end bytes.
    assert_eq!(f.start.len() + f.leds.len() + f.end.len(), 41);
}

#[test]
fn led_bytes_follow_buffer_order() {
    let mut a = Pixel::default();
    a.set_rgbb_level(1, 2, 3, 31);
    let mut b = Pixel::default();
    b.set_rgbb_level(4, 5, 6, 0);
    assert_eq!(led_bytes(&vec![a, b]), vec![0xFF, 3, 2, 1, 0xE0, 6, 5, 4]);
    assert_eq!(zero_bytes(3), vec![0, 0, 0]);
}

#[test]
fn set_pixel_changes_one_pixel() {
    let mut b = Blinkt::new();
    b.set_pixel(2, 10, 20, 30);
    for i in 0..8 {
        let p = b.pixel(i).unwrap();
        if i == 2 {
            assert_eq!(p.rgbb_level(), (10, 20, 30, 7));
        } else {
            assert_eq!(p.rgbb_level(), (0, 0, 0, 7));
        }
    }
    let f = b.show().unwrap();
    assert_eq!(&f.leds[8..12], &[0xE7, 30, 20, 10]);
}

fn snapshot(b: &Blinkt) -> Vec<u8> {
    b.show().unwrap().leds
}

#[test]
fn out_of_range_index_is_ignored() {
    let mut b = Blinkt::new();
    b.set_all_pixels(1, 2, 3);
    let before = snapshot(&b);
    b.set_pixel(8, 255, 255, 255);
    b.set_pixel(usize::MAX, 255, 255, 255);
    b.set_pixel_rgbb_level(8, 255, 255, 255, 31);
    b.set_pixel_brightness_level(100, 0);
    assert_eq!(snapshot(&b), before);
    assert!(b.pixel(8).is_none());
    assert_eq!(b.num_pixels(), 8);
}

#[test]
fn per_pixel_brightness() {
    let mut b = Blinkt::with_settings(5, 6, 3);
    b.set_pixel_brightness_level(1, 31);
    b.set_pixel_rgbb_level(2, 7, 8, 9, 40);
    assert_eq!(snapshot(&b), vec![0xE7, 0, 0, 0, 0xFF, 0, 0, 0, 0xFF, 9, 8, 7]);
}

#[test]
fn set_all_pixels_rgbb_level_sets_everything() {
    let mut b = Blinkt::with_settings(5, 6, 2);
    b.set_all_pixels_rgbb_level(0x11, 0x22, 0x33, 16);
    assert_eq!(snapshot(&b), vec![0xF0, 0x33, 0x22, 0x11, 0xF0, 0x33, 0x22, 0x11]);
}

#[test]
fn clear_keeps_brightness_levels() {
    let mut b = Blinkt::with_settings(5, 6, 2);
    b.set_all_pixels_rgbb_level(9, 9, 9, 2);
    b.clear();
    assert_eq!(snapshot(&b), vec![0xE2, 0, 0, 0, 0xE2, 0, 0, 0]);
}

#[test]
fn teardown_clears_and_shows_once() {
    let mut b = Blinkt::new();
    assert!(b.clear_on_drop());
    b.set_all_pixels_rgbb_level(255, 128, 64, 31);
    match b.teardown() {
        TeardownAction::ShowThenRelease(f) => {
            assert_eq!(f.start, vec![0u8; 4]);
            assert_eq!(f.leds.len(), 32);
            for (j, byte) in f.leds.iter().enumerate() {
                if j % 4 == 0 {
                    assert_eq!(*byte, 0xFF);
                } else {
                    assert_eq!(*byte, 0);
                }
            }
            assert_eq!(f.end, vec![0u8; 5]);
        }
        _ => panic!("expected a clearing frame"),
    }
    assert!(b.is_released());
    assert!(matches!(b.teardown(), TeardownAction::AlreadyReleased));
    assert!(b.show().is_none());
}

#[test]
fn teardown_without_clear_sends_nothing() {
    let mut b = Blinkt::new();
    b.set_clear_on_drop(false);
    assert!(!b.clear_on_drop());
    b.set_all_pixels(1, 2, 3);
    assert!(matches!(b.teardown(), TeardownAction::Release));
    assert_eq!(b.pixel(0).unwrap().rgb(), (1, 2, 3));
    assert!(b.show().is_none());
}

#[test]
fn gpio_levels_are_msb_first() {
    let levels = BlinktGpio::levels(&[0xA5]);
    assert_eq!(levels, vec![true, false, true, false, false, true, false, true]);
    let levels = BlinktGpio::levels(&[0x80, 0x01]);
    let mut expected = vec![false; 16];
    expected[0] = true;
    expected[15] = true;
    assert_eq!(levels, expected);
    assert!(BlinktGpio::levels(&[]).is_empty());
}

#[test]
fn transports_are_recorded() {
    let b = Blinkt::new();
    assert_eq!(b.serial_output(), SerialOutput::Gpio(BlinktGpio::with_settings(23, 24)));
    let spi = BlinktSpi::with_settings(Bus::Spi1, SlaveSelect::Ss2, 32_000_000, Mode::Mode3);
    let b = Blinkt::with_spi(spi, 144);
    assert_eq!(b.serial_output(), SerialOutput::Spi(spi));
    assert_eq!(b.num_pixels(), 144);
    let d = BlinktSpi::default();
    assert_eq!(d.bus, Bus::Spi0);
    assert_eq!(d.slave, SlaveSelect::Ss0);
    assert_eq!(d.clock_speed_hz, 1_000_000);
    assert_eq!(d.mode, Mode::Mode0);
}
