use weact_epaper_154_rs::color::WBRYColor;
use weact_epaper_154_rs::driver::{WeAct154Display, FRAME_BUFFER_SIZE, HEIGHT, WIDTH};

type Display = WeAct154Display<u8, u16, u32, u64, i8>;

fn display() -> Display {
    WeAct154Display::new(1u8, 2u16, 3u32, 4u64, 5i8)
}

#[test]
fn new_display_is_white() {
    let d = display();
    assert_eq!(d.frame_buffer().len(), FRAME_BUFFER_SIZE);
    assert_eq!(FRAME_BUFFER_SIZE as u32, WIDTH * HEIGHT / 4);
    assert!(d.frame_buffer().iter().all(|b| *b == 0x55));
    assert_eq!(d.get_pixel(0, 0), Some(WBRYColor::WHITE));
    assert_eq!(d.get_pixel(199, 199), Some(WBRYColor::WHITE));
    assert_eq!(d.get_pixel(57, 131), Some(WBRYColor::WHITE));
}

#[test]
fn release_returns_the_peripherals() {
    let mut d = display();
    d.set_pixel(3, 4, WBRYColor::RED);
    d.clear(WBRYColor::BLACK);
    assert_eq!(d.release(), (1u8, 2u16, 3u32, 4u64, 5i8));
}

#[test]
fn get_after_set_returns_the_color() {
    let mut d = display();
    for (x, y, c) in [
        (0, 0, WBRYColor::BLACK),
        (1, 0, WBRYColor::RED),
        (2, 0, WBRYColor::YELLOW),
        (3, 0, WBRYColor::BLACK),
        (199, 199, WBRYColor::RED),
        (100, 50, WBRYColor::YELLOW),
    ] {
        d.set_pixel(x, y, c);
        assert_eq!(d.get_pixel(x, y), Some(c));
    }
    assert_eq!(d.get_pixel(0, 0), Some(WBRYColor::BLACK));
    assert_eq!(d.get_pixel(1, 0), Some(WBRYColor::RED));
    assert_eq!(d.get_pixel(4, 0), Some(WBRYColor::WHITE));
}

#[test]
fn set_pixel_packs_msb_first() {
    let mut d = display();
    // Pixel (0, 0) sits in the two most significant bits of byte 0.
    d.set_pixel(0, 0, WBRYColor::RED);
    assert_eq!(d.frame_buffer()[0], 0b11_01_01_01);
    // Pixel (3, 0) sits in the two least significant bits of byte 0.
    d.set_pixel(3, 0, WBRYColor::BLACK);
    assert_eq!(d.frame_buffer()[0], 0b11_01_01_00);
    d.set_pixel(1, 0, WBRYColor::YELLOW);
    assert_eq!(d.frame_buffer()[0], 0b11_10_01_00);
    // Pixel (0, 1) is pixel 200, in byte 50.
    d.set_pixel(0, 1, WBRYColor::BLACK);
    assert_eq!(d.frame_buffer()[50], 0b00_01_01_01);
    // The last pixel is in the last byte.
    d.set_pixel(199, 199, WBRYColor::YELLOW);
    assert_eq!(d.frame_buffer()[FRAME_BUFFER_SIZE - 1], 0b01_01_01_10);
}

#[test]
fn set_pixel_leaves_other_pixels() {
    let mut d = display();
    d.set_pixel(10, 10, WBRYColor::RED);
    let before: Vec<u8> = d.frame_buffer().to_vec();
    d.set_pixel(11, 10, WBRYColor::YELLOW);
    assert_eq!(d.get_pixel(10, 10), Some(WBRYColor::RED));
    assert_eq!(d.get_pixel(12, 10), Some(WBRYColor::WHITE));
    let after = d.frame_buffer();
    let changed: Vec<usize> = (0..FRAME_BUFFER_SIZE).filter(|i| before[*i] != after[*i]).collect();
    assert_eq!(changed, vec![(10 * 200 + 11) / 4]);
}

#[test]
fn last_set_wins_and_same_color_is_no_change() {
    let mut d = display();
    d.set_pixel(5, 6, WBRYColor::RED);
    d.set_pixel(5, 6, WBRYColor::BLACK);
    assert_eq!(d.get_pixel(5, 6), Some(WBRYColor::BLACK));
    let before: Vec<u8> = d.frame_buffer().to_vec();
    d.set_pixel(5, 6, WBRYColor::BLACK);
    assert_eq!(d.frame_buffer(), &before[..]);
}

#[test]
fn out_of_bounds_is_ignored() {
    let mut d = display();
    let before: Vec<u8> = d.frame_buffer().to_vec();
    for (x, y) in [(-1, 0), (0, -1), (200, 0), (0, 200), (i32::MAX, i32::MAX), (i32::MIN, 5)] {
        d.set_pixel(x, y, WBRYColor::RED);
        assert_eq!(d.get_pixel(x, y), None);
    }
    assert_eq!(d.frame_buffer(), &before[..]);
}

#[test]
fn clear_fills_with_the_pattern() {
    let mut d = display();
    for (color, pattern) in [
        (WBRYColor::BLACK, 0x00u8),
        (WBRYColor::WHITE, 0x55u8),
        (WBRYColor::YELLOW, 0xAAu8),
        (WBRYColor::RED, 0xFFu8),
    ] {
        d.set_pixel(7, 7, WBRYColor::WHITE);
        d.clear(color);
        assert!(d.frame_buffer().iter().all(|b| *b == pattern));
        assert_eq!(d.get_pixel(0, 0), Some(color));
        assert_eq!(d.get_pixel(7, 7), Some(color));
        assert_eq!(d.get_pixel(199, 199), Some(color));
    }
}

#[test]
fn frame_buffer_mut_writes_show_in_pixels() {
    let mut d = display();
    {
        let buffer = d.frame_buffer_mut();
        assert_eq!(buffer.len(), FRAME_BUFFER_SIZE);
        buffer[0] = 0b00_10_11_01;
    }
    assert_eq!(d.get_pixel(0, 0), Some(WBRYColor::BLACK));
    assert_eq!(d.get_pixel(1, 0), Some(WBRYColor::YELLOW));
    assert_eq!(d.get_pixel(2, 0), Some(WBRYColor::RED));
    assert_eq!(d.get_pixel(3, 0), Some(WBRYColor::WHITE));
}
