use weact_epaper_154_rs::color::WBRYColor;

#[test]
fn from_bits_maps_each_code() {
    assert_eq!(WBRYColor::from_bits(0b00), WBRYColor::BLACK);
    assert_eq!(WBRYColor::from_bits(0b01), WBRYColor::WHITE);
    assert_eq!(WBRYColor::from_bits(0b10), WBRYColor::YELLOW);
    assert_eq!(WBRYColor::from_bits(0b11), WBRYColor::RED);
}

#[test]
fn from_bits_clamps_values_above_three_to_red() {
    assert_eq!(WBRYColor::from_bits(4), WBRYColor::RED);
    assert_eq!(WBRYColor::from_bits(5), WBRYColor::RED);
    assert_eq!(WBRYColor::from_bits(0x80), WBRYColor::RED);
    assert_eq!(WBRYColor::from_bits(255), WBRYColor::RED);
}

#[test]
fn bits_round_trip() {
    for color in [WBRYColor::BLACK, WBRYColor::WHITE, WBRYColor::YELLOW, WBRYColor::RED] {
        assert!(color.bits() <= 3);
        assert_eq!(WBRYColor::from_bits(color.bits()), color);
    }
    assert_eq!(WBRYColor::BLACK.bits(), 0);
    assert_eq!(WBRYColor::WHITE.bits(), 1);
    assert_eq!(WBRYColor::YELLOW.bits(), 2);
    assert_eq!(WBRYColor::RED.bits(), 3);
}

#[test]
fn default_color_is_white() {
    assert_eq!(WBRYColor::default(), WBRYColor::WHITE);
}

#[test]
fn colors_order_by_code() {
    assert!(WBRYColor::BLACK < WBRYColor::WHITE);
    assert!(WBRYColor::WHITE < WBRYColor::YELLOW);
    assert!(WBRYColor::YELLOW < WBRYColor::RED);
}
