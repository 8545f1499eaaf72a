use jd79661::JD79661Color;
use jd79661::JD79661Display;
use jd79661::JD79661Theme;
use jd79661::Theme;
use jd79661::BUFFER_LENGTH;

#[test]
fn default_display_is_white() {
    let display = JD79661Display::default();
    let buffer = display.buffer();
    assert_eq!(buffer.len(), BUFFER_LENGTH);
    assert_eq!(buffer.len(), 8000);
    for &byte in buffer.iter() {
        assert_eq!(byte, 0x55);
    }
}

#[test]
fn background_fill_replicates_code_four_times() {
    let mut display = JD79661Display::default();

    display.background_fill(JD79661Color::Black);
    for &byte in display.buffer().iter() {
        assert_eq!(byte, 0x00);
    }

    display.background_fill(JD79661Color::White);
    for &byte in display.buffer().iter() {
        assert_eq!(byte, 0x55);
    }

    display.background_fill(JD79661Color::Yellow);
    for &byte in display.buffer().iter() {
        assert_eq!(byte, 0xAA);
    }

    display.background_fill(JD79661Color::Red);
    for &byte in display.buffer().iter() {
        assert_eq!(byte, 0xFF);
    }
}

#[test]
fn color_codes_match_wire_values() {
    assert_eq!(JD79661Color::Black.to_code(), 0b00);
    assert_eq!(JD79661Color::White.to_code(), 0b01);
    assert_eq!(JD79661Color::Yellow.to_code(), 0b10);
    assert_eq!(JD79661Color::Red.to_code(), 0b11);
    assert_eq!(JD79661Color::default(), JD79661Color::White);
}

#[test]
fn pixel_three_zero_red_sets_leading_bits() {
    // Pre-offset x = 3 lands at post-offset x = 0: the leading two bits of
    // byte 0 change and the other three pixels of that byte stay white.
    let mut display = JD79661Display::default();
    display.set_pixel(3, 0, JD79661Color::Red);
    let buffer = display.buffer();
    assert_eq!(buffer[0], 0b11_01_01_01);
    for i in 1..buffer.len() {
        assert_eq!(buffer[i], 0x55);
    }
}

#[test]
fn set_pixel_writes_only_its_two_bits() {
    // Pre-offset (10, 20) lands at post-offset x = 7, sub-position 3: the
    // lowest two bits of byte 20 * 32 + 1 become yellow's code.
    let mut display = JD79661Display::default();
    display.set_pixel(10, 20, JD79661Color::Yellow);
    let buffer = display.buffer();
    let index = 20 * 32 + 1;
    assert_eq!(buffer[index], 0b01_01_01_10);
    for (i, &byte) in buffer.iter().enumerate() {
        if i != index {
            assert_eq!(byte, 0x55);
        }
    }
}

#[test]
fn two_pixels_sharing_a_byte_keep_each_other() {
    let mut display = JD79661Display::default();
    display.set_pixel(3, 0, JD79661Color::Red);
    display.set_pixel(4, 0, JD79661Color::Black);
    assert_eq!(display.buffer()[0], 0b11_00_01_01);
}

#[test]
fn pixels_left_of_margin_are_dropped() {
    // Pre-offset x of 0, 1 and 2 adjust to negative coordinates.
    let mut display = JD79661Display::default();
    display.set_pixel(0, 0, JD79661Color::Red);
    display.set_pixel(1, 5, JD79661Color::Black);
    display.set_pixel(2, 249, JD79661Color::Yellow);
    for &byte in display.buffer().iter() {
        assert_eq!(byte, 0x55);
    }
}

#[test]
fn pixels_past_width_or_height_are_dropped() {
    let mut display = JD79661Display::default();
    display.set_pixel(131, 0, JD79661Color::Red);
    display.set_pixel(200, 10, JD79661Color::Red);
    display.set_pixel(10, 250, JD79661Color::Red);
    display.set_pixel(10, 300, JD79661Color::Red);
    display.set_pixel(-5, 3, JD79661Color::Red);
    display.set_pixel(7, -1, JD79661Color::Red);
    for &byte in display.buffer().iter() {
        assert_eq!(byte, 0x55);
    }
}

#[test]
fn set_pixels_applies_in_order_and_clips() {
    let mut display = JD79661Display::default();
    let requests = vec![
        (3, 0, JD79661Color::Red),
        (0, 0, JD79661Color::Black),
        (3, 0, JD79661Color::Yellow),
        (131, 17, JD79661Color::Black),
        (6, 0, JD79661Color::Black),
    ];
    display.set_pixels(&requests);
    // The second write to (3, 0) wins; the clipped requests change nothing.
    assert_eq!(display.buffer()[0], 0b10_01_01_00);
    for i in 1..display.buffer().len() {
        assert_eq!(display.buffer()[i], 0x55);
    }
}

#[test]
fn empty_request_list_changes_nothing() {
    let mut display = JD79661Display::default();
    let requests: Vec<(i32, i32, JD79661Color)> = vec![];
    display.set_pixels(&requests);
    for &byte in display.buffer().iter() {
        assert_eq!(byte, 0x55);
    }
}

#[test]
fn bottom_right_corner_is_addressable() {
    // Pre-offset (130, 249) adjusts to (127, 249): the last byte's lowest
    // two bits.
    let mut display = JD79661Display::default();
    display.set_pixel(130, 249, JD79661Color::Black);
    let buffer = display.buffer();
    assert_eq!(buffer[7999], 0b01_01_01_00);
    for i in 0..7999 {
        assert_eq!(buffer[i], 0x55);
    }
}

#[test]
fn theme_picks_black_background_white_text() {
    let theme = JD79661Theme::new();
    assert_eq!(theme.background(), JD79661Color::Black);
    assert_eq!(theme.text(), JD79661Color::White);
}
