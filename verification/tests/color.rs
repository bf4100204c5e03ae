use swatches::color::{saturating_add, Channel, Color};
use swatches::error::Error;

#[test]
fn default_color_is_black() {
    let c = Color::default();
    assert_eq!(c.rgb(), (0, 0, 0));
    assert_eq!(c.hex(), "000000");
}

#[test]
fn new_keeps_the_channels_in_order() {
    let c = Color::new(1, 2, 3);
    assert_eq!(c.rgb(), (1, 2, 3));
    assert_eq!(c, Color { r: 1, g: 2, b: 3 });
}

#[test]
fn hex_is_lowercase_and_zero_padded() {
    assert_eq!(Color::new(10, 0xab, 255).hex(), "0aabff");
    assert_eq!(Color::new(0, 1, 16).hex(), "000110");
    assert_eq!(Color::new(0x9f, 0xf9, 0x90).hex(), "9ff990");
}

#[test]
fn hex_str_parses_each_pair_as_a_byte() {
    assert_eq!(Color::try_from_hex_str("ff0000"), Ok(Color::new(255, 0, 0)));
    assert_eq!(Color::try_from_hex_str("0a1b2c"), Ok(Color::new(0x0a, 0x1b, 0x2c)));
    assert_eq!(Color::try_from_hex_str("09af90"), Ok(Color::new(0x09, 0xaf, 0x90)));
}

#[test]
fn hex_str_of_wrong_length_is_invalid() {
    assert_eq!(Color::try_from_hex_str(""), Err(Error::InvalidFormat));
    assert_eq!(Color::try_from_hex_str("ff000"), Err(Error::InvalidFormat));
    assert_eq!(Color::try_from_hex_str("ff00000"), Err(Error::InvalidFormat));
}

#[test]
fn hex_str_with_other_characters_is_invalid() {
    assert_eq!(Color::try_from_hex_str("gg0000"), Err(Error::InvalidFormat));
    assert_eq!(Color::try_from_hex_str("#ff000"), Err(Error::InvalidFormat));
    assert_eq!(Color::try_from_hex_str("ff 000"), Err(Error::InvalidFormat));
    assert_eq!(Color::try_from_hex_str("+f+f+f"), Err(Error::InvalidFormat));
    assert_eq!(Color::try_from_hex_str("-10000"), Err(Error::InvalidFormat));
    assert_eq!(Color::try_from_hex_str("0000/0"), Err(Error::InvalidFormat));
    assert_eq!(Color::try_from_hex_str("0000:0"), Err(Error::InvalidFormat));
    assert_eq!(Color::try_from_hex_str("0000`0"), Err(Error::InvalidFormat));
    assert_eq!(Color::try_from_hex_str("0000g0"), Err(Error::InvalidFormat));
}

#[test]
fn hex_str_in_upper_case_is_invalid() {
    assert_eq!(Color::try_from_hex_str("FF0000"), Err(Error::InvalidFormat));
    assert_eq!(Color::try_from_hex_str("ff000A"), Err(Error::InvalidFormat));
}

#[test]
fn hex_str_with_wide_characters_is_invalid() {
    // six bytes, four characters
    assert_eq!(Color::try_from_hex_str("a\u{20ac}12"), Err(Error::InvalidFormat));
    // six characters, none of them a hex digit of the format
    assert_eq!(Color::try_from_hex_str("\u{ff46}\u{ff46}0000"), Err(Error::InvalidFormat));
}

#[test]
fn hex_round_trips_from_text() {
    for s in ["000000", "ffffff", "0123ab", "cdef45", "6789af", "a0b1c2", "f00f0f"] {
        let c = Color::try_from_hex_str(s).unwrap();
        assert_eq!(c.hex(), s);
    }
}

#[test]
fn hex_round_trips_from_every_byte() {
    for v in 0..=255u8 {
        let c = Color::new(v, 255 - v, v ^ 0x5a);
        assert_eq!(Color::try_from_hex_str(&c.hex()), Ok(c));
        assert_eq!(c.hex().len(), 6);
    }
}

#[test]
fn saturating_add_stays_in_the_byte_range() {
    assert_eq!(saturating_add(100, 27), 127);
    assert_eq!(saturating_add(100, -27), 73);
    assert_eq!(saturating_add(250, 10), 255);
    assert_eq!(saturating_add(5, -10), 0);
    assert_eq!(saturating_add(0, 255), 255);
    assert_eq!(saturating_add(255, -255), 0);
    assert_eq!(saturating_add(0, 0), 0);
}

#[test]
fn saturating_add_takes_the_largest_steps() {
    assert_eq!(saturating_add(255, i32::MAX), 255);
    assert_eq!(saturating_add(1, i32::MAX), 255);
    assert_eq!(saturating_add(0, i32::MIN), 0);
    assert_eq!(saturating_add(255, i32::MIN), 0);
}

#[test]
fn adjust_red_changes_red_alone() {
    let mut c = Color::new(10, 20, 30);
    c.adjust_red(64);
    assert_eq!(c.rgb(), (74, 20, 30));
    c.adjust_red(-100);
    assert_eq!(c.rgb(), (0, 20, 30));
}

#[test]
fn adjust_green_changes_green_alone() {
    let mut c = Color::new(10, 200, 30);
    c.adjust_green(64);
    assert_eq!(c.rgb(), (10, 255, 30));
    c.adjust_green(-16);
    assert_eq!(c.rgb(), (10, 239, 30));
}

#[test]
fn adjust_blue_changes_blue_alone() {
    let mut c = Color::new(10, 20, 30);
    c.adjust_blue(-4);
    assert_eq!(c.rgb(), (10, 20, 26));
    c.adjust_blue(1);
    assert_eq!(c.rgb(), (10, 20, 27));
}

#[test]
fn adjust_channel_picks_the_channel() {
    let mut c = Color::new(100, 100, 100);
    c.adjust_channel(Channel::Red, 1);
    c.adjust_channel(Channel::Green, -1);
    c.adjust_channel(Channel::Blue, 200);
    assert_eq!(c.rgb(), (101, 99, 255));
}

#[test]
fn many_adjustments_never_leave_the_byte_range() {
    let mut c = Color::new(128, 128, 128);
    let steps = [64, 64, 64, -1, 1000, -5000, 3, i32::MAX, i32::MIN, 255];
    let expected_red = [192u8, 255, 255, 254, 255, 0, 3, 255, 0, 255];
    for (step, want) in steps.iter().zip(expected_red.iter()) {
        c.adjust_red(*step);
        assert_eq!(c.r, *want);
    }
    assert_eq!((c.g, c.b), (128, 128));
}
