//! An RGB color with byte channels, its six-digit hex form, and the raw
//! channel adjustments.

use vstd::prelude::*;
use crate::error::Error;

verus! {

/// A color as three byte channels.
#[derive(Clone, Copy, Debug, PartialEq, Eq, Structural)]
pub struct Color {
    pub r: u8,
    pub g: u8,
    pub b: u8,
}

/// One of the three byte channels of a color.
#[derive(Clone, Copy, Debug, PartialEq, Eq, Structural)]
pub enum Channel {
    Red,
    Green,
    Blue,
}

/// The nearest value to `v` that a byte channel can hold.
pub open spec fn clamp_channel(v: int) -> int {
    if v < 0 {
        0
    } else if v > 255 {
        255
    } else {
        v
    }
}

/// Whether `c` is one of `0`-`9` or `a`-`f`.
pub open spec fn is_hex_digit(c: char) -> bool {
    ('0' <= c && c <= '9') || ('a' <= c && c <= 'f')
}

/// The number that the hex digit `c` stands for.
pub open spec fn digit_value(c: char) -> int
    recommends
        is_hex_digit(c),
{
    if c <= '9' {
        c as int - '0' as int
    } else {
        c as int - 'a' as int + 10
    }
}

/// The lowercase hex digit that stands for `n`.
pub open spec fn digit_char(n: int) -> char
    recommends
        0 <= n < 16,
{
    if n < 10 {
        ('0' as int + n) as char
    } else {
        ('a' as int + n - 10) as char
    }
}

/// The byte written as the two hex digits `hi`, `lo`.
pub open spec fn byte_of_digits(hi: char, lo: char) -> u8
    recommends
        is_hex_digit(hi),
        is_hex_digit(lo),
{
    (16 * digit_value(hi) + digit_value(lo)) as u8
}

/// Whether `s` is the text of a color: exactly six lowercase hex digits.
pub open spec fn is_hex_color(s: Seq<char>) -> bool {
    s.len() == 6 && forall|i: int| 0 <= i < 6 ==> is_hex_digit(#[trigger] s[i])
}

/// The color that the six hex digits of `s` denote.
pub open spec fn parse_hex(s: Seq<char>) -> Color
    recommends
        is_hex_color(s),
{
    Color {
        r: byte_of_digits(s[0], s[1]),
        g: byte_of_digits(s[2], s[3]),
        b: byte_of_digits(s[4], s[5]),
    }
}

/// The six hex digits of a color, two per channel, red first.
pub open spec fn hex_of(c: Color) -> Seq<char> {
    seq![
        digit_char(c.r as int / 16),
        digit_char(c.r as int % 16),
        digit_char(c.g as int / 16),
        digit_char(c.g as int % 16),
        digit_char(c.b as int / 16),
        digit_char(c.b as int % 16),
    ]
}

/// The channel value after `rhs` is added, held within the byte range.
pub fn saturating_add(channel: u8, rhs: i32) -> (res: u8)
    ensures
        res as int == clamp_channel(channel as int + rhs as int),
{
    let sum: i64 = channel as i64 + rhs as i64;
    if sum < 0 {
        0
    } else if sum > 255 {
        255
    } else {
        sum as u8
    }
}

fn hex_digit(n: u8) -> (c: char)
    requires
        n < 16,
    ensures
        c == digit_char(n as int),
{
    if n < 10 {
        (48u8 + n) as char
    } else {
        (87u8 + n) as char
    }
}

/// Whether `c` is one of `0`-`9` or `a`-`f`.
pub fn is_hex_digit_char(c: char) -> (res: bool)
    ensures
        res == is_hex_digit(c),
{
    hex_value(c).is_some()
}

fn hex_value(c: char) -> (v: Option<u8>)
    ensures
        is_hex_digit(c) ==> v == Some(digit_value(c) as u8) && digit_value(c) < 16,
        !is_hex_digit(c) ==> v is None,
{
    let code: u32 = c as u32;
    if 48 <= code && code <= 57 {
        Some((code - 48) as u8)
    } else if 97 <= code && code <= 102 {
        Some((code - 87) as u8)
    } else {
        None
    }
}

fn hex_byte(s: &str, at: usize) -> (v: Option<u8>)
    requires
        s@.len() == 6,
        at < 5,
    ensures
        is_hex_digit(s@[at as int]) && is_hex_digit(s@[at + 1]) ==> v == Some(
            byte_of_digits(s@[at as int], s@[at + 1]),
        ),
        !(is_hex_digit(s@[at as int]) && is_hex_digit(s@[at + 1])) ==> v is None,
{
    match (hex_value(s.get_char(at)), hex_value(s.get_char(at + 1))) {
        (Some(hi), Some(lo)) => Some(16 * hi + lo),
        _ => None,
    }
}

impl Color {
    /// Black.
    pub fn default() -> (c: Self)
        ensures
            c == (Color { r: 0, g: 0, b: 0 }),
    {
        Self::new(0, 0, 0)
    }

    /// The color with the given red, green and blue channels.
    pub fn new(r: u8, g: u8, b: u8) -> (c: Self)
        ensures
            c == (Color { r, g, b }),
    {
        Self { r, g, b }
    }

    /// The color as six lowercase hex digits, zero-padded, red first.
    pub fn hex(&self) -> (s: String)
        ensures
            s@ == hex_of(*self),
    {
        let mut s = String::new();
        s.push(hex_digit(self.r / 16));
        s.push(hex_digit(self.r % 16));
        s.push(hex_digit(self.g / 16));
        s.push(hex_digit(self.g % 16));
        s.push(hex_digit(self.b / 16));
        s.push(hex_digit(self.b % 16));
        assert(s@ =~= hex_of(*self));
        s
    }

    /// The red, green and blue channels.
    pub fn rgb(&self) -> (channels: (u8, u8, u8))
        ensures
            channels == (self.r, self.g, self.b),
    {
        (self.r, self.g, self.b)
    }

    /// Reads a color from its text. Only exactly six lowercase hex digits
    /// are a color; anything else is `Error::InvalidFormat`.
    pub fn try_from_hex_str(hex: &str) -> (res: Result<Self, Error>)
        ensures
            is_hex_color(hex@) ==> res == Ok::<Color, Error>(parse_hex(hex@)),
            !is_hex_color(hex@) ==> res == Err::<Color, Error>(Error::InvalidFormat),
    {
        if hex.unicode_len() != 6 {
            return Err(Error::InvalidFormat);
        }
        match (hex_byte(hex, 0), hex_byte(hex, 2), hex_byte(hex, 4)) {
            (Some(r), Some(g), Some(b)) => Ok(Self::new(r, g, b)),
            _ => Err(Error::InvalidFormat),
        }
    }

    /// Adds `amount` to one channel, held within the byte range; the other
    /// two channels stay as they are.
    pub fn adjust_channel(&mut self, channel: Channel, amount: i32)
        ensures
            *final(self) == old(self).adjusted(channel, amount as int),
    {
        match channel {
            Channel::Red => self.adjust_red(amount),
            Channel::Green => self.adjust_green(amount),
            Channel::Blue => self.adjust_blue(amount),
        }
    }

    /// Adds `amount` to the red channel, held within the byte range.
    pub fn adjust_red(&mut self, amount: i32)
        ensures
            *final(self) == old(self).adjusted(Channel::Red, amount as int),
    {
        self.r = saturating_add(self.r, amount)
    }

    /// Adds `amount` to the green channel, held within the byte range.
    pub fn adjust_green(&mut self, amount: i32)
        ensures
            *final(self) == old(self).adjusted(Channel::Green, amount as int),
    {
        self.g = saturating_add(self.g, amount)
    }

    /// Adds `amount` to the blue channel, held within the byte range.
    pub fn adjust_blue(&mut self, amount: i32)
        ensures
            *final(self) == old(self).adjusted(Channel::Blue, amount as int),
    {
        self.b = saturating_add(self.b, amount)
    }

    /// This color with `amount` added to one channel, held within the byte
    /// range.
    pub open spec fn adjusted(self, channel: Channel, amount: int) -> Color {
        match channel {
            Channel::Red => Color { r: clamp_channel(self.r + amount) as u8, ..self },
            Channel::Green => Color { g: clamp_channel(self.g + amount) as u8, ..self },
            Channel::Blue => Color { b: clamp_channel(self.b + amount) as u8, ..self },
        }
    }
}

/// A clamped value is a byte, whatever was added.
pub proof fn lemma_clamp_is_byte(v: int)
    ensures
        0 <= clamp_channel(v) <= 255,
{
}

/// One raw adjustment lands the adjusted channel on the clamped sum and
/// leaves the other two channels as they were.
pub proof fn lemma_adjusted_channel(c: Color, channel: Channel, amount: int)
    ensures
        c.adjusted(channel, amount).r == if channel == Channel::Red {
            clamp_channel(c.r + amount)
        } else {
            c.r as int
        },
        c.adjusted(channel, amount).g == if channel == Channel::Green {
            clamp_channel(c.g + amount)
        } else {
            c.g as int
        },
        c.adjusted(channel, amount).b == if channel == Channel::Blue {
            clamp_channel(c.b + amount)
        } else {
            c.b as int
        },
{
}

/// The color after a run of raw adjustments, made from first to last.
pub open spec fn adjusted_by(c: Color, steps: Seq<(Channel, int)>) -> Color
    decreases steps.len(),
{
    if steps.len() == 0 {
        c
    } else {
        adjusted_by(c, steps.drop_last()).adjusted(steps.last().0, steps.last().1)
    }
}

/// However many raw adjustments are made, and however large, every channel
/// of the result lies in the byte range.
pub proof fn lemma_adjusted_by_in_range(c: Color, steps: Seq<(Channel, int)>)
    ensures
        0 <= adjusted_by(c, steps).r <= 255,
        0 <= adjusted_by(c, steps).g <= 255,
        0 <= adjusted_by(c, steps).b <= 255,
    decreases steps.len(),
{
    if steps.len() > 0 {
        let before = adjusted_by(c, steps.drop_last());
        lemma_adjusted_by_in_range(c, steps.drop_last());
        lemma_adjusted_channel(before, steps.last().0, steps.last().1);
        lemma_clamp_is_byte(before.r + steps.last().1);
        lemma_clamp_is_byte(before.g + steps.last().1);
        lemma_clamp_is_byte(before.b + steps.last().1);
    }
}

/// Writing out the color that a text denotes gives the text back.
pub proof fn lemma_hex_of_parse(s: Seq<char>)
    requires
        is_hex_color(s),
    ensures
        hex_of(parse_hex(s)) == s,
{
    assert(is_hex_digit(s[0]) && is_hex_digit(s[1]) && is_hex_digit(s[2]));
    assert(is_hex_digit(s[3]) && is_hex_digit(s[4]) && is_hex_digit(s[5]));
    assert(hex_of(parse_hex(s)) =~= s);
}

/// The text of a color is always a color's text, and reading it gives the
/// color back.
pub proof fn lemma_parse_of_hex(c: Color)
    ensures
        is_hex_color(hex_of(c)),
        parse_hex(hex_of(c)) == c,
{
}

} // verus!
