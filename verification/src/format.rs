//! Rendering colors as text: one line for each color of a palette.

use vstd::prelude::*;
use crate::color::Color;
use crate::palette::Palette;

verus! {

/// How a color is written out.
#[derive(Debug, Clone, Copy, PartialEq, Eq, Structural)]
pub enum ColorFormat {
    /// `#` and six lowercase hexadecimal digits, two for each channel.
    Hex,
    /// `rgb(R, G, B)` with the channels in decimal.
    Rgb,
}

impl ColorFormat {
    /// The format that the caller's switch selects: hexadecimal unless the
    /// decimal form is asked for.
    pub fn from_rgb_flag(rgb: bool) -> (format: ColorFormat)
        ensures
            format == (if rgb {
                ColorFormat::Rgb
            } else {
                ColorFormat::Hex
            }),
    {
        if rgb {
            ColorFormat::Rgb
        } else {
            ColorFormat::Hex
        }
    }
}

/// The lowercase hexadecimal digit for a value below 16.
pub open spec fn hex_digit(value: int) -> char {
    seq!['0', '1', '2', '3', '4', '5', '6', '7', '8', '9', 'a', 'b', 'c', 'd', 'e', 'f'][value]
}

/// The two hexadecimal digits of a channel, the high one first.
pub open spec fn hex_pair(channel: u8) -> Seq<char> {
    seq![hex_digit(channel as int / 16), hex_digit(channel as int % 16)]
}

/// A color in hexadecimal: `#`, then red, green and blue with two digits each.
pub open spec fn hex_text(color: Color) -> Seq<char> {
    seq!['#'] + hex_pair(color.r) + hex_pair(color.g) + hex_pair(color.b)
}

/// The decimal digit for a value below 10.
pub open spec fn decimal_digit(value: int) -> char {
    seq!['0', '1', '2', '3', '4', '5', '6', '7', '8', '9'][value]
}

/// A number in decimal, with no more digits than it needs.
pub open spec fn decimal_text(n: nat) -> Seq<char>
    decreases n,
{
    if n < 10 {
        seq![decimal_digit(n as int)]
    } else {
        decimal_text(n / 10).push(decimal_digit((n % 10) as int))
    }
}

/// A color as `rgb(R, G, B)`, the channels in decimal.
pub open spec fn rgb_text(color: Color) -> Seq<char> {
    seq!['r', 'g', 'b', '('] + decimal_text(color.r as nat) + seq![',', ' '] + decimal_text(
        color.g as nat,
    ) + seq![',', ' '] + decimal_text(color.b as nat) + seq![')']
}

/// A color in the given format.
pub open spec fn color_text(color: Color, format: ColorFormat) -> Seq<char> {
    match format {
        ColorFormat::Hex => hex_text(color),
        ColorFormat::Rgb => rgb_text(color),
    }
}

/// The line for one color: the color alone, or behind a prefix and an index
/// as in `Color 1: #000000`.
pub open spec fn line_text(
    color: Color,
    format: ColorFormat,
    prefix: Option<Seq<char>>,
    index: nat,
) -> Seq<char> {
    match prefix {
        Some(label) => label + seq![' '] + decimal_text(index) + seq![':', ' '] + color_text(
            color,
            format,
        ),
        None => color_text(color, format),
    }
}

/// The characters of a prefix that was given.
pub open spec fn prefix_text(prefix: Option<&str>) -> Option<Seq<char>> {
    match prefix {
        Some(label) => Some(label@),
        None => None,
    }
}

/// `String::push` of the standard library: the character is appended, as its
/// documentation says.
pub assume_specification[ String::push ](text: &mut String, c: char)
    ensures
        final(text)@ == old(text)@.push(c),
;

/// The code of the character `0`.
const ASCII_ZERO: u8 = 48;

/// The code of the character `a`.
const ASCII_LOWER_A: u8 = 97;

fn hex_digit_of(value: u8) -> (digit: char)
    requires
        value < 16,
    ensures
        digit == hex_digit(value as int),
{
    if value < 10 {
        (ASCII_ZERO + value) as char
    } else {
        (ASCII_LOWER_A + (value - 10)) as char
    }
}

fn decimal_digit_of(value: u8) -> (digit: char)
    requires
        value < 10,
    ensures
        digit == decimal_digit(value as int),
{
    (ASCII_ZERO + value) as char
}

fn push_hex_pair(text: &mut String, channel: u8)
    ensures
        final(text)@ == old(text)@ + hex_pair(channel),
{
    text.push(hex_digit_of(channel / 16));
    text.push(hex_digit_of(channel % 16));
    assert(text@ =~= old(text)@ + hex_pair(channel));
}

fn push_decimal(text: &mut String, n: usize)
    ensures
        final(text)@ == old(text)@ + decimal_text(n as nat),
    decreases n,
{
    if n >= 10 {
        push_decimal(text, n / 10);
    }
    text.push(decimal_digit_of((n % 10) as u8));
    assert(text@ =~= old(text)@ + decimal_text(n as nat));
}

fn push_color(text: &mut String, color: Color, format: ColorFormat)
    ensures
        final(text)@ == old(text)@ + color_text(color, format),
{
    match format {
        ColorFormat::Hex => {
            text.push('#');
            push_hex_pair(text, color.r);
            push_hex_pair(text, color.g);
            push_hex_pair(text, color.b);
        },
        ColorFormat::Rgb => {
            text.push('r');
            text.push('g');
            text.push('b');
            text.push('(');
            push_decimal(text, color.r as usize);
            text.push(',');
            text.push(' ');
            push_decimal(text, color.g as usize);
            text.push(',');
            text.push(' ');
            push_decimal(text, color.b as usize);
            text.push(')');
        },
    }
    assert(text@ =~= old(text)@ + color_text(color, format));
}

impl Color {
    /// The color as `#` and six lowercase hexadecimal digits.
    pub fn to_hex(&self) -> (text: String)
        ensures
            text@ == hex_text(*self),
    {
        let mut text = String::new();
        push_color(&mut text, *self, ColorFormat::Hex);
        assert(text@ =~= hex_text(*self));
        text
    }

    /// The color as `rgb(R, G, B)`.
    pub fn to_rgb(&self) -> (text: String)
        ensures
            text@ == rgb_text(*self),
    {
        let mut text = String::new();
        push_color(&mut text, *self, ColorFormat::Rgb);
        assert(text@ =~= rgb_text(*self));
        text
    }
}

/// The line for one color. `index` counts the colors from 1 and shows only
/// behind a prefix.
pub fn format_color(color: Color, format: ColorFormat, prefix: Option<&str>, index: usize) -> (line:
    String)
    ensures
        line@ == line_text(color, format, prefix_text(prefix), index as nat),
{
    let mut line = String::new();
    match prefix {
        Some(label) => {
            line.append(label);
            line.push(' ');
            push_decimal(&mut line, index);
            line.push(':');
            line.push(' ');
        },
        None => {},
    }
    push_color(&mut line, color, format);
    assert(line@ =~= line_text(color, format, prefix_text(prefix), index as nat));
    line
}

/// The lines for a palette: one for each color, in the palette's order, the
/// first with index 1.
pub fn format_palette(palette: &Palette, format: ColorFormat, prefix: Option<&str>) -> (lines: Vec<
    String,
>)
    ensures
        lines@.len() == palette@.len(),
        forall|i: int|
            0 <= i < palette@.len() ==> (#[trigger] lines@[i])@ == line_text(
                palette@[i],
                format,
                prefix_text(prefix),
                (i + 1) as nat,
            ),
{
    let len: usize = palette.len();
    let mut lines: Vec<String> = Vec::new();
    let mut i: usize = 0;
    while i < len
        invariant
            i <= len,
            len == palette@.len(),
            len <= 255,
            lines@.len() == i,
            forall|k: int|
                0 <= k < i ==> (#[trigger] lines@[k])@ == line_text(
                    palette@[k],
                    format,
                    prefix_text(prefix),
                    (k + 1) as nat,
                ),
        decreases len - i,
    {
        let line = format_color(palette.get(i), format, prefix, i + 1);
        lines.push(line);
        i += 1;
    }
    lines
}

/// The value of a lowercase hexadecimal digit; nothing for any other
/// character.
pub open spec fn hex_value(c: char) -> Option<int> {
    if '0' <= c <= '9' {
        Some(c as int - '0' as int)
    } else if 'a' <= c <= 'f' {
        Some(c as int - 'a' as int + 10)
    } else {
        None
    }
}

/// The channel that two hexadecimal digits stand for.
pub open spec fn channel_of(high: char, low: char) -> Option<u8> {
    match (hex_value(high), hex_value(low)) {
        (Some(h), Some(l)) => Some((16 * h + l) as u8),
        _ => None,
    }
}

/// The color that a text of the hexadecimal form stands for; nothing for any
/// other text.
pub open spec fn color_of_hex(text: Seq<char>) -> Option<Color> {
    if text.len() == 7 && text[0] == '#' {
        match (
            channel_of(text[1], text[2]),
            channel_of(text[3], text[4]),
            channel_of(text[5], text[6]),
        ) {
            (Some(r), Some(g), Some(b)) => Some(Color { r, g, b }),
            _ => None,
        }
    } else {
        None
    }
}

/// The hexadecimal form loses nothing: it is seven characters long, and
/// reading it gives back the color it was written from. Two colors therefore
/// never share their hexadecimal form.
pub proof fn lemma_hex_round_trip(color: Color)
    ensures
        hex_text(color).len() == 7,
        color_of_hex(hex_text(color)) == Some(color),
{
    lemma_hex_pair_read(color.r);
    lemma_hex_pair_read(color.g);
    lemma_hex_pair_read(color.b);
    let text = hex_text(color);
    assert(text[1] == hex_pair(color.r)[0] && text[2] == hex_pair(color.r)[1]);
    assert(text[3] == hex_pair(color.g)[0] && text[4] == hex_pair(color.g)[1]);
    assert(text[5] == hex_pair(color.b)[0] && text[6] == hex_pair(color.b)[1]);
}

/// The two digits of a channel are read back as that channel.
pub proof fn lemma_hex_pair_read(channel: u8)
    ensures
        hex_pair(channel).len() == 2,
        channel_of(hex_pair(channel)[0], hex_pair(channel)[1]) == Some(channel),
{
    let high = channel as int / 16;
    let low = channel as int % 16;
    lemma_hex_digit_value(high);
    lemma_hex_digit_value(low);
}

/// A hexadecimal digit has the value it was written for.
pub proof fn lemma_hex_digit_value(value: int)
    requires
        0 <= value < 16,
    ensures
        hex_value(hex_digit(value)) == Some(value),
{
}

/// The number that a text of decimal digits stands for.
pub open spec fn decimal_value(text: Seq<char>) -> nat
    decreases text.len(),
{
    if text.len() == 0 {
        0
    } else {
        (10 * decimal_value(text.drop_last()) + (text.last() as int - '0' as int)) as nat
    }
}

/// The decimal form is made of digits alone, has no leading zero but for the
/// number 0 itself, and stands for the number it was written from.
pub proof fn lemma_decimal_round_trip(n: nat)
    ensures
        decimal_text(n).len() >= 1,
        forall|i: int| 0 <= i < decimal_text(n).len() ==> '0' <= #[trigger] decimal_text(n)[i] <= '9',
        decimal_text(n)[0] == '0' <==> n == 0,
        decimal_value(decimal_text(n)) == n,
    decreases n,
{
    let digit = decimal_digit((n % 10) as int);
    assert('0' <= digit <= '9' && digit as int - '0' as int == n % 10);
    if n < 10 {
        let text = decimal_text(n);
        assert(text.drop_last() =~= Seq::<char>::empty());
        assert(decimal_value(text.drop_last()) == 0);
    } else {
        lemma_decimal_round_trip(n / 10);
        let front = decimal_text(n / 10);
        let text = decimal_text(n);
        assert(text.drop_last() =~= front);
        assert(text.last() == digit);
        assert(text[0] == front[0]);
    }
}

} // verus!
