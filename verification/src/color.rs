//! Colors for rendering, kept as CSS color strings.

use vstd::prelude::*;

use crate::error::Error;
use crate::text::{debug_quoted, debug_text, push_char};

verus! {

/// The lowercase hexadecimal digit for `d` (0..=15).
pub open spec fn hex_digit(d: u8) -> char {
    if d < 10 {
        (48 + d) as char
    } else {
        (87 + d) as char
    }
}

/// The two lowercase hexadecimal digits of a byte.
pub open spec fn hex_byte(b: u8) -> Seq<char> {
    seq![hex_digit(b / 16), hex_digit(b % 16)]
}

/// The hexadecimal digits of a sequence of bytes, two per byte, in order.
pub open spec fn hex_bytes(bytes: Seq<u8>) -> Seq<char>
    decreases bytes.len(),
{
    if bytes.len() == 0 {
        Seq::empty()
    } else {
        hex_bytes(bytes.drop_last()) + hex_byte(bytes.last())
    }
}

/// The CSS hex notation `#rrggbb` / `#rrggbbaa` of a list of channel values.
pub open spec fn hex_color(channels: Seq<u8>) -> Seq<char> {
    seq!['#'] + hex_bytes(channels)
}

/// Whether `c` is a lowercase hexadecimal digit.
pub open spec fn is_lower_hex_char(c: char) -> bool {
    ('0' <= c && c <= '9') || ('a' <= c && c <= 'f')
}

proof fn lemma_hex_bytes_shape(bytes: Seq<u8>)
    ensures
        hex_bytes(bytes).len() == 2 * bytes.len(),
        forall|i: int| 0 <= i < hex_bytes(bytes).len() ==> is_lower_hex_char(#[trigger] hex_bytes(bytes)[i]),
    decreases bytes.len(),
{
    if bytes.len() > 0 {
        lemma_hex_bytes_shape(bytes.drop_last());
        let b = bytes.last();
        assert(b / 16 < 16 && b % 16 < 16);
    }
}

/// A color built from channel values is a CSS hex color: `#` followed by two
/// lowercase hexadecimal digits per channel (`#rrggbb` or `#rrggbbaa`).
pub proof fn law_channel_color_is_css_hex(channels: Seq<u8>)
    ensures
        hex_color(channels).len() == 1 + 2 * channels.len(),
        hex_color(channels)[0] == '#',
        forall|i: int| 1 <= i < hex_color(channels).len() ==> is_lower_hex_char(#[trigger] hex_color(channels)[i]),
{
    lemma_hex_bytes_shape(channels);
    assert forall|i: int| 1 <= i < hex_color(channels).len() implies is_lower_hex_char(#[trigger] hex_color(channels)[i]) by {
        assert(hex_color(channels)[i] == hex_bytes(channels)[i - 1]);
    }
}

/// The sixteen lowercase hexadecimal digits, in order of value.
pub open spec fn lower_hex_digits() -> Seq<char> {
    seq!['0', '1', '2', '3', '4', '5', '6', '7', '8', '9', 'a', 'b', 'c', 'd', 'e', 'f']
}

proof fn lemma_hex_digit_is_table_entry(d: u8)
    requires
        d < 16,
    ensures
        hex_digit(d) == lower_hex_digits()[d as int],
{
    let t = lower_hex_digits();
    if d == 0 { assert(t[0] == '0'); }
    else if d == 1 { assert(t[1] == '1'); }
    else if d == 2 { assert(t[2] == '2'); }
    else if d == 3 { assert(t[3] == '3'); }
    else if d == 4 { assert(t[4] == '4'); }
    else if d == 5 { assert(t[5] == '5'); }
    else if d == 6 { assert(t[6] == '6'); }
    else if d == 7 { assert(t[7] == '7'); }
    else if d == 8 { assert(t[8] == '8'); }
    else if d == 9 { assert(t[9] == '9'); }
    else if d == 10 { assert(t[10] == 'a'); }
    else if d == 11 { assert(t[11] == 'b'); }
    else if d == 12 { assert(t[12] == 'c'); }
    else if d == 13 { assert(t[13] == 'd'); }
    else if d == 14 { assert(t[14] == 'e'); }
    else { assert(t[15] == 'f'); }
}

proof fn lemma_hex_bytes_positions(bytes: Seq<u8>)
    ensures
        hex_bytes(bytes).len() == 2 * bytes.len(),
        forall|i: int|
            0 <= i < bytes.len() ==> #[trigger] hex_bytes(bytes)[2 * i] == hex_digit(bytes[i] / 16)
                && hex_bytes(bytes)[2 * i + 1] == hex_digit(bytes[i] % 16),
    decreases bytes.len(),
{
    if bytes.len() > 0 {
        let prefix = bytes.drop_last();
        lemma_hex_bytes_positions(prefix);
        assert forall|i: int| 0 <= i < bytes.len() implies #[trigger] hex_bytes(bytes)[2 * i]
            == hex_digit(bytes[i] / 16) && hex_bytes(bytes)[2 * i + 1] == hex_digit(bytes[i] % 16) by {
            if i < bytes.len() - 1 {
                assert(prefix[i] == bytes[i]);
                assert(hex_bytes(prefix)[2 * i] == hex_digit(prefix[i] / 16));
            }
        }
    }
}

/// A color built from channel values spells each channel in order: after the
/// `#`, channel `i` is written at positions `1 + 2 * i` and `2 + 2 * i` as
/// its high and low hexadecimal digit, taken from `0123456789abcdef`. Read
/// back as hexadecimal, the string gives the channels again.
pub proof fn law_channel_color_spells_each_channel(channels: Seq<u8>)
    ensures
        hex_color(channels).len() == 1 + 2 * channels.len(),
        hex_color(channels)[0] == '#',
        forall|i: int|
            0 <= i < channels.len() ==> #[trigger] hex_color(channels)[1 + 2 * i]
                == lower_hex_digits()[(channels[i] / 16) as int] && hex_color(channels)[2 + 2 * i]
                == lower_hex_digits()[(channels[i] % 16) as int],
{
    lemma_hex_bytes_positions(channels);
    assert forall|i: int| 0 <= i < channels.len() implies #[trigger] hex_color(channels)[1 + 2 * i]
        == lower_hex_digits()[(channels[i] / 16) as int] && hex_color(channels)[2 + 2 * i]
        == lower_hex_digits()[(channels[i] % 16) as int] by {
        let b = channels[i];
        assert(hex_bytes(channels)[2 * i] == hex_digit(b / 16));
        assert(hex_bytes(channels)[2 * i + 1] == hex_digit(b % 16));
        lemma_hex_digit_is_table_entry(b / 16);
        lemma_hex_digit_is_table_entry(b % 16);
        assert(hex_color(channels)[1 + 2 * i] == hex_bytes(channels)[2 * i]);
        assert(hex_color(channels)[2 + 2 * i] == hex_bytes(channels)[2 * i + 1]);
    }
}

fn hex_digit_char(d: u8) -> (c: char)
    requires
        d < 16,
    ensures
        c == hex_digit(d),
{
    if d < 10 {
        (48 + d) as char
    } else {
        (87 + d) as char
    }
}

/// A color as accepted by the renderers: a CSS color string such as
/// `"#rrggbb"`, `"#rrggbbaa"` or a color name.
#[derive(Clone, Debug)]
pub struct Color {
    value: String,
}

impl View for Color {
    type V = Seq<char>;

    closed spec fn view(&self) -> Seq<char> {
        self.value@
    }
}

/// The two ways of describing a color.
#[derive(Clone, Debug)]
pub enum ColorInput {
    /// A CSS color string, taken as it is.
    Text(String),
    /// Three (`r, g, b`) or four (`r, g, b, a`) channel values in 0..=255.
    Channels(Vec<u8>),
}

impl Color {
    /// Builds a color: a string is kept as it is; three or four channel
    /// values become `#rrggbb` or `#rrggbbaa` in lowercase hex; any other
    /// number of channels is refused.
    pub fn new(input: ColorInput) -> (r: Result<Color, Error>)
        ensures
            match input {
                ColorInput::Text(s) => r matches Ok(c) && c@ == s@,
                ColorInput::Channels(v) => {
                    &&& (v.len() == 3 || v.len() == 4) <==> r is Ok
                    &&& r matches Ok(c) ==> c@ == hex_color(v@)
                    &&& r matches Ok(c) ==> c@.len() == 1 + 2 * v.len() && c@[0] == '#'
                    &&& r matches Ok(c) ==> forall|i: int|
                        0 <= i < v.len() ==> #[trigger] c@[1 + 2 * i] == lower_hex_digits()[(v[i] / 16) as int]
                            && c@[2 + 2 * i] == lower_hex_digits()[(v[i] % 16) as int]
                    &&& r matches Err(e) ==> e == Error::ColorChannelCount(v.len())
                },
            },
    {
        match input {
            ColorInput::Text(s) => Ok(Color { value: s }),
            ColorInput::Channels(v) => {
                if v.len() == 3 || v.len() == 4 {
                    proof {
                        law_channel_color_spells_each_channel(v@);
                    }
                    Ok(Self::from_channels(&v))
                } else {
                    Err(Error::ColorChannelCount(v.len()))
                }
            },
        }
    }

    /// A color given by its CSS string.
    pub fn from_text(s: String) -> (c: Color)
        ensures
            c@ == s@,
    {
        Color { value: s }
    }

    /// The hex notation of the given channel values.
    fn from_channels(channels: &Vec<u8>) -> (c: Color)
        ensures
            c@ == hex_color(channels@),
    {
        let mut s = String::new();
        push_char(&mut s, '#');
        let mut i: usize = 0;
        while i < channels.len()
            invariant
                i <= channels.len(),
                s@ == seq!['#'] + hex_bytes(channels@.take(i as int)),
            decreases channels.len() - i,
        {
            let b = channels[i];
            push_char(&mut s, hex_digit_char(b / 16));
            push_char(&mut s, hex_digit_char(b % 16));
            assert(channels@.take(i + 1).drop_last() =~= channels@.take(i as int));
            i = i + 1;
        }
        assert(channels@.take(channels.len() as int) =~= channels@);
        Color { value: s }
    }

    /// The CSS color string.
    pub fn as_str(&self) -> (s: &str)
        ensures
            s@ == self@,
    {
        self.value.as_str()
    }

    /// The text form `Color("<string>")`, the string quoted as `Debug` does.
    pub fn repr(&self) -> (r: String)
        ensures
            r@ == "Color("@ + debug_text(self@) + ")"@,
    {
        let mut r = String::from_str("Color(");
        let quoted = debug_quoted(self.value.as_str());
        r.append(quoted.as_str());
        r.append(")");
        r
    }

    /// Whether two colors are given by the same string.
    pub fn same_as(&self, other: &Color) -> (b: bool)
        ensures
            b == (self@ == other@),
    {
        self.value == other.value
    }
}

} // verus!
