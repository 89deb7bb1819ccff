use vstd::prelude::*;

use crate::error::DecodeError;

verus! {

/// The eight colours of the attribute palette, in palette order.
#[derive(Debug, Clone, Copy, PartialEq, Eq, Structural)]
pub enum ColorName {
    Black,
    Blue,
    Red,
    Magenta,
    Green,
    Cyan,
    Yellow,
    White,
}

impl ColorName {
    /// The palette index of a colour: bit 0 is blue, bit 1 red, bit 2 green.
    pub open spec fn index_spec(self) -> u8 {
        match self {
            ColorName::Black => 0,
            ColorName::Blue => 1,
            ColorName::Red => 2,
            ColorName::Magenta => 3,
            ColorName::Green => 4,
            ColorName::Cyan => 5,
            ColorName::Yellow => 6,
            ColorName::White => 7,
        }
    }

    #[verifier::when_used_as_spec(index_spec)]
    pub fn index(self) -> (r: u8)
        ensures
            r == self.index_spec(),
            r < 8,
    {
        match self {
            ColorName::Black => 0,
            ColorName::Blue => 1,
            ColorName::Red => 2,
            ColorName::Magenta => 3,
            ColorName::Green => 4,
            ColorName::Cyan => 5,
            ColorName::Yellow => 6,
            ColorName::White => 7,
        }
    }
}

impl Default for ColorName {
    fn default() -> (r: ColorName)
        ensures
            r == ColorName::Black,
    {
        ColorName::Black
    }
}

impl From<ColorName> for u8 {
    fn from(value: ColorName) -> (r: u8) {
        value.index()
    }
}

impl vstd::std_specs::convert::FromSpecImpl<ColorName> for u8 {
    open spec fn obeys_from_spec() -> bool {
        true
    }

    open spec fn from_spec(v: ColorName) -> u8 {
        v.index_spec()
    }
}

/// A packed colour attribute: ink and paper palette indices, a bright flag,
/// and a flag, never stored in the packed byte, that asks for the paper to
/// be drawn transparent.
#[derive(Debug, Clone, Copy)]
pub struct Attributes {
    /// The ink colour index, 0 to 7.
    pub ink: u8,
    /// The paper colour index, 0 to 7.
    pub paper: u8,
    /// The bright flag.
    pub bright: bool,
    /// Draw the paper as transparent pixels.
    pub transparent_background: bool,
}

/// The attribute that a packed byte holds: ink in bits 0-2, paper in bits
/// 3-5, bright in bit 6; bit 7 is ignored.
pub open spec fn attributes_of_byte(b: u8) -> Attributes {
    Attributes {
        ink: (b % 8) as u8,
        paper: ((b / 8) % 8) as u8,
        bright: (b / 64) % 2 == 1,
        transparent_background: false,
    }
}

/// The packed byte of a well-formed attribute.
pub open spec fn byte_of_attributes(a: Attributes) -> u8 {
    (a.ink + 8 * a.paper + if a.bright { 64int } else { 0int }) as u8
}

/// The intensity of a lit colour channel.
pub open spec fn channel_level(bright: bool) -> u8 {
    if bright { 0xff } else { 0xee }
}

/// The RGBA value of palette index `value`: bit 1 lights red, bit 2 green,
/// bit 0 blue; alpha is 255.
pub open spec fn rgba_of(value: u8, bright: bool) -> Seq<u8> {
    let level = channel_level(bright);
    seq![
        if (value / 2) % 2 == 1 { level } else { 0u8 },
        if (value / 4) % 2 == 1 { level } else { 0u8 },
        if value % 2 == 1 { level } else { 0u8 },
        255u8,
    ]
}

/// The value of one hexadecimal digit.
pub open spec fn hex_digit(c: char) -> Option<int> {
    if '0' <= c && c <= '9' {
        Some(c as int - '0' as int)
    } else if 'a' <= c && c <= 'f' {
        Some(c as int - 'a' as int + 10)
    } else if 'A' <= c && c <= 'F' {
        Some(c as int - 'A' as int + 10)
    } else {
        None
    }
}

/// The value of a string of hexadecimal digits, most significant first.
pub open spec fn hex_digits_value(d: Seq<char>) -> Option<int>
    decreases d.len(),
{
    if d.len() == 0 {
        Some(0)
    } else {
        match (hex_digits_value(d.drop_last()), hex_digit(d.last())) {
            (Some(v), Some(x)) => Some(v * 16 + x),
            _ => None,
        }
    }
}

/// A byte written in hexadecimal: an optional '+', then at least one digit,
/// with a value below 256.
pub open spec fn parse_hex_u8(s: Seq<char>) -> Option<u8> {
    let d = if s.len() > 0 && s[0] == '+' { s.drop_first() } else { s };
    if d.len() == 0 {
        None
    } else {
        match hex_digits_value(d) {
            Some(v) => if v < 256 { Some(v as u8) } else { None },
            None => None,
        }
    }
}

/// Relies on `u8::from_str_radix` with radix 16, which accepts an optional
/// '+' followed by one or more hexadecimal digits whose value fits in a byte.
#[verifier::external_body]
fn parse_hex_byte(s: &str) -> (r: Option<u8>)
    ensures
        r == parse_hex_u8(s@),
{
    u8::from_str_radix(s, 16).ok()
}

impl Attributes {
    /// Ink and paper are palette indices.
    pub open spec fn wf(&self) -> bool {
        self.ink < 8 && self.paper < 8
    }

    /// Equal colours: ink, paper and bright agree; transparency is not
    /// compared.
    pub open spec fn same_color(&self, other: &Attributes) -> bool {
        self.ink == other.ink && self.paper == other.paper && self.bright == other.bright
    }

    /// An opaque attribute with the given ink, paper and brightness.
    pub fn new(ink: ColorName, paper: ColorName, bright: bool) -> (r: Attributes)
        ensures
            r.ink == ink.index_spec(),
            r.paper == paper.index_spec(),
            r.bright == bright,
            !r.transparent_background,
            r.wf(),
    {
        Attributes { ink: ink.index(), paper: paper.index(), bright, transparent_background: false }
    }

    /// An attribute with the given ink and a black, transparent paper.
    pub fn new_transparent_bg(ink: ColorName, bright: bool) -> (r: Attributes)
        ensures
            r.ink == ink.index_spec(),
            r.paper == 0,
            r.bright == bright,
            r.transparent_background,
            r.wf(),
    {
        Attributes {
            ink: ink.index(),
            paper: ColorName::Black.index(),
            bright,
            transparent_background: true,
        }
    }

    /// Unpacks an attribute byte; bit 7 is ignored and the paper is opaque.
    pub fn from_byte(b: u8) -> (r: Attributes)
        ensures
            r == attributes_of_byte(b),
            r.wf(),
    {
        let ink: u8 = b & 0b111;
        let paper: u8 = (b >> 3) & 0b111;
        let bright = ((b >> 6) & 1) == 1;
        assert(b & 0b111 == b % 8) by (bit_vector);
        assert((b >> 3) & 0b111 == (b / 8) % 8) by (bit_vector);
        assert((((b >> 6) & 1) == 1) == ((b / 64) % 2 == 1)) by (bit_vector);
        Attributes { ink, paper, bright, transparent_background: false }
    }

    /// Packs this attribute into a byte: `ink | paper << 3 | bright << 6`.
    /// The transparency flag is not stored.
    pub fn to_byte(&self) -> (r: u8)
        ensures
            r == (self.ink | (self.paper << 3u8) | if self.bright { 64u8 } else { 0u8 }),
            self.wf() ==> r == byte_of_attributes(*self),
    {
        let ink = self.ink;
        let paper = self.paper;
        let bright_bit: u8 = if self.bright { 0b1000000 } else { 0 };
        assert(ink < 8 && paper < 8 && (bright_bit == 64 || bright_bit == 0) ==> (ink | (paper
            << 3u8) | bright_bit) == ink + 8 * paper + bright_bit) by (bit_vector);
        ink | (paper << 3u8) | bright_bit
    }

    /// Parses an attribute written as a hexadecimal byte.
    pub fn try_from_hex(s: &str) -> (r: Result<Attributes, DecodeError>)
        ensures
            match parse_hex_u8(s@) {
                Some(b) => r == Ok::<Attributes, DecodeError>(attributes_of_byte(b)),
                None => r == Err::<Attributes, DecodeError>(DecodeError::InvalidColorByte),
            },
    {
        match parse_hex_byte(s) {
            Some(b) => Ok(Attributes::from_byte(b)),
            None => Err(DecodeError::InvalidColorByte),
        }
    }

    /// The same colours with ink and paper exchanged.
    pub fn inverse(&self) -> (r: Attributes)
        ensures
            r.ink == self.paper,
            r.paper == self.ink,
            r.bright == self.bright,
            r.transparent_background == self.transparent_background,
    {
        Attributes {
            ink: self.paper,
            paper: self.ink,
            bright: self.bright,
            transparent_background: self.transparent_background,
        }
    }

    /// The RGBA value of palette index `value` at this attribute's
    /// brightness.
    pub fn to_rgba(&self, value: u8) -> (r: Vec<u8>)
        ensures
            r@ == rgba_of(value, self.bright),
    {
        let code: u8 = if self.bright { 0xff } else { 0xee };
        let mut red: u8 = 0;
        let mut green: u8 = 0;
        let mut blue: u8 = 0;
        let alpha: u8 = 255;
        assert(((value & 0b010) != 0) == ((value / 2) % 2 == 1)) by (bit_vector);
        assert(((value & 0b100) != 0) == ((value / 4) % 2 == 1)) by (bit_vector);
        assert(((value & 1) != 0) == (value % 2 == 1)) by (bit_vector);
        if (value & 0b010) != 0 {
            red = code;
        }
        if (value & 0b100) != 0 {
            green = code;
        }
        if (value & 1) != 0 {
            blue = code;
        }
        let r = vec![red, green, blue, alpha];
        assert(r@ =~= rgba_of(value, self.bright));
        r
    }

    /// The RGBA value of the ink.
    pub fn ink_rgba(&self) -> (r: Vec<u8>)
        ensures
            r@ == rgba_of(self.ink, self.bright),
    {
        self.to_rgba(self.ink)
    }

    /// The RGBA value of the paper; its alpha is 0 when the paper is
    /// transparent.
    pub fn paper_rgba(&self) -> (r: Vec<u8>)
        ensures
            r@ == paper_rgba_of(*self),
    {
        let mut rgba = self.to_rgba(self.paper);
        if self.transparent_background {
            rgba.set(3, 0);
        }
        assert(rgba@ =~= paper_rgba_of(*self));
        rgba
    }
}

/// The RGBA value of an attribute's paper.
pub open spec fn paper_rgba_of(a: Attributes) -> Seq<u8> {
    let c = rgba_of(a.paper, a.bright);
    if a.transparent_background {
        c.update(3, 0)
    } else {
        c
    }
}

impl PartialEq for Attributes {
    fn eq(&self, other: &Attributes) -> (r: bool) {
        self.ink == other.ink && self.paper == other.paper && self.bright == other.bright
    }
}

impl vstd::std_specs::cmp::PartialEqSpecImpl for Attributes {
    open spec fn obeys_eq_spec() -> bool {
        true
    }

    open spec fn eq_spec(&self, other: &Attributes) -> bool {
        self.same_color(other)
    }
}

impl Eq for Attributes {

}

impl Default for Attributes {
    fn default() -> (r: Attributes)
        ensures
            r.ink == 0 && r.paper == 0 && !r.bright && !r.transparent_background,
    {
        Attributes { ink: 0, paper: 0, bright: false, transparent_background: false }
    }
}

impl From<u8> for Attributes {
    fn from(b: u8) -> (r: Attributes) {
        Attributes::from_byte(b)
    }
}

impl vstd::std_specs::convert::FromSpecImpl<u8> for Attributes {
    open spec fn obeys_from_spec() -> bool {
        true
    }

    open spec fn from_spec(b: u8) -> Attributes {
        attributes_of_byte(b)
    }
}

impl<'a> From<&'a Attributes> for u8 {
    fn from(a: &'a Attributes) -> (r: u8) {
        a.to_byte()
    }
}

impl<'a> vstd::std_specs::convert::FromSpecImpl<&'a Attributes> for u8 {
    open spec fn obeys_from_spec() -> bool {
        true
    }

    open spec fn from_spec(a: &'a Attributes) -> u8 {
        (a.ink | (a.paper << 3u8) | if a.bright { 64u8 } else { 0u8 })
    }
}

/// Unpacking a byte below 128 and packing the result gives the byte back.
pub proof fn lemma_byte_round_trip(b: u8)
    requires
        b < 128,
    ensures
        attributes_of_byte(b).wf(),
        byte_of_attributes(attributes_of_byte(b)) == b,
{
    let a = attributes_of_byte(b);
    assert(a.ink + 8 * a.paper + (if a.bright { 64int } else { 0int }) == b as int) by {
        assert(b < 128 ==> (b % 8) + 8 * ((b / 8) % 8) + 64 * ((b / 64) % 2) == b) by (bit_vector);
    }
}

} // verus!
