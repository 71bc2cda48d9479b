use vstd::prelude::*;

verus! {

/// An RGBA color (red, green, blue, alpha), one byte per channel.
/// Note the order: this is not ARGB.
#[derive(Debug, Clone, Copy, Hash, PartialEq, Eq)]
pub struct Color(pub [u8; 4]);

/// The big-endian packing of four bytes into one 32-bit word:
/// `b0` is the most significant byte.
pub open spec fn be_word(b0: u8, b1: u8, b2: u8, b3: u8) -> u32 {
    (b0 as int * 0x100_0000 + b1 as int * 0x1_0000 + b2 as int * 0x100 + b3 as int) as u32
}

/// The color with the given red, green, blue and alpha channels.
pub open spec fn rgba(r: u8, g: u8, b: u8, a: u8) -> Color {
    Color([r, g, b, a])
}

impl Color {
    pub open spec fn r(self) -> u8 {
        self.0[0]
    }

    pub open spec fn g(self) -> u8 {
        self.0[1]
    }

    pub open spec fn b(self) -> u8 {
        self.0[2]
    }

    pub open spec fn a(self) -> u8 {
        self.0[3]
    }

    /// Builds a color from its red, green, blue and alpha channels.
    pub fn from_rgba(r: u8, g: u8, b: u8, a: u8) -> (c: Color)
        ensures
            c == rgba(r, g, b, a),
    {
        let c = Color([r, g, b, a]);
        assert(c.0 =~= rgba(r, g, b, a).0);
        c
    }

    pub fn transparent() -> (c: Color)
        ensures
            c == rgba(0, 0, 0, 0),
    {
        Color::from_rgba(0, 0, 0, 0)
    }

    pub fn black() -> (c: Color)
        ensures
            c == rgba(0, 0, 0, 0xFF),
    {
        Color::from_rgba(0, 0, 0, 0xFF)
    }

    pub fn white() -> (c: Color)
        ensures
            c == rgba(0xFF, 0xFF, 0xFF, 0xFF),
    {
        Color::from_rgba(0xFF, 0xFF, 0xFF, 0xFF)
    }

    pub fn light_gray() -> (c: Color)
        ensures
            c == rgba(0xDF, 0xDF, 0xDF, 0xFF),
    {
        Color::from_rgba(0xDF, 0xDF, 0xDF, 0xFF)
    }

    pub fn medium_gray() -> (c: Color)
        ensures
            c == rgba(0x7F, 0x7F, 0x7F, 0xFF),
    {
        Color::from_rgba(0x7F, 0x7F, 0x7F, 0xFF)
    }

    pub fn dark_gray() -> (c: Color)
        ensures
            c == rgba(0x1F, 0x1F, 0x1F, 0xFF),
    {
        Color::from_rgba(0x1F, 0x1F, 0x1F, 0xFF)
    }

    pub fn light_yellow() -> (c: Color)
        ensures
            c == rgba(0xFF, 0xFF, 0, 0xFF),
    {
        Color::from_rgba(0xFF, 0xFF, 0, 0xFF)
    }

    pub fn light_green() -> (c: Color)
        ensures
            c == rgba(0, 0xFF, 0, 0xFF),
    {
        Color::from_rgba(0, 0xFF, 0, 0xFF)
    }

    pub fn light_blue() -> (c: Color)
        ensures
            c == rgba(0, 0, 0xFF, 0xFF),
    {
        Color::from_rgba(0, 0, 0xFF, 0xFF)
    }

    pub fn orange() -> (c: Color)
        ensures
            c == rgba(0xFF, 0xA5, 0, 0xFF),
    {
        Color::from_rgba(0xFF, 0xA5, 0, 0xFF)
    }

    pub fn cyan() -> (c: Color)
        ensures
            c == rgba(0, 0xFF, 0xFF, 0xFF),
    {
        Color::from_rgba(0, 0xFF, 0xFF, 0xFF)
    }

    pub fn red() -> (c: Color)
        ensures
            c == rgba(0xFF, 0, 0, 0xFF),
    {
        Color::from_rgba(0xFF, 0, 0, 0xFF)
    }

    /// Packs the color as the word `0xAARRGGBB`.
    pub fn to_argb_u32(self) -> (packed: u32)
        ensures
            packed == be_word(self.a(), self.r(), self.g(), self.b()),
    {
        let r = self.0[0] as u32;
        let g = self.0[1] as u32;
        let b = self.0[2] as u32;
        let a = self.0[3] as u32;
        a * 0x100_0000 + r * 0x1_0000 + g * 0x100 + b
    }

    /// Packs the color as the word `0xRRGGBBAA`.
    pub fn to_rgba_u32(self) -> (packed: u32)
        ensures
            packed == be_word(self.r(), self.g(), self.b(), self.a()),
    {
        let r = self.0[0] as u32;
        let g = self.0[1] as u32;
        let b = self.0[2] as u32;
        let a = self.0[3] as u32;
        r * 0x100_0000 + g * 0x1_0000 + b * 0x100 + a
    }
}

/// The ARGB word is the RGBA word rotated right by one byte: the alpha byte
/// moves from the lowest to the highest position, the rest shift down.
pub proof fn lemma_argb_is_rgba_rotated(c: Color)
    ensures
        be_word(c.a(), c.r(), c.g(), c.b()) as int
            == (be_word(c.r(), c.g(), c.b(), c.a()) as int / 0x100) + c.a() as int * 0x100_0000,
        be_word(c.r(), c.g(), c.b(), c.a()) as int % 0x100 == c.a() as int,
{
}

} // verus!
