use vstd::prelude::*;

verus! {

/// Byte `0` (the least significant) of a 32-bit word.
pub open spec fn byte0(x: u32) -> int {
    (x as int) % 0x100
}

/// Byte `1` of a 32-bit word.
pub open spec fn byte1(x: u32) -> int {
    (x as int / 0x100) % 0x100
}

/// Byte `2` of a 32-bit word.
pub open spec fn byte2(x: u32) -> int {
    (x as int / 0x1_0000) % 0x100
}

/// Byte `3` (the most significant) of a 32-bit word.
pub open spec fn byte3(x: u32) -> int {
    x as int / 0x100_0000
}

/// The 32-bit word whose bytes, from the most significant, are `b3 b2 b1 b0`.
pub open spec fn pack(b3: int, b2: int, b1: int, b0: int) -> int {
    b3 * 0x100_0000 + b2 * 0x1_0000 + b1 * 0x100 + b0
}

/// The word with the byte order of `x` reversed.
pub open spec fn swapped(x: u32) -> int {
    pack(byte0(x), byte1(x), byte2(x), byte3(x))
}

proof fn lemma_pack_bits(b3: u8, b2: u8, b1: u8, b0: u8)
    by (bit_vector)
    ensures
        (b3 as u32) << 24u32 | (b2 as u32) << 16u32 | (b1 as u32) << 8u32 | (b0 as u32)
            == b3 as u32 * 0x100_0000 + b2 as u32 * 0x1_0000 + b1 as u32 * 0x100 + b0 as u32,
{
}

proof fn lemma_byte_bits(x: u32)
    by (bit_vector)
    ensures
        x & 0xff == x % 0x100,
        (x >> 8u32) & 0xff == (x / 0x100) % 0x100,
        (x >> 16u32) & 0xff == (x / 0x1_0000) % 0x100,
        x >> 24u32 == x / 0x100_0000,
        x & 0x00ff_ffff == x % 0x100_0000,
        x & 0xffff_ff00 == x - x % 0x100,
        (x << 8u32) | 0xff == (x % 0x100_0000) * 0x100 + 0xff,
{
}

/// The bytes of a word, as the mask-and-shift expressions that extract them
/// compute them.
pub proof fn lemma_word_bytes(x: u32)
    ensures
        x & 0xff == byte0(x),
        (x >> 8u32) & 0xff == byte1(x),
        (x >> 16u32) & 0xff == byte2(x),
        x >> 24u32 == byte3(x),
        0 <= byte3(x) < 0x100,
{
    lemma_byte_bits(x);
    lemma_bytes_pack(x);
}

/// The bytes of a word read back from `pack` are the packed bytes.
pub proof fn lemma_pack_bytes(b3: int, b2: int, b1: int, b0: int)
    requires
        0 <= b3 < 0x100,
        0 <= b2 < 0x100,
        0 <= b1 < 0x100,
        0 <= b0 < 0x100,
    ensures
        0 <= pack(b3, b2, b1, b0) <= u32::MAX,
        byte0(pack(b3, b2, b1, b0) as u32) == b0,
        byte1(pack(b3, b2, b1, b0) as u32) == b1,
        byte2(pack(b3, b2, b1, b0) as u32) == b2,
        byte3(pack(b3, b2, b1, b0) as u32) == b3,
{
    let p = pack(b3, b2, b1, b0);
    assert(p == ((b3 * 0x100 + b2) * 0x100 + b1) * 0x100 + b0);
    let q1 = (b3 * 0x100 + b2) * 0x100 + b1;
    let q2 = b3 * 0x100 + b2;
    assert(p / 0x100 == q1 && p % 0x100 == b0) by (nonlinear_arith)
        requires p == q1 * 0x100 + b0, 0 <= b0 < 0x100, q1 >= 0;
    assert(q1 / 0x100 == q2 && q1 % 0x100 == b1) by (nonlinear_arith)
        requires q1 == q2 * 0x100 + b1, 0 <= b1 < 0x100, q2 >= 0;
    assert(q2 / 0x100 == b3 && q2 % 0x100 == b2) by (nonlinear_arith)
        requires q2 == b3 * 0x100 + b2, 0 <= b2 < 0x100, b3 >= 0;
    assert(p / 0x1_0000 == (p / 0x100) / 0x100) by (nonlinear_arith)
        requires p >= 0;
    assert(p / 0x100_0000 == ((p / 0x100) / 0x100) / 0x100) by (nonlinear_arith)
        requires p >= 0;
}

/// A word is the packing of its own bytes.
pub proof fn lemma_bytes_pack(x: u32)
    ensures
        pack(byte3(x), byte2(x), byte1(x), byte0(x)) == x,
        0 <= byte0(x) < 0x100,
        0 <= byte1(x) < 0x100,
        0 <= byte2(x) < 0x100,
        0 <= byte3(x) < 0x100,
{
    let v = x as int;
    assert(v == (v / 0x100) * 0x100 + v % 0x100) by (nonlinear_arith);
    let q1 = v / 0x100;
    assert(q1 == (q1 / 0x100) * 0x100 + q1 % 0x100) by (nonlinear_arith);
    let q2 = q1 / 0x100;
    assert(q2 == (q2 / 0x100) * 0x100 + q2 % 0x100) by (nonlinear_arith);
    assert(v / 0x1_0000 == q2) by (nonlinear_arith)
        requires q1 == v / 0x100, q2 == q1 / 0x100, v >= 0;
    assert(v / 0x100_0000 == q2 / 0x100) by (nonlinear_arith)
        requires q1 == v / 0x100, q2 == q1 / 0x100, v >= 0;
    assert(v / 0x100_0000 < 0x100) by (nonlinear_arith)
        requires 0 <= v < 0x1_0000_0000;
}

/// Packs four channels into one word, `a` in the most significant byte.
pub fn pack_channels(a: u8, b: u8, g: u8, r: u8) -> (w: u32)
    ensures
        w == pack(a as int, b as int, g as int, r as int),
{
    proof {
        lemma_pack_bits(a, b, g, r);
    }
    (a as u32) << 24u32 | (b as u32) << 16u32 | (g as u32) << 8u32 | (r as u32)
}

/// Reverses the byte order of a word.
pub fn swap_bytes(x: u32) -> (w: u32)
    ensures
        w == swapped(x),
{
    proof {
        lemma_byte_bits(x);
    }
    pack_channels(
        (x & 0xff) as u8,
        ((x >> 8u32) & 0xff) as u8,
        ((x >> 16u32) & 0xff) as u8,
        (x >> 24u32) as u8,
    )
}

/// A 32-bit color stored in the PSP's native A8B8G8R8 layout: alpha in the
/// most significant byte, red in the least significant one.
#[derive(Clone, Copy, Default)]
pub struct Color32(u32);

impl View for Color32 {
    type V = u32;

    /// The native A8B8G8R8 word.
    closed spec fn view(&self) -> u32 {
        self.0
    }
}

impl Color32 {
    /// The ABGR word of black (RGB 0x000000); `from_abgr` makes the color.
    pub const BLACK: u32 = 0xff000000;
    /// The ABGR word of red (RGB 0xff0000); `from_abgr` makes the color.
    pub const RED: u32 = 0xff0000ff;
    /// The ABGR word of green (RGB 0x00ff00); `from_abgr` makes the color.
    pub const GREEN: u32 = 0xff00ff00;
    /// The ABGR word of blue (RGB 0x0000ff); `from_abgr` makes the color.
    pub const BLUE: u32 = 0xffff0000;
    /// The ABGR word of white (RGB 0xffffff); `from_abgr` makes the color.
    pub const WHITE: u32 = 0xffffffff;
    /// The ABGR word of yellow (RGB 0xffff00); `from_abgr` makes the color.
    pub const YELLOW: u32 = 0xff00ffff;
    /// The ABGR word of cyan (RGB 0x00ffff); `from_abgr` makes the color.
    pub const CYAN: u32 = 0xffffff00;
    /// The ABGR word of magenta (RGB 0xff00ff); `from_abgr` makes the color.
    pub const MAGENTA: u32 = 0xffff00ff;
    /// The ABGR word of purple (RGB 0x800080); `from_abgr` makes the color.
    pub const PURPLE: u32 = 0xff800080;
    /// The ABGR word of orange (RGB 0xffa500); `from_abgr` makes the color.
    pub const ORANGE: u32 = 0xff00a5ff;
    /// The ABGR word of brown (RGB 0xa52a2a); `from_abgr` makes the color.
    pub const BROWN: u32 = 0xff2a2aa5;
    /// The ABGR word of pink (RGB 0xffc0cb); `from_abgr` makes the color.
    pub const PINK: u32 = 0xffcbc0ff;
    /// The ABGR word of gray (RGB 0x808080); `from_abgr` makes the color.
    pub const GRAY: u32 = 0xff808080;
    /// The ABGR word of light gray (RGB 0xd3d3d3); `from_abgr` makes the color.
    pub const LIGHT_GRAY: u32 = 0xffd3d3d3;
    /// The ABGR word of dark gray (RGB 0x404040); `from_abgr` makes the color.
    pub const DARK_GRAY: u32 = 0xff404040;
    /// The ABGR word of transparent black; `from_abgr` makes the color.
    pub const TRANSPARENT: u32 = 0x0000_0000;

    /// Creates a color from an integer in the R8G8B8A8 format.
    pub fn from_rgba(x: u32) -> (c: Self)
        ensures
            c@ == swapped(x),
    {
        Color32(swap_bytes(x))
    }

    /// Creates a color from its red, green, blue and alpha channels.
    pub fn from_rgba_channels(r: u8, g: u8, b: u8, a: u8) -> (c: Self)
        ensures
            c@ == pack(a as int, b as int, g as int, r as int),
    {
        Self::from_abgr_channels(a, b, g, r)
    }

    /// Creates a color from an integer in the A8B8G8R8 format (native PSP).
    pub fn from_abgr(x: u32) -> (c: Self)
        ensures
            c@ == x,
    {
        Color32(x)
    }

    /// Creates a color from its alpha, blue, green and red channels.
    pub fn from_abgr_channels(a: u8, b: u8, g: u8, r: u8) -> (c: Self)
        ensures
            c@ == pack(a as int, b as int, g as int, r as int),
    {
        Color32(pack_channels(a, b, g, r))
    }

    /// Creates a color from an integer in the B8G8R8 format (native PSP
    /// without alpha); the alpha byte of the result is zero.
    pub fn from_bgr(x: u32) -> (c: Self)
        ensures
            c@ == x % 0x100_0000,
    {
        proof {
            lemma_byte_bits(x);
        }
        Color32(x & 0x00ff_ffff)
    }

    /// Creates an opaque color from its blue, green and red channels.
    pub fn from_bgr_channels(b: u8, g: u8, r: u8) -> (c: Self)
        ensures
            c@ == pack(0xff, b as int, g as int, r as int),
    {
        Self::from_abgr_channels(0xff, b, g, r)
    }

    /// Creates an opaque color from an integer in the R8G8B8 format (the
    /// most significant byte of `x` is ignored).
    pub fn from_rgb(x: u32) -> (c: Self)
        ensures
            c@ == pack(0xff, byte0(x), byte1(x), byte2(x)),
    {
        proof {
            lemma_byte_bits(x);
        }
        let w = (x << 8u32) | 0xff;
        let c = Self::from_rgba(w);
        proof {
            let m = x % 0x100_0000;
            lemma_bytes_pack(x);
            assert(w == pack(byte2(x), byte1(x), byte0(x), 0xff)) by (nonlinear_arith)
                requires
                    w == m * 0x100 + 0xff,
                    x as int == byte3(x) * 0x100_0000 + m,
                    m == pack(0, byte2(x), byte1(x), byte0(x)),
                    0 <= m < 0x100_0000,
            {
                assert(x as int % 0x100_0000 == m);
            }
            lemma_pack_bytes(byte2(x), byte1(x), byte0(x), 0xff);
        }
        c
    }

    /// Creates an opaque color from its red, green and blue channels.
    pub fn from_rgb_channels(r: u8, g: u8, b: u8) -> (c: Self)
        ensures
            c@ == pack(0xff, b as int, g as int, r as int),
    {
        Self::from_abgr_channels(0xff, b, g, r)
    }

    /// The color in the R8G8B8A8 format.
    pub fn as_rgba(&self) -> (x: u32)
        ensures
            x == swapped(self@),
    {
        swap_bytes(self.0)
    }

    /// The color in the A8B8G8R8 format (native PSP).
    pub fn as_abgr(&self) -> (x: u32)
        ensures
            x == self@,
    {
        self.0
    }

    /// The color in the B8G8R8 format (native PSP without alpha).
    pub fn as_bgr(&self) -> (x: u32)
        ensures
            x == self@ % 0x100_0000,
    {
        proof {
            lemma_byte_bits(self.0);
        }
        self.0 & 0x00ff_ffff
    }

    /// The color in the R8G8B8 format (without alpha): red in bits 16..24,
    /// green in bits 8..16, blue in bits 0..8, as `from_rgb` takes it.
    pub fn as_rgb(&self) -> (x: u32)
        ensures
            x == pack(0, byte0(self@), byte1(self@), byte2(self@)),
    {
        pack_channels(0, self.r(), self.g(), self.b())
    }

    /// The red channel.
    pub fn r(&self) -> (v: u8)
        ensures
            v == byte0(self@),
    {
        proof {
            lemma_byte_bits(self.0);
        }
        (self.0 & 0xff) as u8
    }

    /// The green channel.
    pub fn g(&self) -> (v: u8)
        ensures
            v == byte1(self@),
    {
        proof {
            lemma_byte_bits(self.0);
        }
        ((self.0 >> 8u32) & 0xff) as u8
    }

    /// The blue channel.
    pub fn b(&self) -> (v: u8)
        ensures
            v == byte2(self@),
    {
        proof {
            lemma_byte_bits(self.0);
        }
        ((self.0 >> 16u32) & 0xff) as u8
    }

    /// The alpha channel.
    pub fn a(&self) -> (v: u8)
        ensures
            v == byte3(self@),
    {
        proof {
            lemma_byte_bits(self.0);
            lemma_bytes_pack(self.0);
        }
        (self.0 >> 24u32) as u8
    }
}

/// Reading a color back in the order it was written in gives what was
/// written: RGBA words round-trip through `from_rgba` and `as_rgba`, RGB
/// words (their low 24 bits) through `from_rgb` and `as_rgb`, and each
/// channel given to `from_rgba_channels` is read back by its getter.
pub proof fn law_color_round_trips(x: u32, r: u8, g: u8, b: u8, a: u8)
    ensures
        swapped(swapped(x) as u32) == x,
        ({
            let c = pack(0xff, byte0(x), byte1(x), byte2(x)) as u32;
            pack(0, byte0(c), byte1(c), byte2(c)) == x % 0x100_0000
        }),
        ({
            let c = pack(a as int, b as int, g as int, r as int) as u32;
            &&& byte0(c) == r
            &&& byte1(c) == g
            &&& byte2(c) == b
            &&& byte3(c) == a
        }),
{
    lemma_bytes_pack(x);
    lemma_pack_bytes(byte0(x), byte1(x), byte2(x), byte3(x));
    lemma_pack_bytes(a as int, b as int, g as int, r as int);
    lemma_pack_bytes(0xff, byte0(x), byte1(x), byte2(x));
    let v = x as int;
    assert(v % 0x100_0000 == pack(0, byte2(x), byte1(x), byte0(x))) by {
        vstd::arithmetic::div_mod::lemma_fundamental_div_mod_converse(
            v,
            0x100_0000,
            byte3(x),
            pack(0, byte2(x), byte1(x), byte0(x)),
        );
    }
}

/// The named colors are the words `from_rgb` makes of their RGB values
/// (opaque), and transparent is the word `from_rgba` makes of zero.
pub proof fn lemma_named_colors()
    ensures
        Color32::BLACK == pack(0xff, byte0(0x000000u32), byte1(0x000000u32), byte2(0x000000u32)),
        Color32::RED == pack(0xff, byte0(0xff0000u32), byte1(0xff0000u32), byte2(0xff0000u32)),
        Color32::GREEN == pack(0xff, byte0(0x00ff00u32), byte1(0x00ff00u32), byte2(0x00ff00u32)),
        Color32::BLUE == pack(0xff, byte0(0x0000ffu32), byte1(0x0000ffu32), byte2(0x0000ffu32)),
        Color32::WHITE == pack(0xff, byte0(0xffffffu32), byte1(0xffffffu32), byte2(0xffffffu32)),
        Color32::YELLOW == pack(0xff, byte0(0xffff00u32), byte1(0xffff00u32), byte2(0xffff00u32)),
        Color32::CYAN == pack(0xff, byte0(0x00ffffu32), byte1(0x00ffffu32), byte2(0x00ffffu32)),
        Color32::MAGENTA == pack(0xff, byte0(0xff00ffu32), byte1(0xff00ffu32), byte2(0xff00ffu32)),
        Color32::PURPLE == pack(0xff, byte0(0x800080u32), byte1(0x800080u32), byte2(0x800080u32)),
        Color32::ORANGE == pack(0xff, byte0(0xffa500u32), byte1(0xffa500u32), byte2(0xffa500u32)),
        Color32::BROWN == pack(0xff, byte0(0xa52a2au32), byte1(0xa52a2au32), byte2(0xa52a2au32)),
        Color32::PINK == pack(0xff, byte0(0xffc0cbu32), byte1(0xffc0cbu32), byte2(0xffc0cbu32)),
        Color32::GRAY == pack(0xff, byte0(0x808080u32), byte1(0x808080u32), byte2(0x808080u32)),
        Color32::LIGHT_GRAY == pack(0xff, byte0(0xd3d3d3u32), byte1(0xd3d3d3u32), byte2(0xd3d3d3u32)),
        Color32::DARK_GRAY == pack(0xff, byte0(0x404040u32), byte1(0x404040u32), byte2(0x404040u32)),
        Color32::TRANSPARENT == swapped(0u32),
{
}

} // verus!
