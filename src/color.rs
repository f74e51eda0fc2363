//! Packed colors and alpha compositing on 8-bit channels.
use vstd::prelude::*;

verus! {

/// A 24-bit RGB color, the canonical form every surface color converts to.
#[derive(Clone, Copy, Debug, PartialEq, Eq, Structural)]
pub struct Rgb {
    pub r: u8,
    pub g: u8,
    pub b: u8,
}

impl Rgb {
    pub fn new(r: u8, g: u8, b: u8) -> (c: Rgb)
        ensures
            c == (Rgb { r, g, b }),
    {
        Rgb { r, g, b }
    }
}

/// `0xAARRGGBB` with a fully opaque alpha byte.
pub open spec fn packed(c: Rgb) -> u32 {
    (0xFF00_0000 + c.r * 0x1_0000 + c.g * 0x100 + c.b) as u32
}

/// The `(r, g, b, a)` bytes of a packed `0xAARRGGBB` value.
pub open spec fn unpacked(v: u32) -> (u8, u8, u8, u8) {
    (
        ((v / 0x1_0000) % 0x100) as u8,
        ((v / 0x100) % 0x100) as u8,
        (v % 0x100) as u8,
        (v / 0x100_0000) as u8,
    )
}

/// The smallest integer that is at least `n / d`, for `d > 0`.
pub open spec fn ceil_div(n: int, d: int) -> int {
    (n + d - 1) / d
}

/// A channel scaled by `a / 255`, rounded up.
pub open spec fn attenuated(x: u8, a: u8) -> u8 {
    ceil_div(x * a, 255) as u8
}

/// `t * a / 255 + k * (1 - a / 255)`, rounded up.
pub open spec fn mixed(t: u8, a: u8, k: u8) -> u8 {
    ceil_div(t * a + k * (255 - a), 255) as u8
}

/// Foreground `(r, g, b)` at alpha `a` over the opaque backdrop `bg`.
pub open spec fn blended(r: u8, g: u8, b: u8, a: u8, bg: Rgb) -> (u8, u8, u8) {
    (mixed(r, a, bg.r), mixed(g, a, bg.g), mixed(b, a, bg.b))
}

/// The color of one glyph sample: blended over a known backdrop, or, with no
/// backdrop, the plain foreground above half coverage and nothing below.
pub open spec fn sample_color(r: u8, g: u8, b: u8, a: u8, backdrop: Option<Rgb>) -> Option<(u8, u8, u8)> {
    match backdrop {
        Some(bg) => Some(blended(r, g, b, a, bg)),
        None => if a > 127 {
            Some((r, g, b))
        } else {
            None
        },
    }
}

/// Packs a color as `0xFFRRGGBB`.
pub fn pixel_color_to_u32(color: Rgb) -> (v: u32)
    ensures
        v == packed(color),
{
    let r = color.r;
    let g = color.g;
    let b = color.b;
    let v = 0xFF00_0000u32 | ((r as u32) << 16u32) | ((g as u32) << 8u32) | (b as u32);
    assert(v == (0xFF00_0000 + r * 0x1_0000 + g * 0x100 + b) as u32) by (bit_vector)
        requires
            v == 0xFF00_0000u32 | ((r as u32) << 16u32) | ((g as u32) << 8u32) | (b as u32),
    ;
    v
}

/// Splits `0xAARRGGBB` into its `(r, g, b, a)` bytes.
pub fn u32_to_rgba(color: u32) -> (t: (u8, u8, u8, u8))
    ensures
        t == unpacked(color),
{
    let r = ((color & 0x00FF_0000u32) >> 16u32) as u8;
    let g = ((color & 0x0000_FF00u32) >> 8u32) as u8;
    let b = (color & 0x0000_00FFu32) as u8;
    let a = ((color & 0xFF00_0000u32) >> 24u32) as u8;
    assert(r == ((color / 0x1_0000) % 0x100) as u8 && g == ((color / 0x100) % 0x100) as u8 && b
        == (color % 0x100) as u8 && a == (color / 0x100_0000) as u8) by (bit_vector)
        requires
            r == ((color & 0x00FF_0000u32) >> 16u32) as u8,
            g == ((color & 0x0000_FF00u32) >> 8u32) as u8,
            b == (color & 0x0000_00FFu32) as u8,
            a == ((color & 0xFF00_0000u32) >> 24u32) as u8,
    ;
    (r, g, b, a)
}

/// Premultiplies each channel by `a / 255`, rounding up.
pub fn rgba_to_rgb(r: u8, g: u8, b: u8, a: u8) -> (t: (u8, u8, u8))
    ensures
        t == (attenuated(r, a), attenuated(g, a), attenuated(b, a)),
{
    (scale_channel(r, a), scale_channel(g, a), scale_channel(b, a))
}

fn scale_channel(x: u8, a: u8) -> (y: u8)
    ensures
        y == attenuated(x, a),
{
    let xw = x as u32;
    let aw = a as u32;
    assert(xw * aw <= 255 * 255) by (nonlinear_arith)
        requires
            xw <= 255,
            aw <= 255,
    ;
    let n = xw * aw;
    let y = (n + 254) / 255;
    assert(y <= 255);
    y as u8
}

fn mix_channel(t: u8, a: u8, k: u8) -> (y: u8)
    ensures
        y == mixed(t, a, k),
{
    let tw = t as u32;
    let kw = k as u32;
    let aw = a as u32;
    let rest = 255 - aw;
    assert(tw * aw + kw * rest <= 255 * 255) by (nonlinear_arith)
        requires
            tw <= 255,
            kw <= 255,
            aw <= 255,
            rest == 255 - aw,
    ;
    let fore = tw * aw;
    let back = kw * rest;
    let y = (fore + back + 254) / 255;
    assert(y <= 255);
    y as u8
}

/// Composites the foreground `(r, g, b)` at alpha `a` over `background_color`,
/// which is taken as fully opaque.
pub fn rgba_blend(r: u8, g: u8, b: u8, a: u8, background_color: Rgb) -> (t: (u8, u8, u8))
    ensures
        t == blended(r, g, b, a, background_color),
{
    let data = pixel_color_to_u32(background_color);
    let (br, bg, bb, ba) = u32_to_rgba(data);
    proof {
        lemma_unpack_pack(background_color);
    }
    let (br, bg, bb) = rgba_to_rgb(br, bg, bb, ba);
    proof {
        lemma_attenuate_opaque(background_color.r, background_color.g, background_color.b);
    }
    (mix_channel(r, a, br), mix_channel(g, a, bg), mix_channel(b, a, bb))
}

/// The color one glyph sample is drawn with: blended over `background` when
/// one is known, otherwise the foreground itself where the alpha is above
/// 127 and nothing where it is not.
pub fn rgba_background_to_rgb(r: u8, g: u8, b: u8, a: u8, background: Option<Rgb>) -> (t: Option<
    (u8, u8, u8),
>)
    ensures
        t == sample_color(r, g, b, a, background),
{
    match background {
        Some(color) => Some(rgba_blend(r, g, b, a, color)),
        None => if a > 127 {
            Some((r, g, b))
        } else {
            None
        },
    }
}

/// Unpacking a packed color gives back its channels with an opaque alpha.
pub proof fn lemma_unpack_pack(c: Rgb)
    ensures
        unpacked(packed(c)) == (c.r, c.g, c.b, 255u8),
{
    let v = packed(c);
    let (r, g, b) = (c.r, c.g, c.b);
    assert(v == 0xFF00_0000 + r * 0x1_0000 + g * 0x100 + b);
    assert(((v / 0x1_0000) % 0x100) as u8 == r && ((v / 0x100) % 0x100) as u8 == g && (v
        % 0x100) as u8 == b && (v / 0x100_0000) as u8 == 255u8) by (bit_vector)
        requires
            v == 0xFF00_0000 + r * 0x1_0000 + g * 0x100 + b,
    ;
}

/// Attenuating by a full alpha leaves every channel unchanged.
pub proof fn lemma_attenuate_opaque(r: u8, g: u8, b: u8)
    ensures
        (attenuated(r, 255), attenuated(g, 255), attenuated(b, 255)) == (r, g, b),
{
    assert((r * 255 + 254) / 255 == r as int) by (nonlinear_arith)
        requires
            0 <= r <= 255,
    ;
    assert((g * 255 + 254) / 255 == g as int) by (nonlinear_arith)
        requires
            0 <= g <= 255,
    ;
    assert((b * 255 + 254) / 255 == b as int) by (nonlinear_arith)
        requires
            0 <= b <= 255,
    ;
}

/// A larger alpha never attenuates a color more, channel by channel.
pub proof fn lemma_attenuate_monotonic(r: u8, g: u8, b: u8, a1: u8, a2: u8)
    requires
        a1 <= a2,
    ensures
        attenuated(r, a1) <= attenuated(r, a2),
        attenuated(g, a1) <= attenuated(g, a2),
        attenuated(b, a1) <= attenuated(b, a2),
{
    lemma_channel_monotonic(r, a1, a2);
    lemma_channel_monotonic(g, a1, a2);
    lemma_channel_monotonic(b, a1, a2);
}

proof fn lemma_channel_monotonic(x: u8, a1: u8, a2: u8)
    requires
        a1 <= a2,
    ensures
        attenuated(x, a1) <= attenuated(x, a2),
{
    assert(x * a1 <= x * a2) by (nonlinear_arith)
        requires
            a1 <= a2,
            0 <= x,
    ;
    assert(x * a2 <= 255 * 255) by (nonlinear_arith)
        requires
            0 <= x <= 255,
            0 <= a2 <= 255,
    ;
    assert((x * a1 + 254) / 255 <= (x * a2 + 254) / 255) by (nonlinear_arith)
        requires
            x * a1 <= x * a2,
    ;
}

/// A fully opaque foreground hides the backdrop; a fully transparent one
/// shows exactly the backdrop.
pub proof fn lemma_blend_extremes(r: u8, g: u8, b: u8, bg: Rgb)
    ensures
        blended(r, g, b, 255, bg) == (r, g, b),
        blended(r, g, b, 0, bg) == (bg.r, bg.g, bg.b),
{
    lemma_attenuate_opaque(r, g, b);
    lemma_attenuate_opaque(bg.r, bg.g, bg.b);
    assert(r * 255 + 0 * (255 - 255) == r * 255);
    assert(g * 255 + 0 * (255 - 255) == g * 255);
    assert(b * 255 + 0 * (255 - 255) == b * 255);
    assert(r * 0 + bg.r * (255 - 0) == bg.r * 255);
    assert(g * 0 + bg.g * (255 - 0) == bg.g * 255);
    assert(b * 0 + bg.b * (255 - 0) == bg.b * 255);
}

} // verus!
