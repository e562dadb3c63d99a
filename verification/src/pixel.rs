//! The ARGB8888 pixel that the software renderer writes into shared memory.
//!
//! A pixel is a 32-bit word in `wl_shm::Format::Argb8888` layout: read as
//! little-endian bytes it is blue, green, red, alpha. Colours are premultiplied.
use vstd::prelude::*;

verus! {

/// A colour whose red, green and blue channels are already multiplied by its alpha.
#[derive(Clone, Copy, Debug, PartialEq, Eq, Structural)]
pub struct PremultipliedRgba {
    pub red: u8,
    pub green: u8,
    pub blue: u8,
    pub alpha: u8,
}

impl PremultipliedRgba {
    /// No colour channel exceeds the alpha channel.
    pub open spec fn is_premultiplied(self) -> bool {
        &&& self.red <= self.alpha
        &&& self.green <= self.alpha
        &&& self.blue <= self.alpha
    }
}

/// Colour channel obtained by drawing `fg` (premultiplied, with opacity `alpha`)
/// over a background channel `bg`.
pub open spec fn over_channel(bg: int, fg: int, alpha: int) -> int {
    bg * (255 - alpha) / 255 + fg
}

/// Opacity obtained by drawing a colour of opacity `src` over a pixel of opacity `dst`.
pub open spec fn over_alpha(dst: int, src: int) -> int {
    dst + src - dst * src / 255
}

/// The 32-bit word whose little-endian bytes are `blue, green, red, alpha`.
pub open spec fn argb_word(blue: int, green: int, red: int, alpha: int) -> int {
    blue + 256 * green + 65536 * red + 16777216 * alpha
}

/// A premultiplied ARGB8888 pixel.
#[derive(Clone, Copy, Debug, PartialEq, Eq, Structural)]
pub struct Argb8888Pixel(pub u32);

impl Argb8888Pixel {
    pub open spec fn blue(self) -> int {
        (self.0 % 256) as int
    }

    pub open spec fn green(self) -> int {
        ((self.0 / 256) % 256) as int
    }

    pub open spec fn red(self) -> int {
        ((self.0 / 65536) % 256) as int
    }

    pub open spec fn alpha(self) -> int {
        (self.0 / 16777216) as int
    }

    /// Every colour channel is at most the alpha channel.
    pub open spec fn is_premultiplied(self) -> bool {
        &&& self.blue() <= self.alpha()
        &&& self.green() <= self.alpha()
        &&& self.red() <= self.alpha()
    }

    /// The pixel left after drawing `color` over this one.
    pub open spec fn drawn_over(self, color: PremultipliedRgba) -> Argb8888Pixel {
        Argb8888Pixel(
            argb_word(
                over_channel(self.blue(), color.blue as int, color.alpha as int),
                over_channel(self.green(), color.green as int, color.alpha as int),
                over_channel(self.red(), color.red as int, color.alpha as int),
                over_alpha(self.alpha(), color.alpha as int),
            ) as u32,
        )
    }

    /// Every channel of `color` drawn over this pixel stays within a byte (true of
    /// any premultiplied colour, see `law_premultiplied_draw_fits`).
    pub open spec fn draw_fits(self, color: PremultipliedRgba) -> bool {
        &&& over_channel(self.blue(), color.blue as int, color.alpha as int) <= 255
        &&& over_channel(self.green(), color.green as int, color.alpha as int) <= 255
        &&& over_channel(self.red(), color.red as int, color.alpha as int) <= 255
    }

    /// Whether `color` can be drawn over this pixel without a channel leaving the byte range.
    pub fn can_blend(&self, color: PremultipliedRgba) -> (b: bool)
        ensures
            b == self.draw_fits(color),
    {
        let word = self.0;
        proof {
            lemma_word_channels(word);
        }
        let inverse: u16 = (255u8 - color.alpha) as u16;
        channel_fits((word & 0xff) as u8, color.blue, inverse) && channel_fits(
            ((word >> 8u32) & 0xff) as u8,
            color.green,
            inverse,
        ) && channel_fits(((word >> 16u32) & 0xff) as u8, color.red, inverse)
    }

    /// Draws `color` over this pixel (source-over compositing of premultiplied colours).
    pub fn blend(&mut self, color: PremultipliedRgba)
        requires
            old(self).draw_fits(color),
        ensures
            *final(self) == old(self).drawn_over(color),
            final(self).blue() == over_channel(old(self).blue(), color.blue as int, color.alpha as int),
            final(self).green() == over_channel(old(self).green(), color.green as int, color.alpha as int),
            final(self).red() == over_channel(old(self).red(), color.red as int, color.alpha as int),
            final(self).alpha() == over_alpha(old(self).alpha(), color.alpha as int),
    {
        let word = self.0;
        proof {
            lemma_word_channels(word);
        }
        let b: u8 = (word & 0xff) as u8;
        let g: u8 = ((word >> 8u32) & 0xff) as u8;
        let r: u8 = ((word >> 16u32) & 0xff) as u8;
        let a: u8 = (word >> 24u32) as u8;
        let inverse: u16 = (255u8 - color.alpha) as u16;
        proof {
            lemma_pixel_channel_ranges(*old(self));
        }
        let nb = over_channel_byte(b, color.blue, inverse);
        let ng = over_channel_byte(g, color.green, inverse);
        let nr = over_channel_byte(r, color.red, inverse);
        let na = over_alpha_byte(a, color.alpha);
        self.0 = pack_argb(nb, ng, nr, na);
    }

    /// An opaque pixel of the given colour.
    pub fn from_rgb(red: u8, green: u8, blue: u8) -> (p: Self)
        ensures
            p.red() == red,
            p.green() == green,
            p.blue() == blue,
            p.alpha() == 255,
            p.0 == argb_word(blue as int, green as int, red as int, 255),
    {
        Argb8888Pixel(pack_argb(blue, green, red, 255u8))
    }

    /// The fully transparent pixel every frame starts from.
    pub fn background() -> (p: Self)
        ensures
            p.0 == 0,
            p.red() == 0 && p.green() == 0 && p.blue() == 0 && p.alpha() == 0,
    {
        Argb8888Pixel(0)
    }
}

impl Default for Argb8888Pixel {
    fn default() -> (p: Self)
        ensures
            p.0 == 0,
    {
        Argb8888Pixel(0)
    }
}

/// The channels of a word, read by shifts and masks, are its base-256 digits.
proof fn lemma_word_channels(w: u32)
    ensures
        (w & 0xff) as int == w % 256,
        ((w >> 8u32) & 0xff) as int == (w / 256) % 256,
        ((w >> 16u32) & 0xff) as int == (w / 65536) % 256,
        (w >> 24u32) as int == w / 16777216,
        (w >> 24u32) < 256,
        w as int == argb_word((w % 256) as int, ((w / 256) % 256) as int, ((w / 65536) % 256) as int, (w / 16777216) as int),
{
    assert((w & 0xff) == w % 256) by (bit_vector);
    assert(((w >> 8u32) & 0xff) == (w / 256) % 256) by (bit_vector);
    assert(((w >> 16u32) & 0xff) == (w / 65536) % 256) by (bit_vector);
    assert((w >> 24u32) == w / 16777216) by (bit_vector);
    assert(w / 16777216 < 256) by (bit_vector);
    assert(w == w % 256 + 256 * ((w / 256) % 256) + 65536 * ((w / 65536) % 256) + 16777216 * (w
        / 16777216)) by (bit_vector);
}

/// Packs four bytes into a word, least significant first.
fn pack_argb(blue: u8, green: u8, red: u8, alpha: u8) -> (w: u32)
    ensures
        w as int == argb_word(blue as int, green as int, red as int, alpha as int),
        w % 256 == blue,
        (w / 256) % 256 == green,
        (w / 65536) % 256 == red,
        w / 16777216 == alpha,
{
    let w: u32 = (blue as u32) | ((green as u32) << 8u32) | ((red as u32) << 16u32) | ((alpha as u32)
        << 24u32);
    proof {
        let b = blue as u32;
        let g = green as u32;
        let r = red as u32;
        let a = alpha as u32;
        assert(b < 256 && g < 256 && r < 256 && a < 256);
        assert(w == b | (g << 8u32) | (r << 16u32) | (a << 24u32));
        assert(b < 256 && g < 256 && r < 256 && a < 256 ==> (b | (g << 8u32) | (r << 16u32) | (a
            << 24u32)) == b + 256 * g + 65536 * r + 16777216 * a) by (bit_vector);
        lemma_word_channels(w);
        assert(w % 256 == blue) by (bit_vector)
            requires
                w == b + 256 * g + 65536 * r + 16777216 * a,
                b == blue,
                b < 256 && g < 256 && r < 256 && a < 256,
        ;
        assert((w / 256) % 256 == g) by (bit_vector)
            requires
                w == b + 256 * g + 65536 * r + 16777216 * a,
                b < 256 && g < 256 && r < 256 && a < 256,
        ;
        assert((w / 65536) % 256 == r) by (bit_vector)
            requires
                w == b + 256 * g + 65536 * r + 16777216 * a,
                b < 256 && g < 256 && r < 256 && a < 256,
        ;
        assert(w / 16777216 == a) by (bit_vector)
            requires
                w == b + 256 * g + 65536 * r + 16777216 * a,
                b < 256 && g < 256 && r < 256 && a < 256,
        ;
    }
    w
}

/// Whether `bg * inverse / 255 + fg` fits in a byte.
fn channel_fits(bg: u8, fg: u8, inverse: u16) -> (b: bool)
    requires
        inverse <= 255,
    ensures
        b == (over_channel(bg as int, fg as int, 255 - inverse) <= 255),
{
    proof {
        assert(bg * inverse <= 255 * 255) by (nonlinear_arith)
            requires
                bg <= 255,
                inverse <= 255,
        ;
    }
    let scaled: u16 = (bg as u16 * inverse) / 255;
    scaled + (fg as u16) <= 255
}

/// `bg * inverse / 255 + fg`, where `inverse` is `255 - alpha`.
fn over_channel_byte(bg: u8, fg: u8, inverse: u16) -> (c: u8)
    requires
        inverse <= 255,
        over_channel(bg as int, fg as int, 255 - inverse) <= 255,
    ensures
        c == over_channel(bg as int, fg as int, 255 - inverse),
{
    proof {
        assert(bg * inverse <= 255 * 255) by (nonlinear_arith)
            requires
                bg <= 255,
                inverse <= 255,
        ;
    }
    let scaled: u16 = (bg as u16 * inverse) / 255;
    (scaled as u8) + fg
}

/// `dst + src - dst * src / 255`, which never leaves the byte range.
fn over_alpha_byte(dst: u8, src: u8) -> (a: u8)
    ensures
        a == over_alpha(dst as int, src as int),
{
    proof {
        assert(dst * src <= 255 * 255) by (nonlinear_arith)
            requires
                dst <= 255,
                src <= 255,
        ;
    }
    let product: u16 = (dst as u16 * src as u16) / 255;
    proof {
        lemma_over_alpha_bounds(dst as int, src as int);
    }
    (dst as u16 + src as u16 - product) as u8
}

/// Drawing over a pixel keeps its opacity within a byte, and never lowers it.
proof fn lemma_over_alpha_bounds(dst: int, src: int)
    requires
        0 <= dst <= 255,
        0 <= src <= 255,
    ensures
        dst * src / 255 <= src,
        dst * src / 255 <= dst,
        dst <= over_alpha(dst, src) <= 255,
        src <= over_alpha(dst, src),
{
    assert(dst * src / 255 <= src) by (nonlinear_arith)
        requires
            0 <= dst <= 255,
            0 <= src <= 255,
    ;
    assert(dst * src / 255 <= dst) by (nonlinear_arith)
        requires
            0 <= dst <= 255,
            0 <= src <= 255,
    ;
    assert(dst * src / 255 >= dst + src - 255) by (nonlinear_arith)
        requires
            0 <= dst <= 255,
            0 <= src <= 255,
    ;
}

/// A word built from four bytes has exactly those bytes as its channels.
proof fn lemma_channels_of_argb_word(b: int, g: int, r: int, a: int)
    requires
        0 <= b < 256,
        0 <= g < 256,
        0 <= r < 256,
        0 <= a < 256,
    ensures
        0 <= argb_word(b, g, r, a) <= u32::MAX,
        Argb8888Pixel(argb_word(b, g, r, a) as u32).blue() == b,
        Argb8888Pixel(argb_word(b, g, r, a) as u32).green() == g,
        Argb8888Pixel(argb_word(b, g, r, a) as u32).red() == r,
        Argb8888Pixel(argb_word(b, g, r, a) as u32).alpha() == a,
{
    let bb = b as u32;
    let gg = g as u32;
    let rr = r as u32;
    let aa = a as u32;
    assert(bb < 256 && gg < 256 && rr < 256 && aa < 256 ==> bb + 256 * gg + 65536 * rr + 16777216
        * aa <= 0xffff_ffff) by (bit_vector);
    let w = argb_word(b, g, r, a) as u32;
    assert(w == bb + 256 * gg + 65536 * rr + 16777216 * aa);
    assert(w % 256 == bb && (w / 256) % 256 == gg && (w / 65536) % 256 == rr && w / 16777216 == aa)
        by (bit_vector)
        requires
            w == bb + 256 * gg + 65536 * rr + 16777216 * aa,
            bb < 256 && gg < 256 && rr < 256 && aa < 256,
    ;
}

/// The channels of a pixel are bytes.
proof fn lemma_pixel_channel_ranges(p: Argb8888Pixel)
    ensures
        0 <= p.blue() < 256,
        0 <= p.green() < 256,
        0 <= p.red() < 256,
        0 <= p.alpha() < 256,
        p.0 as int == argb_word(p.blue(), p.green(), p.red(), p.alpha()),
{
    lemma_word_channels(p.0);
}

/// A premultiplied colour can be drawn over any pixel: no channel overflows.
pub proof fn law_premultiplied_draw_fits(p: Argb8888Pixel, color: PremultipliedRgba)
    requires
        color.is_premultiplied(),
    ensures
        p.draw_fits(color),
{
    lemma_pixel_channel_ranges(p);
    let s = color.alpha as int;
    lemma_scaled_below_inverse(p.blue(), s);
    lemma_scaled_below_inverse(p.green(), s);
    lemma_scaled_below_inverse(p.red(), s);
}

proof fn lemma_scaled_below_inverse(bg: int, alpha: int)
    requires
        0 <= bg <= 255,
        0 <= alpha <= 255,
    ensures
        0 <= bg * (255 - alpha) / 255 <= 255 - alpha,
{
    assert(0 <= bg * (255 - alpha) / 255 <= 255 - alpha) by (nonlinear_arith)
        requires
            0 <= bg <= 255,
            0 <= alpha <= 255,
    ;
}

/// Drawing a fully transparent colour leaves a pixel unchanged.
pub proof fn law_transparent_draw_keeps_pixel(p: Argb8888Pixel)
    ensures
        p.drawn_over(PremultipliedRgba { red: 0, green: 0, blue: 0, alpha: 0 }) == p,
{
    lemma_pixel_channel_ranges(p);
    assert(forall|x: int| 0 <= x < 256 ==> #[trigger] (x * 255) / 255 == x) by (nonlinear_arith);
    assert(p.blue() * 255 / 255 == p.blue());
    assert(p.green() * 255 / 255 == p.green());
    assert(p.red() * 255 / 255 == p.red());
    assert(p.alpha() * 0 / 255 == 0);
}

/// Drawing an opaque colour replaces the pixel by that colour, fully opaque: the
/// pixel `Argb8888Pixel::from_rgb` builds from its red, green and blue.
pub proof fn law_opaque_draw_replaces_pixel(p: Argb8888Pixel, color: PremultipliedRgba)
    requires
        color.alpha == 255,
    ensures
        p.drawn_over(color) == Argb8888Pixel(
            argb_word(color.blue as int, color.green as int, color.red as int, 255) as u32,
        ),
{
    lemma_pixel_channel_ranges(p);
    assert(p.blue() * 0 / 255 == 0);
    assert(p.green() * 0 / 255 == 0);
    assert(p.red() * 0 / 255 == 0);
    assert(p.alpha() * 255 / 255 == p.alpha()) by (nonlinear_arith)
        requires
            0 <= p.alpha() < 256,
    ;
}

/// Drawing over the transparent background yields the drawn colour itself.
pub proof fn law_draw_over_background_is_color(color: PremultipliedRgba)
    ensures
        Argb8888Pixel(0).drawn_over(color) == Argb8888Pixel(
            argb_word(color.blue as int, color.green as int, color.red as int, color.alpha as int)
                as u32,
        ),
{
    let p = Argb8888Pixel(0);
    assert(p.blue() == 0 && p.green() == 0 && p.red() == 0 && p.alpha() == 0);
    assert(0 * (255 - color.alpha as int) == 0);
    assert(0 * (color.alpha as int) == 0);
}

/// Drawing a premultiplied colour over a premultiplied pixel leaves a premultiplied
/// pixel that is at least as opaque as both the pixel and the colour.
pub proof fn law_draw_keeps_premultiplied(p: Argb8888Pixel, color: PremultipliedRgba)
    requires
        p.is_premultiplied(),
        color.is_premultiplied(),
    ensures
        p.drawn_over(color).is_premultiplied(),
        p.drawn_over(color).alpha() >= p.alpha(),
        p.drawn_over(color).alpha() >= color.alpha,
{
    lemma_pixel_channel_ranges(p);
    let a = p.alpha();
    let s = color.alpha as int;
    lemma_over_alpha_bounds(a, s);
    lemma_over_channel_below_alpha(p.blue(), color.blue as int, a, s);
    lemma_over_channel_below_alpha(p.green(), color.green as int, a, s);
    lemma_over_channel_below_alpha(p.red(), color.red as int, a, s);
    lemma_channels_of_argb_word(
        over_channel(p.blue(), color.blue as int, s),
        over_channel(p.green(), color.green as int, s),
        over_channel(p.red(), color.red as int, s),
        over_alpha(a, s),
    );
}

/// A channel no larger than its alpha stays no larger than the composited alpha.
proof fn lemma_over_channel_below_alpha(bg: int, fg: int, dst: int, src: int)
    requires
        0 <= bg <= dst <= 255,
        0 <= fg <= src <= 255,
    ensures
        0 <= over_channel(bg, fg, src) <= over_alpha(dst, src),
{
    assert(bg * (255 - src) / 255 <= dst * (255 - src) / 255) by (nonlinear_arith)
        requires
            0 <= bg <= dst <= 255,
            0 <= src <= 255,
    ;
    assert(dst * (255 - src) / 255 + dst * src / 255 <= dst) by (nonlinear_arith)
        requires
            0 <= dst <= 255,
            0 <= src <= 255,
    ;
    assert(0 <= bg * (255 - src) / 255) by (nonlinear_arith)
        requires
            0 <= bg <= 255,
            0 <= src <= 255,
    ;
}

} // verus!
