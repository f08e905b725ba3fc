//! The display's native pixel formats.
//!
//! Every format offers the same three operations: `from_rgb` builds an opaque
//! pixel from an eight-bit RGB triplet, keeping the most significant bits of
//! each channel where the format stores fewer than eight; `background` is the
//! all-zero pixel; `blend` composites a premultiplied colour over the stored
//! pixel.
//!
//! The packed sixteen-bit formats blend by widening each stored field to
//! eight bits, running the eight-bit formula, and narrowing the result again
//! by truncation. A colour field widens by a left shift, so its low bits read
//! zero; an alpha field widens so that its largest value reads 255.

use vstd::prelude::*;
use crate::color::blend_alpha;
use crate::color::blend_alpha_u8;
use crate::color::blend_channel;
use crate::color::blend_channel_u8;
use crate::color::PremultipliedColor;

verus! {

/// A 32-bit pixel with eight bits per colour channel and eight bits of alpha.
///
/// In memory the bytes follow each other as alpha, blue, green, red.
#[derive(Clone, Copy, Debug, PartialEq, Eq, Structural)]
pub struct Rgba8Pixel {
    pub alpha: u8,
    pub blue: u8,
    pub green: u8,
    pub red: u8,
}

impl Rgba8Pixel {
    /// The opaque pixel of the given colour.
    pub open spec fn spec_from_rgb(red: u8, green: u8, blue: u8) -> Self {
        Rgba8Pixel { alpha: 255, blue, green, red }
    }

    /// The fully transparent black pixel.
    pub open spec fn spec_background() -> Self {
        Rgba8Pixel { alpha: 0, blue: 0, green: 0, red: 0 }
    }

    /// The pixel that results from compositing `color` over `self`.
    pub open spec fn spec_blend(self, color: PremultipliedColor) -> Self {
        Rgba8Pixel {
            alpha: blend_alpha(self.alpha as int, color.alpha as int) as u8,
            blue: blend_channel(self.blue as int, color.blue as int, color.alpha as int) as u8,
            green: blend_channel(self.green as int, color.green as int, color.alpha as int) as u8,
            red: blend_channel(self.red as int, color.red as int, color.alpha as int) as u8,
        }
    }

    /// Composites `color` over this pixel: every colour channel becomes
    /// `channel * (255 - color.alpha) / 255 + color.channel`, held at 255, and
    /// alpha becomes `alpha + color.alpha - alpha * color.alpha / 255`.
    pub fn blend(&mut self, color: PremultipliedColor)
        ensures
            *final(self) == old(self).spec_blend(color),
            final(self).red == blend_channel(
                old(self).red as int,
                color.red as int,
                color.alpha as int,
            ),
            final(self).green == blend_channel(
                old(self).green as int,
                color.green as int,
                color.alpha as int,
            ),
            final(self).blue == blend_channel(
                old(self).blue as int,
                color.blue as int,
                color.alpha as int,
            ),
            final(self).alpha == blend_alpha(old(self).alpha as int, color.alpha as int),
    {
        self.red = blend_channel_u8(self.red, color.red, color.alpha);
        self.green = blend_channel_u8(self.green, color.green, color.alpha);
        self.blue = blend_channel_u8(self.blue, color.blue, color.alpha);
        self.alpha = blend_alpha_u8(self.alpha, color.alpha);
    }

    /// Builds the opaque pixel of the given colour.
    pub fn from_rgb(red: u8, green: u8, blue: u8) -> (pixel: Self)
        ensures
            pixel == Self::spec_from_rgb(red, green, blue),
            pixel.alpha == 255,
    {
        Rgba8Pixel { alpha: 255, blue, green, red }
    }

    /// The pixel a frame buffer is cleared to.
    pub fn background() -> (pixel: Self)
        ensures
            pixel == Self::spec_background(),
    {
        Rgba8Pixel { alpha: 0, blue: 0, green: 0, red: 0 }
    }
}

/// A 24-bit pixel with eight bits per colour channel and no alpha.
///
/// In memory the bytes follow each other as blue, green, red.
#[derive(Clone, Copy, Debug, PartialEq, Eq, Structural)]
pub struct Bgr8Pixel {
    pub blue: u8,
    pub green: u8,
    pub red: u8,
}

impl Bgr8Pixel {
    /// The pixel of the given colour.
    pub open spec fn spec_from_rgb(red: u8, green: u8, blue: u8) -> Self {
        Bgr8Pixel { blue, green, red }
    }

    /// The black pixel.
    pub open spec fn spec_background() -> Self {
        Bgr8Pixel { blue: 0, green: 0, red: 0 }
    }

    /// The pixel that results from compositing `color` over `self`.
    pub open spec fn spec_blend(self, color: PremultipliedColor) -> Self {
        Bgr8Pixel {
            blue: blend_channel(self.blue as int, color.blue as int, color.alpha as int) as u8,
            green: blend_channel(self.green as int, color.green as int, color.alpha as int) as u8,
            red: blend_channel(self.red as int, color.red as int, color.alpha as int) as u8,
        }
    }

    /// Composites `color` over this pixel: every colour channel becomes
    /// `channel * (255 - color.alpha) / 255 + color.channel`, held at 255.
    /// There is no alpha to update.
    pub fn blend(&mut self, color: PremultipliedColor)
        ensures
            *final(self) == old(self).spec_blend(color),
            final(self).red == blend_channel(
                old(self).red as int,
                color.red as int,
                color.alpha as int,
            ),
            final(self).green == blend_channel(
                old(self).green as int,
                color.green as int,
                color.alpha as int,
            ),
            final(self).blue == blend_channel(
                old(self).blue as int,
                color.blue as int,
                color.alpha as int,
            ),
    {
        self.red = blend_channel_u8(self.red, color.red, color.alpha);
        self.green = blend_channel_u8(self.green, color.green, color.alpha);
        self.blue = blend_channel_u8(self.blue, color.blue, color.alpha);
    }

    /// Builds the pixel of the given colour.
    pub fn from_rgb(red: u8, green: u8, blue: u8) -> (pixel: Self)
        ensures
            pixel == Self::spec_from_rgb(red, green, blue),
    {
        Bgr8Pixel { blue, green, red }
    }

    /// The pixel a frame buffer is cleared to.
    pub fn background() -> (pixel: Self)
        ensures
            pixel == Self::spec_background(),
    {
        Bgr8Pixel { blue: 0, green: 0, red: 0 }
    }
}

/// A 16-bit pixel with five bits per colour channel and one bit of alpha.
///
/// Red occupies bits 11 to 15, green bits 6 to 10, blue bits 1 to 5, and alpha
/// bit 0.
#[derive(Clone, Copy, Debug, PartialEq, Eq, Structural)]
pub struct Rgb5A1Pixel(pub u16);

impl Rgb5A1Pixel {
    /// The bits that hold red.
    pub const RED_MASK: u16 = 0xF800;

    /// The bits that hold green.
    pub const GREEN_MASK: u16 = 0x07C0;

    /// The bits that hold blue.
    pub const BLUE_MASK: u16 = 0x003E;

    /// The bit that holds alpha.
    pub const ALPHA_MASK: u16 = 0x0001;

    /// The red channel widened to eight bits: the stored five bits on top,
    /// three zero bits below.
    pub open spec fn spec_red(self) -> int {
        (self.0 as int / 2048) * 8
    }

    /// The green channel widened to eight bits.
    pub open spec fn spec_green(self) -> int {
        ((self.0 as int / 64) % 32) * 8
    }

    /// The blue channel widened to eight bits.
    pub open spec fn spec_blue(self) -> int {
        ((self.0 as int / 2) % 32) * 8
    }

    /// The alpha channel widened to eight bits: 255 where the bit is set, 0
    /// where it is clear.
    pub open spec fn spec_alpha(self) -> int {
        if self.0 as int % 2 == 1 {
            255
        } else {
            0
        }
    }

    /// The pixel that stores the top five bits of each colour channel and the
    /// top bit of `alpha`.
    pub open spec fn spec_pack(red: int, green: int, blue: int, alpha: int) -> Self {
        Rgb5A1Pixel(((red / 8) * 2048 + (green / 8) * 64 + (blue / 8) * 2 + alpha / 128) as u16)
    }

    /// The opaque pixel of the given colour.
    pub open spec fn spec_from_rgb(red: u8, green: u8, blue: u8) -> Self {
        Self::spec_pack(red as int, green as int, blue as int, 255)
    }

    /// The all-zero pixel.
    pub open spec fn spec_background() -> Self {
        Rgb5A1Pixel(0)
    }

    /// The pixel that results from compositing `color` over `self`.
    pub open spec fn spec_blend(self, color: PremultipliedColor) -> Self {
        Self::spec_pack(
            blend_channel(self.spec_red(), color.red as int, color.alpha as int),
            blend_channel(self.spec_green(), color.green as int, color.alpha as int),
            blend_channel(self.spec_blue(), color.blue as int, color.alpha as int),
            blend_alpha(self.spec_alpha(), color.alpha as int),
        )
    }

    /// Returns the red component as a value between 0 and 255.
    pub fn red(&self) -> (out: u8)
        ensures
            out == self.spec_red(),
            out % 8 == 0,
    {
        let bits: u16 = self.0;
        assert((bits & 0xF800u16) >> 8u16 == (bits / 2048) * 8 && (bits & 0xF800u16) >> 8u16 <= 248)
            by (bit_vector);
        ((self.0 & Self::RED_MASK) >> 8u16) as u8
    }

    /// Returns the blue component as a value between 0 and 255.
    pub fn blue(&self) -> (out: u8)
        ensures
            out == self.spec_blue(),
            out % 8 == 0,
    {
        let bits: u16 = self.0;
        assert((bits & 0x003Eu16) << 2u16 == ((bits / 2) % 32) * 8 && (bits & 0x003Eu16) << 2u16
            <= 248) by (bit_vector);
        ((self.0 & Self::BLUE_MASK) << 2u16) as u8
    }

    /// Returns the green component as a value between 0 and 255.
    pub fn green(&self) -> (out: u8)
        ensures
            out == self.spec_green(),
            out % 8 == 0,
    {
        let bits: u16 = self.0;
        assert((bits & 0x07C0u16) >> 3u16 == ((bits / 64) % 32) * 8 && (bits & 0x07C0u16) >> 3u16
            <= 248) by (bit_vector);
        ((self.0 & Self::GREEN_MASK) >> 3u16) as u8
    }

    /// Returns the alpha component as a value between 0 and 255.
    ///
    /// Since the alpha channel is stored in one bit, the only two possible
    /// values are 0 and 255.
    pub fn alpha(&self) -> (out: u8)
        ensures
            out == self.spec_alpha(),
            out == 0 || out == 255,
    {
        let bits: u16 = self.0;
        assert((bits & 0x0001u16 != 0) <==> bits % 2 == 1) by (bit_vector);
        if self.0 & Self::ALPHA_MASK != 0 {
            255
        } else {
            0
        }
    }

    /// Stores the top five bits of each colour channel and the top bit of
    /// `alpha`.
    fn pack(red: u8, green: u8, blue: u8, alpha: u8) -> (pixel: Self)
        ensures
            pixel == Self::spec_pack(red as int, green as int, blue as int, alpha as int),
    {
        let r: u16 = red as u16;
        let g: u16 = green as u16;
        let b: u16 = blue as u16;
        let a: u16 = alpha as u16;
        assert((((r & 0xF8u16) << 8u16) | ((g & 0xF8u16) << 3u16) | ((b & 0xF8u16) >> 2u16) | (a
            >> 7u16)) == (r / 8) * 2048 + (g / 8) * 64 + (b / 8) * 2 + a / 128) by (bit_vector)
            requires
                r < 256,
                g < 256,
                b < 256,
                a < 256,
        ;
        Rgb5A1Pixel(
            ((r & 0xF8u16) << 8u16) | ((g & 0xF8u16) << 3u16) | ((b & 0xF8u16) >> 2u16) | (a
                >> 7u16),
        )
    }

    /// Composites `color` over this pixel. Each field is widened to eight
    /// bits, composited as an eight-bit channel, and narrowed again by
    /// truncation.
    pub fn blend(&mut self, color: PremultipliedColor)
        ensures
            *final(self) == old(self).spec_blend(color),
    {
        let red: u8 = blend_channel_u8(self.red(), color.red, color.alpha);
        let green: u8 = blend_channel_u8(self.green(), color.green, color.alpha);
        let blue: u8 = blend_channel_u8(self.blue(), color.blue, color.alpha);
        let alpha: u8 = blend_alpha_u8(self.alpha(), color.alpha);
        *self = Self::pack(red, green, blue, alpha);
    }

    /// Builds the opaque pixel of the given colour: the top five bits of each
    /// channel, and the alpha bit set.
    pub fn from_rgb(red: u8, green: u8, blue: u8) -> (pixel: Self)
        ensures
            pixel == Self::spec_from_rgb(red, green, blue),
            pixel.spec_alpha() == 255,
            pixel.spec_red() == red - red % 8,
            pixel.spec_green() == green - green % 8,
            pixel.spec_blue() == blue - blue % 8,
    {
        proof {
            lemma_rgb5a1_from_rgb_channels(red, green, blue);
        }
        Self::pack(red, green, blue, 255)
    }

    /// The pixel a frame buffer is cleared to.
    pub fn background() -> (pixel: Self)
        ensures
            pixel == Self::spec_background(),
    {
        Rgb5A1Pixel(0)
    }
}

/// Reading a freshly built pixel back gives each channel without its three low
/// bits, and full opacity.
pub proof fn lemma_rgb5a1_from_rgb_channels(red: u8, green: u8, blue: u8)
    ensures
        Rgb5A1Pixel::spec_from_rgb(red, green, blue).spec_alpha() == 255,
        Rgb5A1Pixel::spec_from_rgb(red, green, blue).spec_red() == red - red % 8,
        Rgb5A1Pixel::spec_from_rgb(red, green, blue).spec_green() == green - green % 8,
        Rgb5A1Pixel::spec_from_rgb(red, green, blue).spec_blue() == blue - blue % 8,
{
    let r: u16 = (red / 8) as u16;
    let g: u16 = (green / 8) as u16;
    let b: u16 = (blue / 8) as u16;
    let v: u16 = (r * 2048 + g * 64 + b * 2 + 1) as u16;
    assert(v / 2048 == r && (v / 64) % 32 == g && (v / 2) % 32 == b && v % 2 == 1)
        by (bit_vector)
        requires
            r < 32,
            g < 32,
            b < 32,
            v == r * 2048 + g * 64 + b * 2 + 1,
    ;
}

/// A 16-bit pixel with four bits per colour channel and four bits of alpha.
///
/// Red occupies bits 12 to 15, green bits 8 to 11, blue bits 4 to 7, and alpha
/// bits 0 to 3.
#[derive(Clone, Copy, Debug, PartialEq, Eq, Structural)]
pub struct Rgba4Pixel(pub u16);

impl Rgba4Pixel {
    /// The bits that hold red.
    pub const RED_MASK: u16 = 0xF000;

    /// The bits that hold green.
    pub const GREEN_MASK: u16 = 0x0F00;

    /// The bits that hold blue.
    pub const BLUE_MASK: u16 = 0x00F0;

    /// The bits that hold alpha.
    pub const ALPHA_MASK: u16 = 0x000F;

    /// The red channel widened to eight bits: the stored four bits on top,
    /// four zero bits below.
    pub open spec fn spec_red(self) -> int {
        (self.0 as int / 4096) * 16
    }

    /// The green channel widened to eight bits.
    pub open spec fn spec_green(self) -> int {
        ((self.0 as int / 256) % 16) * 16
    }

    /// The blue channel widened to eight bits.
    pub open spec fn spec_blue(self) -> int {
        ((self.0 as int / 16) % 16) * 16
    }

    /// The alpha channel widened to eight bits: the stored four bits, repeated
    /// in the low half, so that the largest field reads 255.
    pub open spec fn spec_alpha(self) -> int {
        (self.0 as int % 16) * 17
    }

    /// The pixel that stores the top four bits of each channel.
    pub open spec fn spec_pack(red: int, green: int, blue: int, alpha: int) -> Self {
        Rgba4Pixel(((red / 16) * 4096 + (green / 16) * 256 + (blue / 16) * 16 + alpha / 16) as u16)
    }

    /// The opaque pixel of the given colour.
    pub open spec fn spec_from_rgb(red: u8, green: u8, blue: u8) -> Self {
        Self::spec_pack(red as int, green as int, blue as int, 255)
    }

    /// The all-zero pixel.
    pub open spec fn spec_background() -> Self {
        Rgba4Pixel(0)
    }

    /// The pixel that results from compositing `color` over `self`.
    pub open spec fn spec_blend(self, color: PremultipliedColor) -> Self {
        Self::spec_pack(
            blend_channel(self.spec_red(), color.red as int, color.alpha as int),
            blend_channel(self.spec_green(), color.green as int, color.alpha as int),
            blend_channel(self.spec_blue(), color.blue as int, color.alpha as int),
            blend_alpha(self.spec_alpha(), color.alpha as int),
        )
    }

    /// Returns the red component as a value between 0 and 255.
    pub fn red(&self) -> (out: u8)
        ensures
            out == self.spec_red(),
            out % 16 == 0,
    {
        let bits: u16 = self.0;
        assert((bits & 0xF000u16) >> 8u16 == (bits / 4096) * 16 && (bits & 0xF000u16) >> 8u16
            <= 240) by (bit_vector);
        ((self.0 & Self::RED_MASK) >> 8u16) as u8
    }

    /// Returns the green component as a value between 0 and 255.
    pub fn green(&self) -> (out: u8)
        ensures
            out == self.spec_green(),
            out % 16 == 0,
    {
        let bits: u16 = self.0;
        assert((bits & 0x0F00u16) >> 4u16 == ((bits / 256) % 16) * 16 && (bits & 0x0F00u16)
            >> 4u16 <= 240) by (bit_vector);
        ((self.0 & Self::GREEN_MASK) >> 4u16) as u8
    }

    /// Returns the blue component as a value between 0 and 255.
    pub fn blue(&self) -> (out: u8)
        ensures
            out == self.spec_blue(),
            out % 16 == 0,
    {
        let bits: u16 = self.0;
        assert(bits & 0x00F0u16 == ((bits / 16) % 16) * 16 && bits & 0x00F0u16 <= 240)
            by (bit_vector);
        (self.0 & Self::BLUE_MASK) as u8
    }

    /// Returns the alpha component as a value between 0 and 255.
    pub fn alpha(&self) -> (out: u8)
        ensures
            out == self.spec_alpha(),
            out % 17 == 0,
    {
        let bits: u16 = self.0;
        assert(((bits & 0x000Fu16) << 4u16) | (bits & 0x000Fu16) == (bits % 16) * 17 && ((bits
            & 0x000Fu16) << 4u16) | (bits & 0x000Fu16) <= 255) by (bit_vector);
        (((self.0 & Self::ALPHA_MASK) << 4u16) | (self.0 & Self::ALPHA_MASK)) as u8
    }

    /// Stores the top four bits of each channel.
    fn pack(red: u8, green: u8, blue: u8, alpha: u8) -> (pixel: Self)
        ensures
            pixel == Self::spec_pack(red as int, green as int, blue as int, alpha as int),
    {
        let r: u16 = red as u16;
        let g: u16 = green as u16;
        let b: u16 = blue as u16;
        let a: u16 = alpha as u16;
        assert((((r & 0xF0u16) << 8u16) | ((g & 0xF0u16) << 4u16) | (b & 0xF0u16) | (a >> 4u16))
            == (r / 16) * 4096 + (g / 16) * 256 + (b / 16) * 16 + a / 16) by (bit_vector)
            requires
                r < 256,
                g < 256,
                b < 256,
                a < 256,
        ;
        Rgba4Pixel(((r & 0xF0u16) << 8u16) | ((g & 0xF0u16) << 4u16) | (b & 0xF0u16) | (a >> 4u16))
    }

    /// Composites `color` over this pixel. Each field is widened to eight
    /// bits, composited as an eight-bit channel, and narrowed again by
    /// truncation.
    pub fn blend(&mut self, color: PremultipliedColor)
        ensures
            *final(self) == old(self).spec_blend(color),
    {
        let red: u8 = blend_channel_u8(self.red(), color.red, color.alpha);
        let green: u8 = blend_channel_u8(self.green(), color.green, color.alpha);
        let blue: u8 = blend_channel_u8(self.blue(), color.blue, color.alpha);
        let alpha: u8 = blend_alpha_u8(self.alpha(), color.alpha);
        *self = Self::pack(red, green, blue, alpha);
    }

    /// Builds the opaque pixel of the given colour: the top four bits of each
    /// channel, and every alpha bit set.
    pub fn from_rgb(red: u8, green: u8, blue: u8) -> (pixel: Self)
        ensures
            pixel == Self::spec_from_rgb(red, green, blue),
            pixel.spec_alpha() == 255,
            pixel.spec_red() == red - red % 16,
            pixel.spec_green() == green - green % 16,
            pixel.spec_blue() == blue - blue % 16,
    {
        proof {
            lemma_rgba4_from_rgb_channels(red, green, blue);
        }
        Self::pack(red, green, blue, 255)
    }

    /// The pixel a frame buffer is cleared to.
    pub fn background() -> (pixel: Self)
        ensures
            pixel == Self::spec_background(),
    {
        Rgba4Pixel(0)
    }
}

/// Reading a freshly built pixel back gives each channel without its four low
/// bits, and full opacity.
pub proof fn lemma_rgba4_from_rgb_channels(red: u8, green: u8, blue: u8)
    ensures
        Rgba4Pixel::spec_from_rgb(red, green, blue).spec_alpha() == 255,
        Rgba4Pixel::spec_from_rgb(red, green, blue).spec_red() == red - red % 16,
        Rgba4Pixel::spec_from_rgb(red, green, blue).spec_green() == green - green % 16,
        Rgba4Pixel::spec_from_rgb(red, green, blue).spec_blue() == blue - blue % 16,
{
    let r: u16 = (red / 16) as u16;
    let g: u16 = (green / 16) as u16;
    let b: u16 = (blue / 16) as u16;
    let v: u16 = (r * 4096 + g * 256 + b * 16 + 15) as u16;
    assert(v / 4096 == r && (v / 256) % 16 == g && (v / 16) % 16 == b && v % 16 == 15)
        by (bit_vector)
        requires
            r < 16,
            g < 16,
            b < 16,
            v == r * 4096 + g * 256 + b * 16 + 15,
    ;
}

/// A 16-bit pixel with five bits of red, six of green and five of blue, and
/// no alpha.
///
/// Red occupies bits 11 to 15, green bits 5 to 10, and blue bits 0 to 4.
#[derive(Clone, Copy, Debug, PartialEq, Eq, Structural)]
pub struct Rgb565Pixel(pub u16);

impl Rgb565Pixel {
    /// The bits that hold red.
    pub const RED_MASK: u16 = 0xF800;

    /// The bits that hold green.
    pub const GREEN_MASK: u16 = 0x07E0;

    /// The bits that hold blue.
    pub const BLUE_MASK: u16 = 0x001F;

    /// The red channel widened to eight bits: the stored five bits on top,
    /// three zero bits below.
    pub open spec fn spec_red(self) -> int {
        (self.0 as int / 2048) * 8
    }

    /// The green channel widened to eight bits: the stored six bits on top,
    /// two zero bits below.
    pub open spec fn spec_green(self) -> int {
        ((self.0 as int / 32) % 64) * 4
    }

    /// The blue channel widened to eight bits.
    pub open spec fn spec_blue(self) -> int {
        (self.0 as int % 32) * 8
    }

    /// The pixel that stores the top five bits of red and blue and the top six
    /// bits of green.
    pub open spec fn spec_pack(red: int, green: int, blue: int) -> Self {
        Rgb565Pixel(((red / 8) * 2048 + (green / 4) * 32 + blue / 8) as u16)
    }

    /// The pixel of the given colour.
    pub open spec fn spec_from_rgb(red: u8, green: u8, blue: u8) -> Self {
        Self::spec_pack(red as int, green as int, blue as int)
    }

    /// The all-zero pixel.
    pub open spec fn spec_background() -> Self {
        Rgb565Pixel(0)
    }

    /// The pixel that results from compositing `color` over `self`.
    pub open spec fn spec_blend(self, color: PremultipliedColor) -> Self {
        Self::spec_pack(
            blend_channel(self.spec_red(), color.red as int, color.alpha as int),
            blend_channel(self.spec_green(), color.green as int, color.alpha as int),
            blend_channel(self.spec_blue(), color.blue as int, color.alpha as int),
        )
    }

    /// Returns the red component as a value between 0 and 255.
    pub fn red(&self) -> (out: u8)
        ensures
            out == self.spec_red(),
            out % 8 == 0,
    {
        let bits: u16 = self.0;
        assert((bits & 0xF800u16) >> 8u16 == (bits / 2048) * 8 && (bits & 0xF800u16) >> 8u16 <= 248)
            by (bit_vector);
        ((self.0 & Self::RED_MASK) >> 8u16) as u8
    }

    /// Returns the green component as a value between 0 and 255.
    pub fn green(&self) -> (out: u8)
        ensures
            out == self.spec_green(),
            out % 4 == 0,
    {
        let bits: u16 = self.0;
        assert((bits & 0x07E0u16) >> 3u16 == ((bits / 32) % 64) * 4 && (bits & 0x07E0u16) >> 3u16
            <= 252) by (bit_vector);
        ((self.0 & Self::GREEN_MASK) >> 3u16) as u8
    }

    /// Returns the blue component as a value between 0 and 255.
    pub fn blue(&self) -> (out: u8)
        ensures
            out == self.spec_blue(),
            out % 8 == 0,
    {
        let bits: u16 = self.0;
        assert((bits & 0x001Fu16) << 3u16 == (bits % 32) * 8 && (bits & 0x001Fu16) << 3u16 <= 248)
            by (bit_vector);
        ((self.0 & Self::BLUE_MASK) << 3u16) as u8
    }

    /// Stores the top five bits of red and blue and the top six bits of green.
    fn pack(red: u8, green: u8, blue: u8) -> (pixel: Self)
        ensures
            pixel == Self::spec_pack(red as int, green as int, blue as int),
    {
        let r: u16 = red as u16;
        let g: u16 = green as u16;
        let b: u16 = blue as u16;
        assert((((r & 0xF8u16) << 8u16) | ((g & 0xFCu16) << 3u16) | (b >> 3u16)) == (r / 8) * 2048
            + (g / 4) * 32 + b / 8) by (bit_vector)
            requires
                r < 256,
                g < 256,
                b < 256,
        ;
        Rgb565Pixel(((r & 0xF8u16) << 8u16) | ((g & 0xFCu16) << 3u16) | (b >> 3u16))
    }

    /// Composites `color` over this pixel. Each field is widened to eight
    /// bits, composited as an eight-bit channel, and narrowed again by
    /// truncation. There is no alpha to update.
    pub fn blend(&mut self, color: PremultipliedColor)
        ensures
            *final(self) == old(self).spec_blend(color),
    {
        let red: u8 = blend_channel_u8(self.red(), color.red, color.alpha);
        let green: u8 = blend_channel_u8(self.green(), color.green, color.alpha);
        let blue: u8 = blend_channel_u8(self.blue(), color.blue, color.alpha);
        *self = Self::pack(red, green, blue);
    }

    /// Builds the pixel of the given colour: the top five bits of red and
    /// blue, and the top six bits of green.
    pub fn from_rgb(red: u8, green: u8, blue: u8) -> (pixel: Self)
        ensures
            pixel == Self::spec_from_rgb(red, green, blue),
            pixel.spec_red() == red - red % 8,
            pixel.spec_green() == green - green % 4,
            pixel.spec_blue() == blue - blue % 8,
    {
        proof {
            lemma_rgb565_from_rgb_channels(red, green, blue);
        }
        Self::pack(red, green, blue)
    }

    /// The pixel a frame buffer is cleared to.
    pub fn background() -> (pixel: Self)
        ensures
            pixel == Self::spec_background(),
    {
        Rgb565Pixel(0)
    }
}

/// Reading a freshly built pixel back gives red and blue without their three
/// low bits and green without its two low bits.
pub proof fn lemma_rgb565_from_rgb_channels(red: u8, green: u8, blue: u8)
    ensures
        Rgb565Pixel::spec_from_rgb(red, green, blue).spec_red() == red - red % 8,
        Rgb565Pixel::spec_from_rgb(red, green, blue).spec_green() == green - green % 4,
        Rgb565Pixel::spec_from_rgb(red, green, blue).spec_blue() == blue - blue % 8,
{
    let r: u16 = (red / 8) as u16;
    let g: u16 = (green / 4) as u16;
    let b: u16 = (blue / 8) as u16;
    let v: u16 = (r * 2048 + g * 32 + b) as u16;
    assert(v / 2048 == r && (v / 32) % 64 == g && v % 32 == b) by (bit_vector)
        requires
            r < 32,
            g < 64,
            b < 32,
            v == r * 2048 + g * 32 + b,
    ;
}

/// Compositing a fully transparent colour leaves every channel of a 32-bit
/// pixel as it was.
pub proof fn lemma_rgba8_blend_transparent(pixel: Rgba8Pixel, color: PremultipliedColor)
    requires
        color.is_premultiplied(),
        color.alpha == 0,
    ensures
        pixel.spec_blend(color) == pixel,
{
}

/// Compositing a fully opaque colour over the background gives a pixel whose
/// channels are exactly the colour's.
pub proof fn lemma_rgba8_blend_opaque_over_background(color: PremultipliedColor)
    requires
        color.alpha == 255,
    ensures
        Rgba8Pixel::spec_background().spec_blend(color) == (Rgba8Pixel {
            alpha: color.alpha,
            blue: color.blue,
            green: color.green,
            red: color.red,
        }),
{
}

/// A channel stored in five bits comes back within seven of the value it was
/// built from, and never above it.
pub proof fn lemma_five_bit_round_trip(red: u8, green: u8, blue: u8)
    ensures
        0 <= red - Rgb5A1Pixel::spec_from_rgb(red, green, blue).spec_red() <= 7,
        0 <= green - Rgb5A1Pixel::spec_from_rgb(red, green, blue).spec_green() <= 7,
        0 <= blue - Rgb5A1Pixel::spec_from_rgb(red, green, blue).spec_blue() <= 7,
        0 <= red - Rgb565Pixel::spec_from_rgb(red, green, blue).spec_red() <= 7,
        0 <= blue - Rgb565Pixel::spec_from_rgb(red, green, blue).spec_blue() <= 7,
{
    lemma_rgb5a1_from_rgb_channels(red, green, blue);
    lemma_rgb565_from_rgb_channels(red, green, blue);
}

/// Narrowing the widened fields of a pixel gives the pixel back.
pub proof fn lemma_rgb5a1_pack_channels(pixel: Rgb5A1Pixel)
    ensures
        Rgb5A1Pixel::spec_pack(
            pixel.spec_red(),
            pixel.spec_green(),
            pixel.spec_blue(),
            pixel.spec_alpha(),
        ) == pixel,
{
    let v: u16 = pixel.0;
    assert((v / 2048) * 2048 + ((v / 64) % 32) * 64 + ((v / 2) % 32) * 2 + v % 2 == v)
        by (bit_vector);
}

/// Narrowing the widened fields of a pixel gives the pixel back.
pub proof fn lemma_rgba4_pack_channels(pixel: Rgba4Pixel)
    ensures
        Rgba4Pixel::spec_pack(
            pixel.spec_red(),
            pixel.spec_green(),
            pixel.spec_blue(),
            pixel.spec_alpha(),
        ) == pixel,
{
    let v: u16 = pixel.0;
    assert((v / 4096) * 4096 + ((v / 256) % 16) * 256 + ((v / 16) % 16) * 16 + v % 16 == v)
        by (bit_vector);
    let a: int = v as int % 16;
    assert((a * 17) / 16 == a);
}

/// Narrowing the widened fields of a pixel gives the pixel back.
pub proof fn lemma_rgb565_pack_channels(pixel: Rgb565Pixel)
    ensures
        Rgb565Pixel::spec_pack(pixel.spec_red(), pixel.spec_green(), pixel.spec_blue()) == pixel,
{
    let v: u16 = pixel.0;
    assert((v / 2048) * 2048 + ((v / 32) % 64) * 32 + v % 32 == v) by (bit_vector);
}

} // verus!
