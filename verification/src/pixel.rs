//! Pixels tagged with their encoding, and their layout in frame-buffer memory.

use vstd::prelude::*;
use crate::color::PremultipliedColor;
use crate::pixel_format::lemma_rgb565_from_rgb_channels;
use crate::pixel_format::lemma_rgb565_pack_channels;
use crate::pixel_format::lemma_rgb5a1_from_rgb_channels;
use crate::pixel_format::lemma_rgb5a1_pack_channels;
use crate::pixel_format::lemma_rgba4_pack_channels;
use crate::pixel_format::lemma_rgba4_from_rgb_channels;
use crate::pixel_format::Bgr8Pixel;
use crate::pixel_format::Rgb565Pixel;
use crate::pixel_format::Rgb5A1Pixel;
use crate::pixel_format::Rgba4Pixel;
use crate::pixel_format::Rgba8Pixel;

verus! {

/// The fixed bit layouts the display hardware accepts.
#[derive(Clone, Copy, Debug, PartialEq, Eq, Structural)]
pub enum PixelEncoding {
    /// 32 bits: eight per colour channel, eight of alpha.
    Rgba8888,
    /// 24 bits: eight per colour channel, no alpha.
    Bgr888,
    /// 16 bits: five per colour channel, one of alpha.
    Rgb5A1,
    /// 16 bits: four per colour channel, four of alpha.
    Rgba4444,
    /// 16 bits: five of red, six of green, five of blue, no alpha.
    Rgb565,
}

impl PixelEncoding {
    /// The number of bytes one pixel occupies.
    pub open spec fn spec_bytes_per_pixel(self) -> nat {
        match self {
            PixelEncoding::Rgba8888 => 4,
            PixelEncoding::Bgr888 => 3,
            PixelEncoding::Rgb5A1 => 2,
            PixelEncoding::Rgba4444 => 2,
            PixelEncoding::Rgb565 => 2,
        }
    }

    /// The number of bits the encoding spends on alpha.
    pub open spec fn spec_alpha_bits(self) -> nat {
        match self {
            PixelEncoding::Rgba8888 => 8,
            PixelEncoding::Bgr888 => 0,
            PixelEncoding::Rgb5A1 => 1,
            PixelEncoding::Rgba4444 => 4,
            PixelEncoding::Rgb565 => 0,
        }
    }

    /// The number of bits the encoding spends on red, on green and on blue.
    pub open spec fn spec_color_bits(self) -> (nat, nat, nat) {
        match self {
            PixelEncoding::Rgba8888 => (8, 8, 8),
            PixelEncoding::Bgr888 => (8, 8, 8),
            PixelEncoding::Rgb5A1 => (5, 5, 5),
            PixelEncoding::Rgba4444 => (4, 4, 4),
            PixelEncoding::Rgb565 => (5, 6, 5),
        }
    }

    /// Returns the number of bytes one pixel occupies.
    pub fn bytes_per_pixel(self) -> (n: usize)
        ensures
            n == self.spec_bytes_per_pixel(),
    {
        match self {
            PixelEncoding::Rgba8888 => 4,
            PixelEncoding::Bgr888 => 3,
            PixelEncoding::Rgb5A1 => 2,
            PixelEncoding::Rgba4444 => 2,
            PixelEncoding::Rgb565 => 2,
        }
    }

    /// Returns the number of bits the encoding spends on alpha.
    pub fn alpha_bits(self) -> (n: u8)
        ensures
            n == self.spec_alpha_bits(),
    {
        match self {
            PixelEncoding::Rgba8888 => 8,
            PixelEncoding::Bgr888 => 0,
            PixelEncoding::Rgb5A1 => 1,
            PixelEncoding::Rgba4444 => 4,
            PixelEncoding::Rgb565 => 0,
        }
    }

    /// Returns the number of bits the encoding spends on red, on green and
    /// on blue.
    pub fn color_bits(self) -> (bits: (u8, u8, u8))
        ensures
            bits.0 == self.spec_color_bits().0,
            bits.1 == self.spec_color_bits().1,
            bits.2 == self.spec_color_bits().2,
    {
        match self {
            PixelEncoding::Rgba8888 => (8, 8, 8),
            PixelEncoding::Bgr888 => (8, 8, 8),
            PixelEncoding::Rgb5A1 => (5, 5, 5),
            PixelEncoding::Rgba4444 => (4, 4, 4),
            PixelEncoding::Rgb565 => (5, 6, 5),
        }
    }

    /// Tells whether the encoding carries an alpha channel at all.
    pub fn has_alpha(self) -> (yes: bool)
        ensures
            yes == (self.spec_alpha_bits() > 0),
    {
        self.alpha_bits() > 0
    }
}

/// The step between neighbouring values of a channel of `bits` bits, once the
/// channel is widened to eight bits: two to the power of `8 - bits`.
pub open spec fn spec_quantum(bits: nat) -> int {
    if bits >= 8 {
        1
    } else if bits == 7 {
        2
    } else if bits == 6 {
        4
    } else if bits == 5 {
        8
    } else if bits == 4 {
        16
    } else if bits == 3 {
        32
    } else if bits == 2 {
        64
    } else if bits == 1 {
        128
    } else {
        256
    }
}

/// The two bytes of a 16-bit value, least significant first.
pub open spec fn le_bytes(value: u16) -> Seq<u8> {
    seq![(value % 256) as u8, (value / 256) as u8]
}

/// The 16-bit value whose two bytes, least significant first, are `low` and
/// `high`.
pub open spec fn le_value(low: u8, high: u8) -> u16 {
    (low + high * 256) as u16
}

/// One pixel of a frame buffer, in one of the display's encodings.
#[derive(Clone, Copy, Debug, PartialEq, Eq, Structural)]
pub enum Pixel {
    Rgba8888(Rgba8Pixel),
    Bgr888(Bgr8Pixel),
    Rgb5A1(Rgb5A1Pixel),
    Rgba4444(Rgba4Pixel),
    Rgb565(Rgb565Pixel),
}

impl Pixel {
    /// The encoding whose bit layout the pixel has.
    pub open spec fn spec_encoding(self) -> PixelEncoding {
        match self {
            Pixel::Rgba8888(_) => PixelEncoding::Rgba8888,
            Pixel::Bgr888(_) => PixelEncoding::Bgr888,
            Pixel::Rgb5A1(_) => PixelEncoding::Rgb5A1,
            Pixel::Rgba4444(_) => PixelEncoding::Rgba4444,
            Pixel::Rgb565(_) => PixelEncoding::Rgb565,
        }
    }

    /// The opaque pixel of the given colour in the given encoding.
    pub open spec fn spec_from_rgb(encoding: PixelEncoding, red: u8, green: u8, blue: u8) -> Self {
        match encoding {
            PixelEncoding::Rgba8888 => Pixel::Rgba8888(Rgba8Pixel::spec_from_rgb(red, green, blue)),
            PixelEncoding::Bgr888 => Pixel::Bgr888(Bgr8Pixel::spec_from_rgb(red, green, blue)),
            PixelEncoding::Rgb5A1 => Pixel::Rgb5A1(Rgb5A1Pixel::spec_from_rgb(red, green, blue)),
            PixelEncoding::Rgba4444 => Pixel::Rgba4444(Rgba4Pixel::spec_from_rgb(red, green, blue)),
            PixelEncoding::Rgb565 => Pixel::Rgb565(Rgb565Pixel::spec_from_rgb(red, green, blue)),
        }
    }

    /// The all-zero pixel of the given encoding.
    pub open spec fn spec_background(encoding: PixelEncoding) -> Self {
        match encoding {
            PixelEncoding::Rgba8888 => Pixel::Rgba8888(Rgba8Pixel::spec_background()),
            PixelEncoding::Bgr888 => Pixel::Bgr888(Bgr8Pixel::spec_background()),
            PixelEncoding::Rgb5A1 => Pixel::Rgb5A1(Rgb5A1Pixel::spec_background()),
            PixelEncoding::Rgba4444 => Pixel::Rgba4444(Rgba4Pixel::spec_background()),
            PixelEncoding::Rgb565 => Pixel::Rgb565(Rgb565Pixel::spec_background()),
        }
    }

    /// The pixel that results from compositing `color` over `self`.
    pub open spec fn spec_blend(self, color: PremultipliedColor) -> Self {
        match self {
            Pixel::Rgba8888(p) => Pixel::Rgba8888(p.spec_blend(color)),
            Pixel::Bgr888(p) => Pixel::Bgr888(p.spec_blend(color)),
            Pixel::Rgb5A1(p) => Pixel::Rgb5A1(p.spec_blend(color)),
            Pixel::Rgba4444(p) => Pixel::Rgba4444(p.spec_blend(color)),
            Pixel::Rgb565(p) => Pixel::Rgb565(p.spec_blend(color)),
        }
    }

    /// The red channel as an eight-bit value.
    pub open spec fn spec_red(self) -> int {
        match self {
            Pixel::Rgba8888(p) => p.red as int,
            Pixel::Bgr888(p) => p.red as int,
            Pixel::Rgb5A1(p) => p.spec_red(),
            Pixel::Rgba4444(p) => p.spec_red(),
            Pixel::Rgb565(p) => p.spec_red(),
        }
    }

    /// The green channel as an eight-bit value.
    pub open spec fn spec_green(self) -> int {
        match self {
            Pixel::Rgba8888(p) => p.green as int,
            Pixel::Bgr888(p) => p.green as int,
            Pixel::Rgb5A1(p) => p.spec_green(),
            Pixel::Rgba4444(p) => p.spec_green(),
            Pixel::Rgb565(p) => p.spec_green(),
        }
    }

    /// The blue channel as an eight-bit value.
    pub open spec fn spec_blue(self) -> int {
        match self {
            Pixel::Rgba8888(p) => p.blue as int,
            Pixel::Bgr888(p) => p.blue as int,
            Pixel::Rgb5A1(p) => p.spec_blue(),
            Pixel::Rgba4444(p) => p.spec_blue(),
            Pixel::Rgb565(p) => p.spec_blue(),
        }
    }

    /// The alpha channel as an eight-bit value, where the encoding has one.
    pub open spec fn spec_alpha(self) -> Option<int> {
        match self {
            Pixel::Rgba8888(p) => Some(p.alpha as int),
            Pixel::Bgr888(_) => None,
            Pixel::Rgb5A1(p) => Some(p.spec_alpha()),
            Pixel::Rgba4444(p) => Some(p.spec_alpha()),
            Pixel::Rgb565(_) => None,
        }
    }

    /// The bytes the pixel occupies in frame-buffer memory, in address order.
    /// The 16-bit encodings are stored least significant byte first.
    pub open spec fn spec_bytes(self) -> Seq<u8> {
        match self {
            Pixel::Rgba8888(p) => seq![p.alpha, p.blue, p.green, p.red],
            Pixel::Bgr888(p) => seq![p.blue, p.green, p.red],
            Pixel::Rgb5A1(p) => le_bytes(p.0),
            Pixel::Rgba4444(p) => le_bytes(p.0),
            Pixel::Rgb565(p) => le_bytes(p.0),
        }
    }

    /// The pixel of the given encoding that occupies the given bytes.
    pub open spec fn spec_from_bytes(encoding: PixelEncoding, bytes: Seq<u8>) -> Self {
        match encoding {
            PixelEncoding::Rgba8888 => Pixel::Rgba8888(
                Rgba8Pixel { alpha: bytes[0], blue: bytes[1], green: bytes[2], red: bytes[3] },
            ),
            PixelEncoding::Bgr888 => Pixel::Bgr888(
                Bgr8Pixel { blue: bytes[0], green: bytes[1], red: bytes[2] },
            ),
            PixelEncoding::Rgb5A1 => Pixel::Rgb5A1(Rgb5A1Pixel(le_value(bytes[0], bytes[1]))),
            PixelEncoding::Rgba4444 => Pixel::Rgba4444(Rgba4Pixel(le_value(bytes[0], bytes[1]))),
            PixelEncoding::Rgb565 => Pixel::Rgb565(Rgb565Pixel(le_value(bytes[0], bytes[1]))),
        }
    }

    /// Returns the encoding whose bit layout the pixel has.
    pub fn encoding(&self) -> (encoding: PixelEncoding)
        ensures
            encoding == self.spec_encoding(),
    {
        match self {
            Pixel::Rgba8888(_) => PixelEncoding::Rgba8888,
            Pixel::Bgr888(_) => PixelEncoding::Bgr888,
            Pixel::Rgb5A1(_) => PixelEncoding::Rgb5A1,
            Pixel::Rgba4444(_) => PixelEncoding::Rgba4444,
            Pixel::Rgb565(_) => PixelEncoding::Rgb565,
        }
    }

    /// Builds the opaque pixel of the given colour in the given encoding.
    pub fn from_rgb(encoding: PixelEncoding, red: u8, green: u8, blue: u8) -> (pixel: Self)
        ensures
            pixel == Self::spec_from_rgb(encoding, red, green, blue),
            pixel.spec_encoding() == encoding,
            pixel.spec_alpha() is Some ==> pixel.spec_alpha() == Some(255int),
    {
        match encoding {
            PixelEncoding::Rgba8888 => Pixel::Rgba8888(Rgba8Pixel::from_rgb(red, green, blue)),
            PixelEncoding::Bgr888 => Pixel::Bgr888(Bgr8Pixel::from_rgb(red, green, blue)),
            PixelEncoding::Rgb5A1 => Pixel::Rgb5A1(Rgb5A1Pixel::from_rgb(red, green, blue)),
            PixelEncoding::Rgba4444 => Pixel::Rgba4444(Rgba4Pixel::from_rgb(red, green, blue)),
            PixelEncoding::Rgb565 => Pixel::Rgb565(Rgb565Pixel::from_rgb(red, green, blue)),
        }
    }

    /// The pixel a frame buffer of the given encoding is cleared to.
    pub fn background(encoding: PixelEncoding) -> (pixel: Self)
        ensures
            pixel == Self::spec_background(encoding),
            pixel.spec_encoding() == encoding,
            pixel.spec_bytes() == Seq::new(encoding.spec_bytes_per_pixel(), |i: int| 0u8),
    {
        match encoding {
            PixelEncoding::Rgba8888 => Pixel::Rgba8888(Rgba8Pixel::background()),
            PixelEncoding::Bgr888 => Pixel::Bgr888(Bgr8Pixel::background()),
            PixelEncoding::Rgb5A1 => Pixel::Rgb5A1(Rgb5A1Pixel::background()),
            PixelEncoding::Rgba4444 => Pixel::Rgba4444(Rgba4Pixel::background()),
            PixelEncoding::Rgb565 => Pixel::Rgb565(Rgb565Pixel::background()),
        }
    }

    /// Composites `color` over this pixel, by the rule of its encoding.
    pub fn blend(&mut self, color: PremultipliedColor)
        ensures
            *final(self) == old(self).spec_blend(color),
            final(self).spec_encoding() == old(self).spec_encoding(),
    {
        match self {
            Pixel::Rgba8888(p) => p.blend(color),
            Pixel::Bgr888(p) => p.blend(color),
            Pixel::Rgb5A1(p) => p.blend(color),
            Pixel::Rgba4444(p) => p.blend(color),
            Pixel::Rgb565(p) => p.blend(color),
        }
    }

    /// Returns the red channel as a value between 0 and 255.
    pub fn red(&self) -> (out: u8)
        ensures
            out == self.spec_red(),
    {
        match self {
            Pixel::Rgba8888(p) => p.red,
            Pixel::Bgr888(p) => p.red,
            Pixel::Rgb5A1(p) => p.red(),
            Pixel::Rgba4444(p) => p.red(),
            Pixel::Rgb565(p) => p.red(),
        }
    }

    /// Returns the green channel as a value between 0 and 255.
    pub fn green(&self) -> (out: u8)
        ensures
            out == self.spec_green(),
    {
        match self {
            Pixel::Rgba8888(p) => p.green,
            Pixel::Bgr888(p) => p.green,
            Pixel::Rgb5A1(p) => p.green(),
            Pixel::Rgba4444(p) => p.green(),
            Pixel::Rgb565(p) => p.green(),
        }
    }

    /// Returns the blue channel as a value between 0 and 255.
    pub fn blue(&self) -> (out: u8)
        ensures
            out == self.spec_blue(),
    {
        match self {
            Pixel::Rgba8888(p) => p.blue,
            Pixel::Bgr888(p) => p.blue,
            Pixel::Rgb5A1(p) => p.blue(),
            Pixel::Rgba4444(p) => p.blue(),
            Pixel::Rgb565(p) => p.blue(),
        }
    }

    /// Returns the alpha channel as a value between 0 and 255, or `None`
    /// where the encoding has no alpha.
    pub fn alpha(&self) -> (out: Option<u8>)
        ensures
            out is Some <==> self.spec_alpha() is Some,
            out is Some ==> out->0 == self.spec_alpha()->0,
            out is Some <==> self.spec_encoding().spec_alpha_bits() > 0,
    {
        match self {
            Pixel::Rgba8888(p) => Some(p.alpha),
            Pixel::Bgr888(_) => None,
            Pixel::Rgb5A1(p) => Some(p.alpha()),
            Pixel::Rgba4444(p) => Some(p.alpha()),
            Pixel::Rgb565(_) => None,
        }
    }

    /// Returns the bytes the pixel occupies in frame-buffer memory.
    pub fn to_bytes(&self) -> (bytes: Vec<u8>)
        ensures
            bytes@ == self.spec_bytes(),
            bytes@.len() == self.spec_encoding().spec_bytes_per_pixel(),
    {
        let mut bytes: Vec<u8> = Vec::new();
        match self {
            Pixel::Rgba8888(p) => {
                bytes.push(p.alpha);
                bytes.push(p.blue);
                bytes.push(p.green);
                bytes.push(p.red);
            },
            Pixel::Bgr888(p) => {
                bytes.push(p.blue);
                bytes.push(p.green);
                bytes.push(p.red);
            },
            Pixel::Rgb5A1(p) => {
                bytes.push((p.0 % 256) as u8);
                bytes.push((p.0 / 256) as u8);
            },
            Pixel::Rgba4444(p) => {
                bytes.push((p.0 % 256) as u8);
                bytes.push((p.0 / 256) as u8);
            },
            Pixel::Rgb565(p) => {
                bytes.push((p.0 % 256) as u8);
                bytes.push((p.0 / 256) as u8);
            },
        }
        assert(bytes@ =~= self.spec_bytes());
        bytes
    }

    /// Reads the pixel of the given encoding that occupies `bytes`. Gives
    /// `None` exactly when `bytes` does not have the length of one pixel.
    pub fn from_bytes(encoding: PixelEncoding, bytes: &[u8]) -> (pixel: Option<Self>)
        ensures
            pixel is Some <==> bytes@.len() == encoding.spec_bytes_per_pixel(),
            pixel is Some ==> pixel->0 == Self::spec_from_bytes(encoding, bytes@),
    {
        if bytes.len() != encoding.bytes_per_pixel() {
            return None;
        }
        Some(
            match encoding {
                PixelEncoding::Rgba8888 => Pixel::Rgba8888(
                    Rgba8Pixel { alpha: bytes[0], blue: bytes[1], green: bytes[2], red: bytes[3] },
                ),
                PixelEncoding::Bgr888 => Pixel::Bgr888(
                    Bgr8Pixel { blue: bytes[0], green: bytes[1], red: bytes[2] },
                ),
                PixelEncoding::Rgb5A1 => Pixel::Rgb5A1(
                    Rgb5A1Pixel(bytes[0] as u16 + bytes[1] as u16 * 256),
                ),
                PixelEncoding::Rgba4444 => Pixel::Rgba4444(
                    Rgba4Pixel(bytes[0] as u16 + bytes[1] as u16 * 256),
                ),
                PixelEncoding::Rgb565 => Pixel::Rgb565(
                    Rgb565Pixel(bytes[0] as u16 + bytes[1] as u16 * 256),
                ),
            },
        )
    }
}

/// Reading back the bytes of a pixel gives the pixel: no bit of it is lost in
/// frame-buffer memory.
pub proof fn lemma_bytes_round_trip(pixel: Pixel)
    ensures
        pixel.spec_bytes().len() == pixel.spec_encoding().spec_bytes_per_pixel(),
        Pixel::spec_from_bytes(pixel.spec_encoding(), pixel.spec_bytes()) == pixel,
{
}

/// The bytes of the pixel read from one pixel's worth of memory are that
/// memory: every bit pattern is a pixel.
pub proof fn lemma_from_bytes_round_trip(encoding: PixelEncoding, bytes: Seq<u8>)
    requires
        bytes.len() == encoding.spec_bytes_per_pixel(),
    ensures
        Pixel::spec_from_bytes(encoding, bytes).spec_encoding() == encoding,
        Pixel::spec_from_bytes(encoding, bytes).spec_bytes() == bytes,
{
    assert(Pixel::spec_from_bytes(encoding, bytes).spec_bytes() =~= bytes);
}

/// A freshly built pixel is opaque: where its encoding has an alpha channel,
/// that channel reads 255.
pub proof fn lemma_from_rgb_is_opaque(encoding: PixelEncoding, red: u8, green: u8, blue: u8)
    ensures
        Pixel::spec_from_rgb(encoding, red, green, blue).spec_encoding() == encoding,
        encoding.spec_alpha_bits() > 0 ==> Pixel::spec_from_rgb(
            encoding,
            red,
            green,
            blue,
        ).spec_alpha() == Some(255int),
        encoding.spec_alpha_bits() == 0 ==> Pixel::spec_from_rgb(
            encoding,
            red,
            green,
            blue,
        ).spec_alpha() is None,
{
    lemma_rgb5a1_from_rgb_channels(red, green, blue);
    lemma_rgba4_from_rgb_channels(red, green, blue);
}

/// A channel read back from a freshly built pixel has lost the bits that the
/// encoding does not store, and nothing else: it is the value it was built
/// from, rounded down to a multiple of the channel's step. So it is never
/// above that value, and less than one step below it.
pub proof fn lemma_round_trip_precision(encoding: PixelEncoding, red: u8, green: u8, blue: u8)
    ensures
        ({
            let pixel = Pixel::spec_from_rgb(encoding, red, green, blue);
            let bits = encoding.spec_color_bits();
            &&& pixel.spec_red() == red - (red as int) % spec_quantum(bits.0)
            &&& pixel.spec_green() == green - (green as int) % spec_quantum(bits.1)
            &&& pixel.spec_blue() == blue - (blue as int) % spec_quantum(bits.2)
            &&& 0 <= red - pixel.spec_red() < spec_quantum(bits.0)
            &&& 0 <= green - pixel.spec_green() < spec_quantum(bits.1)
            &&& 0 <= blue - pixel.spec_blue() < spec_quantum(bits.2)
        }),
{
    lemma_rgb5a1_from_rgb_channels(red, green, blue);
    lemma_rgba4_from_rgb_channels(red, green, blue);
    lemma_rgb565_from_rgb_channels(red, green, blue);
}

/// In every encoding, compositing a fully transparent colour leaves the
/// pixel as it was.
pub proof fn lemma_blend_transparent(pixel: Pixel, color: PremultipliedColor)
    requires
        color.is_premultiplied(),
        color.alpha == 0,
    ensures
        pixel.spec_blend(color) == pixel,
{
    match pixel {
        Pixel::Rgba8888(p) => {},
        Pixel::Bgr888(p) => {},
        Pixel::Rgb5A1(p) => {
            lemma_rgb5a1_pack_channels(p);
        },
        Pixel::Rgba4444(p) => {
            lemma_rgba4_pack_channels(p);
        },
        Pixel::Rgb565(p) => {
            lemma_rgb565_pack_channels(p);
        },
    }
}

/// In every encoding, compositing a fully opaque colour replaces the pixel
/// by the opaque pixel of that colour. So a run of pixels may be filled with
/// that pixel in place of compositing each of them.
pub proof fn lemma_blend_opaque(pixel: Pixel, color: PremultipliedColor)
    requires
        color.alpha == 255,
    ensures
        pixel.spec_blend(color) == Pixel::spec_from_rgb(
            pixel.spec_encoding(),
            color.red,
            color.green,
            color.blue,
        ),
{
    match pixel {
        Pixel::Rgba8888(p) => {},
        Pixel::Bgr888(p) => {},
        Pixel::Rgb5A1(p) => {},
        Pixel::Rgba4444(p) => {},
        Pixel::Rgb565(p) => {},
    }
}

} // verus!
