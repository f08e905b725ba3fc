//! The logical drawing surface and the software frame buffer behind it.

use vstd::prelude::*;
use crate::color::PremultipliedColor;
use crate::pixel::lemma_bytes_round_trip;
use crate::pixel::Pixel;
use crate::pixel::PixelEncoding;
use crate::pixel_format::Bgr8Pixel;
use crate::pixel_format::Rgb565Pixel;
use crate::pixel_format::Rgb5A1Pixel;
use crate::pixel_format::Rgba4Pixel;
use crate::pixel_format::Rgba8Pixel;

verus! {

/// What the rendering engine believes it is drawing into: a width and a
/// height in pixels, and the encoding of each pixel.
#[derive(Clone, Copy, Debug, PartialEq, Eq, Structural)]
pub struct Surface {
    pub width: u32,
    pub height: u32,
    pub encoding: PixelEncoding,
}

impl Surface {
    /// The number of pixels of the surface.
    pub open spec fn spec_pixel_count(self) -> nat {
        (self.width * self.height) as nat
    }

    /// The number of bytes the surface's pixels occupy:
    /// `width * height * bytes_per_pixel(encoding)`.
    pub open spec fn spec_byte_len(self) -> nat {
        (self.width * self.height * self.encoding.spec_bytes_per_pixel()) as nat
    }

    /// Whether column `x` of row `y` lies inside the surface.
    pub open spec fn spec_contains(self, x: u32, y: u32) -> bool {
        x < self.width && y < self.height
    }

    /// The index of the pixel in column `x` of row `y`, counted row by row
    /// from the top left.
    pub open spec fn spec_index(self, x: u32, y: u32) -> int {
        y * self.width + x
    }

    /// The offset of the first byte of the pixel in column `x` of row `y`.
    pub open spec fn spec_offset(self, x: u32, y: u32) -> int {
        self.spec_index(x, y) * self.encoding.spec_bytes_per_pixel()
    }

    /// Returns the number of bytes the surface's pixels occupy, or `None`
    /// exactly when that number is not addressable on this machine.
    pub fn byte_len(&self) -> (len: Option<usize>)
        ensures
            len is Some <==> self.spec_byte_len() <= usize::MAX,
            len is Some ==> len->0 == self.spec_byte_len(),
    {
        let width: u64 = self.width as u64;
        let height: u64 = self.height as u64;
        assert(width * height <= 0xFFFF_FFFF * 0xFFFF_FFFF) by (nonlinear_arith)
            requires
                width <= 0xFFFF_FFFF,
                height <= 0xFFFF_FFFF,
        ;
        let pixels: u64 = width * height;
        let per_pixel: u64 = self.encoding.bytes_per_pixel() as u64;
        match pixels.checked_mul(per_pixel) {
            Some(total) => {
                if total > usize::MAX as u64 {
                    None
                } else {
                    Some(total as usize)
                }
            },
            None => None,
        }
    }
}

/// Why a frame-buffer operation was refused.
#[derive(Clone, Copy, Debug, PartialEq, Eq, Structural)]
pub enum FrameError {
    /// The coordinates lie outside the surface.
    OutOfBounds,
    /// The pixel is not in the buffer's encoding.
    EncodingMismatch,
    /// The other side of a copy does not have the buffer's length.
    LengthMismatch,
}

/// The software frame buffer: the pixels of one surface, row after row, in
/// the byte layout of the surface's encoding.
///
/// Its size is fixed when it is made, and it cannot be copied.
pub struct FrameBuffer {
    surface: Surface,
    bytes: Vec<u8>,
}

/// Stores the bytes of `pixel` at `offset`.
fn store_pixel(bytes: &mut Vec<u8>, offset: usize, pixel: Pixel)
    requires
        offset + pixel.spec_bytes().len() <= old(bytes).len(),
    ensures
        final(bytes)@.len() == old(bytes)@.len(),
        final(bytes)@ == FrameBuffer::spec_stored(old(bytes)@, offset as int, pixel),
    no_unwind
{
    proof {
        lemma_bytes_round_trip(pixel);
    }
    match pixel {
        Pixel::Rgba8888(p) => {
            bytes[offset] = p.alpha;
            bytes[offset + 1] = p.blue;
            bytes[offset + 2] = p.green;
            bytes[offset + 3] = p.red;
        },
        Pixel::Bgr888(p) => {
            bytes[offset] = p.blue;
            bytes[offset + 1] = p.green;
            bytes[offset + 2] = p.red;
        },
        Pixel::Rgb5A1(p) => {
            bytes[offset] = (p.0 % 256) as u8;
            bytes[offset + 1] = (p.0 / 256) as u8;
        },
        Pixel::Rgba4444(p) => {
            bytes[offset] = (p.0 % 256) as u8;
            bytes[offset + 1] = (p.0 / 256) as u8;
        },
        Pixel::Rgb565(p) => {
            bytes[offset] = (p.0 % 256) as u8;
            bytes[offset + 1] = (p.0 / 256) as u8;
        },
    }
    assert(bytes@ =~= FrameBuffer::spec_stored(old(bytes)@, offset as int, pixel));
}

/// Reads the pixel of the given encoding stored at `offset`.
fn load_pixel(bytes: &Vec<u8>, offset: usize, encoding: PixelEncoding) -> (pixel: Pixel)
    requires
        offset + encoding.spec_bytes_per_pixel() <= bytes.len(),
    ensures
        pixel == Pixel::spec_from_bytes(
            encoding,
            bytes@.subrange(offset as int, offset + encoding.spec_bytes_per_pixel()),
        ),
        pixel.spec_encoding() == encoding,
{
    match encoding {
        PixelEncoding::Rgba8888 => Pixel::Rgba8888(
            Rgba8Pixel {
                alpha: bytes[offset],
                blue: bytes[offset + 1],
                green: bytes[offset + 2],
                red: bytes[offset + 3],
            },
        ),
        PixelEncoding::Bgr888 => Pixel::Bgr888(
            Bgr8Pixel { blue: bytes[offset], green: bytes[offset + 1], red: bytes[offset + 2] },
        ),
        PixelEncoding::Rgb5A1 => Pixel::Rgb5A1(
            Rgb5A1Pixel(bytes[offset] as u16 + bytes[offset + 1] as u16 * 256),
        ),
        PixelEncoding::Rgba4444 => Pixel::Rgba4444(
            Rgba4Pixel(bytes[offset] as u16 + bytes[offset + 1] as u16 * 256),
        ),
        PixelEncoding::Rgb565 => Pixel::Rgb565(
            Rgb565Pixel(bytes[offset] as u16 + bytes[offset + 1] as u16 * 256),
        ),
    }
}

impl FrameBuffer {
    #[verifier::type_invariant]
    spec fn well_formed(self) -> bool {
        self.bytes@.len() == self.surface.spec_byte_len()
    }

    /// The surface the buffer was made for.
    pub closed spec fn spec_surface(self) -> Surface {
        self.surface
    }

    /// The buffer's bytes, in address order.
    pub closed spec fn view(self) -> Seq<u8> {
        self.bytes@
    }

    /// The pixel with the given index, counted row by row from the top left.
    pub open spec fn spec_pixel_at(self, index: int) -> Pixel {
        let size: int = self.spec_surface().encoding.spec_bytes_per_pixel() as int;
        Pixel::spec_from_bytes(
            self.spec_surface().encoding,
            self@.subrange(index * size, index * size + size),
        )
    }

    /// The buffer's pixels, row by row from the top left.
    pub open spec fn spec_pixels(self) -> Seq<Pixel> {
        Seq::new(self.spec_surface().spec_pixel_count(), |index: int| self.spec_pixel_at(index))
    }

    /// Makes the frame buffer of a surface, every pixel cleared to the
    /// background. Gives `None` exactly when the buffer's size is not
    /// addressable on this machine.
    pub fn new(surface: Surface) -> (made: Option<Self>)
        ensures
            made is Some <==> surface.spec_byte_len() <= usize::MAX,
            made is Some ==> made->0.spec_surface() == surface,
            made is Some ==> made->0@ == Seq::new(surface.spec_byte_len(), |i: int| 0u8),
            made is Some ==> made->0.spec_pixels() == Seq::new(
                surface.spec_pixel_count(),
                |i: int| Pixel::spec_background(surface.encoding),
            ),
    {
        match surface.byte_len() {
            Some(len) => {
                let bytes: Vec<u8> = vec![0u8; len];
                assert(bytes@ =~= Seq::new(surface.spec_byte_len(), |i: int| 0u8));
                let made = FrameBuffer { surface, bytes };
                proof {
                    lemma_zeroed_pixels_are_background(made);
                }
                Some(made)
            },
            None => None,
        }
    }

    /// Returns the surface the buffer was made for.
    pub fn surface(&self) -> (surface: Surface)
        ensures
            surface == self.spec_surface(),
    {
        self.surface
    }

    /// Tells whether the buffer has exactly the dimensions and the encoding
    /// of `surface`.
    pub fn matches(&self, surface: &Surface) -> (same: bool)
        ensures
            same == (self.spec_surface() == *surface),
    {
        self.surface.width == surface.width && self.surface.height == surface.height
            && self.surface.encoding == surface.encoding
    }

    /// Returns the buffer's length in bytes, which is always
    /// `width * height * bytes_per_pixel(encoding)`.
    pub fn byte_len(&self) -> (len: usize)
        ensures
            len == self.spec_surface().spec_byte_len(),
            len == self@.len(),
    {
        proof {
            use_type_invariant(self);
        }
        self.bytes.len()
    }

    /// Returns the buffer's bytes, in address order.
    pub fn as_bytes(&self) -> (bytes: &[u8])
        ensures
            bytes@ == self@,
            bytes@.len() == self.spec_surface().spec_byte_len(),
    {
        proof {
            use_type_invariant(self);
        }
        self.bytes.as_slice()
    }

    /// Returns the byte offset of the pixel in column `x` of row `y`.
    fn offset_of(&self, x: u32, y: u32) -> (offset: usize)
        requires
            self.spec_surface().spec_contains(x, y),
        ensures
            offset == self.spec_surface().spec_offset(x, y),
            offset + self.spec_surface().encoding.spec_bytes_per_pixel() <= self@.len(),
            0 <= self.spec_surface().spec_index(x, y) < self.spec_surface().spec_pixel_count(),
    {
        proof {
            use_type_invariant(self);
            lemma_index_in_range(self.surface, x, y);
            assert(self.bytes.len() <= usize::MAX);
        }
        let size: usize = self.surface.encoding.bytes_per_pixel();
        let index: usize = y as usize * self.surface.width as usize + x as usize;
        index * size
    }

    /// Returns the pixel in column `x` of row `y`, or `None` exactly when the
    /// coordinates lie outside the surface.
    pub fn pixel(&self, x: u32, y: u32) -> (found: Option<Pixel>)
        ensures
            found is Some <==> self.spec_surface().spec_contains(x, y),
            found is Some ==> found->0 == self.spec_pixels()[self.spec_surface().spec_index(x, y)],
            found is Some ==> found->0.spec_encoding() == self.spec_surface().encoding,
    {
        if x >= self.surface.width || y >= self.surface.height {
            return None;
        }
        let offset: usize = self.offset_of(x, y);
        Some(load_pixel(&self.bytes, offset, self.surface.encoding))
    }

    /// Writes `pixel` to column `x` of row `y`, and leaves every other pixel
    /// as it was. Refuses coordinates outside the surface, and after that a
    /// pixel of another encoding; a refused call changes nothing.
    pub fn set_pixel(&mut self, x: u32, y: u32, pixel: Pixel) -> (done: Result<(), FrameError>)
        ensures
            final(self).spec_surface() == old(self).spec_surface(),
            final(self)@.len() == old(self)@.len(),
            done == Self::spec_set_pixel_outcome(old(self).spec_surface(), x, y, pixel),
            done is Err ==> final(self)@ == old(self)@,
            done is Ok ==> final(self)@ == Self::spec_stored(
                old(self)@,
                old(self).spec_surface().spec_offset(x, y),
                pixel,
            ),
            done is Ok ==> final(self).spec_pixels() == old(self).spec_pixels().update(
                old(self).spec_surface().spec_index(x, y),
                pixel,
            ),
    {
        if x >= self.surface.width || y >= self.surface.height {
            return Err(FrameError::OutOfBounds);
        }
        if pixel.encoding() != self.surface.encoding {
            return Err(FrameError::EncodingMismatch);
        }
        let offset: usize = self.offset_of(x, y);
        proof {
            use_type_invariant(&*self);
            lemma_bytes_round_trip(pixel);
        }
        store_pixel(&mut self.bytes, offset, pixel);
        proof {
            lemma_store_updates_pixels(
                *old(self),
                *self,
                y as int * self.surface.width as int + x as int,
                pixel,
            );
        }
        Ok(())
    }

    /// The bytes of a buffer after the bytes of `pixel` were stored at
    /// `offset`: as before up to there, then the pixel's bytes, then as before
    /// again.
    pub open spec fn spec_stored(bytes: Seq<u8>, offset: int, pixel: Pixel) -> Seq<u8> {
        bytes.subrange(0, offset) + pixel.spec_bytes() + bytes.subrange(
            offset + pixel.spec_bytes().len(),
            bytes.len() as int,
        )
    }

    /// Whether a write of `pixel` to column `x` of row `y` of a buffer of
    /// `surface` is accepted, and why not.
    pub open spec fn spec_set_pixel_outcome(surface: Surface, x: u32, y: u32, pixel: Pixel) -> Result<
        (),
        FrameError,
    > {
        if !surface.spec_contains(x, y) {
            Err(FrameError::OutOfBounds)
        } else if pixel.spec_encoding() != surface.encoding {
            Err(FrameError::EncodingMismatch)
        } else {
            Ok(())
        }
    }

    /// Composites `color` over the pixel in column `x` of row `y`, and leaves
    /// every other pixel as it was. Refuses coordinates outside the surface,
    /// and then changes nothing.
    pub fn blend_pixel(&mut self, x: u32, y: u32, color: PremultipliedColor) -> (done: Result<
        (),
        FrameError,
    >)
        ensures
            final(self).spec_surface() == old(self).spec_surface(),
            final(self)@.len() == old(self)@.len(),
            done is Ok <==> old(self).spec_surface().spec_contains(x, y),
            done is Err ==> done == Err::<(), FrameError>(FrameError::OutOfBounds),
            done is Err ==> final(self)@ == old(self)@,
            done is Ok ==> final(self)@ == Self::spec_stored(
                old(self)@,
                old(self).spec_surface().spec_offset(x, y),
                old(self).spec_pixels()[old(self).spec_surface().spec_index(x, y)].spec_blend(color),
            ),
            done is Ok ==> final(self).spec_pixels() == old(self).spec_pixels().update(
                old(self).spec_surface().spec_index(x, y),
                old(self).spec_pixels()[old(self).spec_surface().spec_index(x, y)].spec_blend(color),
            ),
    {
        if x >= self.surface.width || y >= self.surface.height {
            return Err(FrameError::OutOfBounds);
        }
        let offset: usize = self.offset_of(x, y);
        let mut pixel: Pixel = load_pixel(&self.bytes, offset, self.surface.encoding);
        pixel.blend(color);
        proof {
            use_type_invariant(&*self);
            lemma_bytes_round_trip(pixel);
        }
        store_pixel(&mut self.bytes, offset, pixel);
        proof {
            lemma_store_updates_pixels(
                *old(self),
                *self,
                y as int * self.surface.width as int + x as int,
                pixel,
            );
        }
        Ok(())
    }

    /// Replaces the buffer's bytes by those of `source`, taken verbatim.
    /// Refuses a source whose length is not the buffer's, and then changes
    /// nothing.
    pub fn copy_from(&mut self, source: &[u8]) -> (done: Result<(), FrameError>)
        ensures
            final(self).spec_surface() == old(self).spec_surface(),
            final(self)@.len() == old(self)@.len(),
            done is Ok <==> source@.len() == old(self).spec_surface().spec_byte_len(),
            done is Err ==> done == Err::<(), FrameError>(FrameError::LengthMismatch),
            done is Err ==> final(self)@ == old(self)@,
            done is Ok ==> final(self)@ == source@,
    {
        proof {
            use_type_invariant(&*self);
        }
        let len: usize = self.bytes.len();
        if source.len() != len {
            return Err(FrameError::LengthMismatch);
        }
        let mut i: usize = 0;
        while i < len
            invariant
                self.surface == old(self).surface,
                self.bytes@.len() == len,
                source@.len() == len,
                len == self.surface.spec_byte_len(),
                i <= len,
                forall|j: int| 0 <= j < i ==> self.bytes@[j] == source@[j],
            decreases len - i,
        {
            let byte: u8 = source[i];
            self.bytes[i] = byte;
            i = i + 1;
        }
        assert(self.bytes@ =~= source@);
        Ok(())
    }

    /// Copies the buffer's bytes verbatim into `dest`. Refuses a destination
    /// whose length is not the buffer's, and then changes nothing.
    pub fn copy_to(&self, dest: &mut [u8]) -> (done: Result<(), FrameError>)
        ensures
            done is Ok <==> old(dest)@.len() == self.spec_surface().spec_byte_len(),
            done is Err ==> done == Err::<(), FrameError>(FrameError::LengthMismatch),
            done is Err ==> final(dest)@ == old(dest)@,
            done is Ok ==> final(dest)@ == self@,
    {
        proof {
            use_type_invariant(self);
        }
        let len: usize = self.bytes.len();
        if dest.len() != len {
            return Err(FrameError::LengthMismatch);
        }
        let mut i: usize = 0;
        while i < len
            invariant
                len == self.bytes@.len(),
                dest@.len() == len,
                i <= len,
                forall|j: int| 0 <= j < i ==> dest@[j] == self.bytes@[j],
            decreases len - i,
        {
            dest[i] = self.bytes[i];
            i = i + 1;
        }
        assert(dest@ =~= self.bytes@);
        Ok(())
    }
}

/// A pixel inside the surface has an index below the pixel count, and its
/// bytes end within the surface's byte length.
proof fn lemma_index_in_range(surface: Surface, x: u32, y: u32)
    requires
        surface.spec_contains(x, y),
    ensures
        0 <= surface.spec_index(x, y) < surface.spec_pixel_count(),
        surface.spec_offset(x, y) + surface.encoding.spec_bytes_per_pixel()
            <= surface.spec_byte_len(),
        0 <= y * surface.width <= surface.spec_index(x, y),
        surface.spec_pixel_count() <= surface.spec_byte_len(),
{
    let w: int = surface.width as int;
    let h: int = surface.height as int;
    let xi: int = x as int;
    let yi: int = y as int;
    let size: int = surface.encoding.spec_bytes_per_pixel() as int;
    assert(yi * w + xi < w * h && 0 <= yi * w && 0 <= w * h) by (nonlinear_arith)
        requires
            0 <= xi < w,
            0 <= yi < h,
    ;
    assert(w * h <= w * h * size) by (nonlinear_arith)
        requires
            0 <= w * h,
            1 <= size,
    ;
    assert((yi * w + xi) * size + size <= w * h * size) by (nonlinear_arith)
        requires
            yi * w + xi < w * h,
            1 <= size,
    ;
}

/// In a buffer of zero bytes every pixel is the background.
proof fn lemma_zeroed_pixels_are_background(frame: FrameBuffer)
    requires
        frame@ == Seq::new(frame.spec_surface().spec_byte_len(), |i: int| 0u8),
    ensures
        frame.spec_pixels() == Seq::new(
            frame.spec_surface().spec_pixel_count(),
            |i: int| Pixel::spec_background(frame.spec_surface().encoding),
        ),
{
    let surface = frame.spec_surface();
    let size: int = surface.encoding.spec_bytes_per_pixel() as int;
    let count: int = surface.spec_pixel_count() as int;
    assert(frame@.len() == count * size) by (nonlinear_arith)
        requires
            frame@.len() == surface.width * surface.height * size,
            count == surface.width * surface.height,
    ;
    assert forall|j: int| 0 <= j < count implies #[trigger] frame.spec_pixels()[j]
        == Pixel::spec_background(surface.encoding) by {
        assert(0 <= j * size && j * size + size <= count * size) by (nonlinear_arith)
            requires
                0 <= j < count,
                0 < size,
        ;
        let bytes = frame@.subrange(j * size, j * size + size);
        assert(forall|k: int| 0 <= k < size ==> bytes[k] == 0u8);
    }
    assert(frame.spec_pixels() =~= Seq::new(
        surface.spec_pixel_count(),
        |i: int| Pixel::spec_background(surface.encoding),
    ));
}

/// Storing one pixel's bytes at its place changes that pixel and no other.
proof fn lemma_store_updates_pixels(before: FrameBuffer, after: FrameBuffer, index: int, pixel: Pixel)
    requires
        before.spec_surface() == after.spec_surface(),
        pixel.spec_encoding() == before.spec_surface().encoding,
        0 <= index < before.spec_surface().spec_pixel_count(),
        before@.len() == before.spec_surface().spec_byte_len(),
        after@ == before@.subrange(
            0,
            index * before.spec_surface().encoding.spec_bytes_per_pixel(),
        ) + pixel.spec_bytes() + before@.subrange(
            index * before.spec_surface().encoding.spec_bytes_per_pixel()
                + pixel.spec_bytes().len(),
            before@.len() as int,
        ),
    ensures
        after.spec_pixels() == before.spec_pixels().update(index, pixel),
{
    let surface = before.spec_surface();
    let size: int = surface.encoding.spec_bytes_per_pixel() as int;
    let count: int = surface.spec_pixel_count() as int;
    lemma_bytes_round_trip(pixel);
    assert(pixel.spec_bytes().len() == size);
    assert(before@.len() == count * size) by (nonlinear_arith)
        requires
            before@.len() == surface.width * surface.height * size,
            count == surface.width * surface.height,
    ;
    assert forall|j: int| 0 <= j < count implies #[trigger] after.spec_pixels()[j]
        == before.spec_pixels().update(index, pixel)[j] by {
        assert(j * size + size <= count * size) by (nonlinear_arith)
            requires
                0 <= j < count,
                0 < size,
        ;
        assert(index * size + size <= count * size) by (nonlinear_arith)
            requires
                0 <= index < count,
                0 < size,
        ;
        if j == index {
            assert(after@.subrange(j * size, j * size + size) =~= pixel.spec_bytes());
        } else {
            assert(j < index ==> j * size + size <= index * size) by (nonlinear_arith)
                requires
                    0 <= j,
                    0 <= index,
                    0 < size,
            ;
            assert(j > index ==> index * size + size <= j * size) by (nonlinear_arith)
                requires
                    0 <= j,
                    0 <= index,
                    0 < size,
            ;
            assert(after@.subrange(j * size, j * size + size) =~= before@.subrange(
                j * size,
                j * size + size,
            ));
        }
    }
    assert(after.spec_pixels() =~= before.spec_pixels().update(index, pixel));
}

} // verus!
