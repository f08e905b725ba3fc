use slint_3ds::color::PremultipliedColor;
use slint_3ds::frame_buffer::FrameBuffer;
use slint_3ds::frame_buffer::FrameError;
use slint_3ds::frame_buffer::Surface;
use slint_3ds::pixel::Pixel;
use slint_3ds::pixel::PixelEncoding;
use slint_3ds::pixel_format::Bgr8Pixel;
use slint_3ds::pixel_format::Rgb565Pixel;
use slint_3ds::pixel_format::Rgb5A1Pixel;
use slint_3ds::pixel_format::Rgba4Pixel;
use slint_3ds::pixel_format::Rgba8Pixel;

const ENCODINGS: [PixelEncoding; 5] = [
    PixelEncoding::Rgba8888,
    PixelEncoding::Bgr888,
    PixelEncoding::Rgb5A1,
    PixelEncoding::Rgba4444,
    PixelEncoding::Rgb565,
];

fn surface(width: u32, height: u32, encoding: PixelEncoding) -> Surface {
    Surface { width, height, encoding }
}

#[test]
fn encodings_have_their_sizes() {
    assert_eq!(PixelEncoding::Rgba8888.bytes_per_pixel(), 4);
    assert_eq!(PixelEncoding::Bgr888.bytes_per_pixel(), 3);
    assert_eq!(PixelEncoding::Rgb5A1.bytes_per_pixel(), 2);
    assert_eq!(PixelEncoding::Rgba4444.bytes_per_pixel(), 2);
    assert_eq!(PixelEncoding::Rgb565.bytes_per_pixel(), 2);
    assert_eq!(PixelEncoding::Rgba8888.alpha_bits(), 8);
    assert_eq!(PixelEncoding::Bgr888.alpha_bits(), 0);
    assert_eq!(PixelEncoding::Rgb5A1.alpha_bits(), 1);
    assert_eq!(PixelEncoding::Rgba4444.alpha_bits(), 4);
    assert_eq!(PixelEncoding::Rgb565.alpha_bits(), 0);
    assert_eq!(PixelEncoding::Rgba8888.color_bits(), (8, 8, 8));
    assert_eq!(PixelEncoding::Bgr888.color_bits(), (8, 8, 8));
    assert_eq!(PixelEncoding::Rgb5A1.color_bits(), (5, 5, 5));
    assert_eq!(PixelEncoding::Rgba4444.color_bits(), (4, 4, 4));
    assert_eq!(PixelEncoding::Rgb565.color_bits(), (5, 6, 5));
    assert!(PixelEncoding::Rgba8888.has_alpha());
    assert!(!PixelEncoding::Bgr888.has_alpha());
    assert!(PixelEncoding::Rgb5A1.has_alpha());
    assert!(PixelEncoding::Rgba4444.has_alpha());
    assert!(!PixelEncoding::Rgb565.has_alpha());
}

#[test]
fn pixel_from_rgb_uses_the_format_of_the_encoding() {
    assert_eq!(
        Pixel::from_rgb(PixelEncoding::Rgba8888, 1, 2, 3),
        Pixel::Rgba8888(Rgba8Pixel::from_rgb(1, 2, 3))
    );
    assert_eq!(
        Pixel::from_rgb(PixelEncoding::Bgr888, 1, 2, 3),
        Pixel::Bgr888(Bgr8Pixel::from_rgb(1, 2, 3))
    );
    assert_eq!(
        Pixel::from_rgb(PixelEncoding::Rgb5A1, 255, 0, 0),
        Pixel::Rgb5A1(Rgb5A1Pixel(0xF801))
    );
    assert_eq!(
        Pixel::from_rgb(PixelEncoding::Rgba4444, 255, 0, 0),
        Pixel::Rgba4444(Rgba4Pixel(0xF00F))
    );
    assert_eq!(
        Pixel::from_rgb(PixelEncoding::Rgb565, 255, 0, 0),
        Pixel::Rgb565(Rgb565Pixel(0xF800))
    );
    for encoding in ENCODINGS {
        assert_eq!(Pixel::from_rgb(encoding, 9, 8, 7).encoding(), encoding);
        assert_eq!(Pixel::background(encoding).encoding(), encoding);
    }
}

#[test]
fn pixel_alpha_reads_opaque_after_from_rgb_where_present() {
    for encoding in ENCODINGS {
        let pixel = Pixel::from_rgb(encoding, 10, 20, 30);
        if encoding.has_alpha() {
            assert_eq!(pixel.alpha(), Some(255));
        } else {
            assert_eq!(pixel.alpha(), None);
        }
    }
    assert_eq!(Pixel::background(PixelEncoding::Rgba8888).alpha(), Some(0));
    assert_eq!(Pixel::background(PixelEncoding::Rgb5A1).alpha(), Some(0));
    assert_eq!(Pixel::background(PixelEncoding::Rgba4444).alpha(), Some(0));
}

#[test]
fn pixel_channels_read_back() {
    let pixel = Pixel::from_rgb(PixelEncoding::Rgba8888, 201, 102, 53);
    assert_eq!((pixel.red(), pixel.green(), pixel.blue()), (201, 102, 53));
    let pixel = Pixel::from_rgb(PixelEncoding::Bgr888, 201, 102, 53);
    assert_eq!((pixel.red(), pixel.green(), pixel.blue()), (201, 102, 53));
    let pixel = Pixel::from_rgb(PixelEncoding::Rgb5A1, 201, 102, 53);
    assert_eq!((pixel.red(), pixel.green(), pixel.blue()), (200, 96, 48));
    let pixel = Pixel::from_rgb(PixelEncoding::Rgba4444, 201, 102, 53);
    assert_eq!((pixel.red(), pixel.green(), pixel.blue()), (192, 96, 48));
    let pixel = Pixel::from_rgb(PixelEncoding::Rgb565, 201, 102, 53);
    assert_eq!((pixel.red(), pixel.green(), pixel.blue()), (200, 100, 48));
}

#[test]
fn channels_lose_only_the_bits_that_are_not_stored() {
    for encoding in ENCODINGS {
        let (red_bits, green_bits, blue_bits) = encoding.color_bits();
        for value in 0..=255u8 {
            let pixel = Pixel::from_rgb(encoding, value, value, value);
            assert_eq!(pixel.red(), value - value % (1u16 << (8 - red_bits)) as u8);
            assert_eq!(pixel.green(), value - value % (1u16 << (8 - green_bits)) as u8);
            assert_eq!(pixel.blue(), value - value % (1u16 << (8 - blue_bits)) as u8);
        }
    }
}

#[test]
fn pixel_bytes_follow_the_memory_layout() {
    let pixel = Pixel::Rgba8888(Rgba8Pixel { alpha: 1, blue: 2, green: 3, red: 4 });
    assert_eq!(pixel.to_bytes(), vec![1, 2, 3, 4]);
    let pixel = Pixel::Bgr888(Bgr8Pixel { blue: 2, green: 3, red: 4 });
    assert_eq!(pixel.to_bytes(), vec![2, 3, 4]);
    assert_eq!(Pixel::Rgb5A1(Rgb5A1Pixel(0xF801)).to_bytes(), vec![0x01, 0xF8]);
    assert_eq!(Pixel::Rgba4444(Rgba4Pixel(0x1234)).to_bytes(), vec![0x34, 0x12]);
    assert_eq!(Pixel::Rgb565(Rgb565Pixel(0xF800)).to_bytes(), vec![0x00, 0xF8]);
}

#[test]
fn pixel_bytes_round_trip() {
    for encoding in ENCODINGS {
        for (red, green, blue) in [(0u8, 0u8, 0u8), (255, 255, 255), (1, 2, 3), (200, 100, 50)] {
            let pixel = Pixel::from_rgb(encoding, red, green, blue);
            let bytes = pixel.to_bytes();
            assert_eq!(bytes.len(), encoding.bytes_per_pixel());
            assert_eq!(Pixel::from_bytes(encoding, &bytes), Some(pixel));
        }
        let background = Pixel::background(encoding);
        assert_eq!(background.to_bytes(), vec![0u8; encoding.bytes_per_pixel()]);
    }
    assert_eq!(
        Pixel::from_bytes(PixelEncoding::Rgb565, &[0x34, 0x12]),
        Some(Pixel::Rgb565(Rgb565Pixel(0x1234)))
    );
    assert_eq!(
        Pixel::from_bytes(PixelEncoding::Rgba8888, &[9, 8, 7, 6]),
        Some(Pixel::Rgba8888(Rgba8Pixel { alpha: 9, blue: 8, green: 7, red: 6 }))
    );
}

#[test]
fn pixel_from_bytes_refuses_other_lengths() {
    assert_eq!(Pixel::from_bytes(PixelEncoding::Rgba8888, &[1, 2, 3]), None);
    assert_eq!(Pixel::from_bytes(PixelEncoding::Rgba8888, &[1, 2, 3, 4, 5]), None);
    assert_eq!(Pixel::from_bytes(PixelEncoding::Bgr888, &[1, 2]), None);
    assert_eq!(Pixel::from_bytes(PixelEncoding::Rgb565, &[]), None);
    assert_eq!(Pixel::from_bytes(PixelEncoding::Rgb5A1, &[1]), None);
    assert_eq!(Pixel::from_bytes(PixelEncoding::Rgba4444, &[1, 2, 3]), None);
}

#[test]
fn pixel_blend_follows_the_format() {
    let source = PremultipliedColor { red: 10, green: 20, blue: 30, alpha: 64 };
    let mut tagged = Pixel::Rgba8888(Rgba8Pixel { alpha: 128, blue: 255, green: 100, red: 40 });
    tagged.blend(source);
    assert_eq!(tagged, Pixel::Rgba8888(Rgba8Pixel { alpha: 160, blue: 221, green: 94, red: 39 }));
    let mut tagged = Pixel::Rgb565(Rgb565Pixel::from_rgb(200, 100, 50));
    let mut plain = Rgb565Pixel::from_rgb(200, 100, 50);
    tagged.blend(source);
    plain.blend(source);
    assert_eq!(tagged, Pixel::Rgb565(plain));
    for encoding in ENCODINGS {
        let before = Pixel::from_rgb(encoding, 90, 80, 70);
        let mut pixel = before;
        pixel.blend(PremultipliedColor { red: 0, green: 0, blue: 0, alpha: 0 });
        assert_eq!(pixel, before);
        pixel.blend(PremultipliedColor { red: 5, green: 6, blue: 7, alpha: 255 });
        assert_eq!(pixel, Pixel::from_rgb(encoding, 5, 6, 7));
    }
}

#[test]
fn surface_byte_length_is_width_times_height_times_pixel_size() {
    assert_eq!(surface(400, 240, PixelEncoding::Rgba8888).byte_len(), Some(384_000));
    assert_eq!(surface(400, 240, PixelEncoding::Bgr888).byte_len(), Some(288_000));
    assert_eq!(surface(320, 240, PixelEncoding::Rgb565).byte_len(), Some(153_600));
    assert_eq!(surface(0, 240, PixelEncoding::Rgb565).byte_len(), Some(0));
    assert_eq!(surface(7, 0, PixelEncoding::Rgba4444).byte_len(), Some(0));
    assert_eq!(surface(u32::MAX, u32::MAX, PixelEncoding::Rgba8888).byte_len(), None);
}

#[test]
fn frame_buffer_length_is_fixed_by_its_surface() {
    for encoding in ENCODINGS {
        for (width, height) in [(0u32, 0u32), (1, 1), (3, 5), (400, 240), (320, 240)] {
            let target = surface(width, height, encoding);
            let mut frame = FrameBuffer::new(target).unwrap();
            let expected = width as usize * height as usize * encoding.bytes_per_pixel();
            assert_eq!(frame.byte_len(), expected);
            assert_eq!(frame.as_bytes().len(), expected);
            assert_eq!(frame.surface(), target);
            let _ = frame.set_pixel(0, 0, Pixel::from_rgb(encoding, 1, 2, 3));
            let _ = frame.blend_pixel(
                0,
                0,
                PremultipliedColor { red: 1, green: 1, blue: 1, alpha: 9 },
            );
            let _ = frame.set_pixel(width, height, Pixel::from_rgb(encoding, 1, 2, 3));
            assert_eq!(frame.byte_len(), expected);
            assert_eq!(frame.as_bytes().len(), expected);
        }
    }
}

#[test]
fn frame_buffer_is_refused_when_it_cannot_be_addressed() {
    assert!(FrameBuffer::new(surface(u32::MAX, u32::MAX, PixelEncoding::Rgba8888)).is_none());
}

#[test]
fn frame_buffer_starts_as_background() {
    for encoding in ENCODINGS {
        let frame = FrameBuffer::new(surface(4, 3, encoding)).unwrap();
        assert!(frame.as_bytes().iter().all(|byte| *byte == 0));
        for y in 0..3 {
            for x in 0..4 {
                assert_eq!(frame.pixel(x, y), Some(Pixel::background(encoding)));
            }
        }
    }
}

#[test]
fn scenario_rgb565_red_pixel_at_origin() {
    let mut frame = FrameBuffer::new(surface(320, 240, PixelEncoding::Rgb565)).unwrap();
    assert!(frame.as_bytes().iter().all(|byte| *byte == 0));
    let red = Pixel::from_rgb(PixelEncoding::Rgb565, 255, 0, 0);
    assert_eq!(frame.set_pixel(0, 0, red), Ok(()));
    let bytes = frame.as_bytes();
    let first = u16::from_le_bytes([bytes[0], bytes[1]]);
    assert_eq!(first, 0xF800);
    assert_eq!(first >> 11, 0x1F);
    assert_eq!((first >> 5) & 0x3F, 0);
    assert_eq!(first & 0x1F, 0);
    assert!(bytes[2..].iter().all(|byte| *byte == 0));
    assert_eq!(bytes.len(), 320 * 240 * 2);
}

#[test]
fn scenario_rgba8888_two_blends_stay_below_double() {
    let mut frame = FrameBuffer::new(surface(400, 240, PixelEncoding::Rgba8888)).unwrap();
    let source = PremultipliedColor { red: 100, green: 0, blue: 0, alpha: 128 };
    assert_eq!(frame.blend_pixel(0, 0, source), Ok(()));
    assert_eq!(frame.blend_pixel(0, 0, source), Ok(()));
    let pixel = frame.pixel(0, 0).unwrap();
    assert!(pixel.red() < 200);
    assert_eq!(pixel, Pixel::Rgba8888(Rgba8Pixel { alpha: 192, blue: 0, green: 0, red: 149 }));
    // Stored as alpha, blue, green, red.
    assert_eq!(&frame.as_bytes()[0..4], &[192, 0, 0, 149]);
    assert!(frame.as_bytes()[4..].iter().all(|byte| *byte == 0));
}

#[test]
fn set_pixel_writes_one_pixel_and_no_other() {
    let mut frame = FrameBuffer::new(surface(3, 2, PixelEncoding::Bgr888)).unwrap();
    let pixel = Pixel::from_rgb(PixelEncoding::Bgr888, 1, 2, 3);
    assert_eq!(frame.set_pixel(2, 1, pixel), Ok(()));
    // Row 1, column 2 is pixel 5: bytes 15 to 17, as blue, green, red.
    let mut expected = vec![0u8; 18];
    expected[15] = 3;
    expected[16] = 2;
    expected[17] = 1;
    assert_eq!(frame.as_bytes(), &expected[..]);
    assert_eq!(frame.pixel(2, 1), Some(pixel));
    assert_eq!(frame.pixel(1, 1), Some(Pixel::background(PixelEncoding::Bgr888)));
    assert_eq!(frame.pixel(2, 0), Some(Pixel::background(PixelEncoding::Bgr888)));
}

#[test]
fn set_pixel_uses_row_major_order() {
    let mut frame = FrameBuffer::new(surface(4, 3, PixelEncoding::Rgb565)).unwrap();
    assert_eq!(frame.set_pixel(1, 2, Pixel::Rgb565(Rgb565Pixel(0xABCD))), Ok(()));
    // Pixel 2 * 4 + 1 = 9 starts at byte 18.
    assert_eq!(frame.as_bytes()[18], 0xCD);
    assert_eq!(frame.as_bytes()[19], 0xAB);
    assert_eq!(frame.as_bytes().iter().filter(|byte| **byte != 0).count(), 2);
}

#[test]
fn set_pixel_refuses_coordinates_outside_the_surface() {
    let mut frame = FrameBuffer::new(surface(3, 2, PixelEncoding::Rgb565)).unwrap();
    let pixel = Pixel::from_rgb(PixelEncoding::Rgb565, 255, 255, 255);
    assert_eq!(frame.set_pixel(3, 0, pixel), Err(FrameError::OutOfBounds));
    assert_eq!(frame.set_pixel(0, 2, pixel), Err(FrameError::OutOfBounds));
    assert_eq!(frame.set_pixel(u32::MAX, u32::MAX, pixel), Err(FrameError::OutOfBounds));
    assert!(frame.as_bytes().iter().all(|byte| *byte == 0));
    assert_eq!(frame.pixel(3, 0), None);
    assert_eq!(frame.pixel(0, 2), None);
}

#[test]
fn set_pixel_refuses_a_pixel_of_another_encoding() {
    let mut frame = FrameBuffer::new(surface(3, 2, PixelEncoding::Rgb565)).unwrap();
    let pixel = Pixel::from_rgb(PixelEncoding::Rgb5A1, 255, 255, 255);
    assert_eq!(frame.set_pixel(0, 0, pixel), Err(FrameError::EncodingMismatch));
    assert!(frame.as_bytes().iter().all(|byte| *byte == 0));
    // Coordinates are looked at first.
    assert_eq!(frame.set_pixel(3, 0, pixel), Err(FrameError::OutOfBounds));
}

#[test]
fn blend_pixel_refuses_coordinates_outside_the_surface() {
    let mut frame = FrameBuffer::new(surface(3, 2, PixelEncoding::Rgba8888)).unwrap();
    let source = PremultipliedColor { red: 1, green: 2, blue: 3, alpha: 255 };
    assert_eq!(frame.blend_pixel(3, 1, source), Err(FrameError::OutOfBounds));
    assert_eq!(frame.blend_pixel(0, 2, source), Err(FrameError::OutOfBounds));
    assert!(frame.as_bytes().iter().all(|byte| *byte == 0));
}

#[test]
fn blend_pixel_composites_in_place() {
    for encoding in ENCODINGS {
        let mut frame = FrameBuffer::new(surface(2, 2, encoding)).unwrap();
        let start = Pixel::from_rgb(encoding, 200, 100, 50);
        let source = PremultipliedColor { red: 10, green: 20, blue: 30, alpha: 64 };
        assert_eq!(frame.set_pixel(1, 1, start), Ok(()));
        assert_eq!(frame.blend_pixel(1, 1, source), Ok(()));
        let mut expected = start;
        expected.blend(source);
        assert_eq!(frame.pixel(1, 1), Some(expected));
        assert_eq!(frame.pixel(0, 0), Some(Pixel::background(encoding)));
        assert_eq!(frame.pixel(1, 0), Some(Pixel::background(encoding)));
        assert_eq!(frame.pixel(0, 1), Some(Pixel::background(encoding)));
    }
}

#[test]
fn copy_to_copies_every_byte() {
    let mut frame = FrameBuffer::new(surface(2, 2, PixelEncoding::Rgb565)).unwrap();
    assert_eq!(frame.set_pixel(0, 0, Pixel::Rgb565(Rgb565Pixel(0x1122))), Ok(()));
    assert_eq!(frame.set_pixel(1, 1, Pixel::Rgb565(Rgb565Pixel(0x3344))), Ok(()));
    let mut display = vec![0xEEu8; 8];
    assert_eq!(frame.copy_to(&mut display), Ok(()));
    assert_eq!(display, vec![0x22, 0x11, 0, 0, 0, 0, 0x44, 0x33]);
    assert_eq!(&display[..], frame.as_bytes());
}

#[test]
fn copy_to_refuses_any_other_length() {
    let frame = FrameBuffer::new(surface(2, 2, PixelEncoding::Rgb565)).unwrap();
    let mut short = vec![0xEEu8; 7];
    assert_eq!(frame.copy_to(&mut short), Err(FrameError::LengthMismatch));
    assert_eq!(short, vec![0xEEu8; 7]);
    let mut long = vec![0xEEu8; 9];
    assert_eq!(frame.copy_to(&mut long), Err(FrameError::LengthMismatch));
    assert_eq!(long, vec![0xEEu8; 9]);
    let mut empty: Vec<u8> = Vec::new();
    assert_eq!(frame.copy_to(&mut empty), Err(FrameError::LengthMismatch));
    let nothing = FrameBuffer::new(surface(0, 9, PixelEncoding::Rgb565)).unwrap();
    assert_eq!(nothing.copy_to(&mut empty), Ok(()));
}

#[test]
fn frame_buffer_matches_only_its_own_surface() {
    let frame = FrameBuffer::new(surface(4, 3, PixelEncoding::Rgb565)).unwrap();
    assert!(frame.matches(&surface(4, 3, PixelEncoding::Rgb565)));
    assert!(!frame.matches(&surface(3, 4, PixelEncoding::Rgb565)));
    assert!(!frame.matches(&surface(4, 3, PixelEncoding::Rgb5A1)));
    assert!(!frame.matches(&surface(4, 4, PixelEncoding::Rgb565)));
}

#[test]
fn copy_from_replaces_every_byte() {
    let mut frame = FrameBuffer::new(surface(2, 1, PixelEncoding::Bgr888)).unwrap();
    assert_eq!(frame.copy_from(&[1, 2, 3, 4, 5, 6]), Ok(()));
    assert_eq!(frame.as_bytes(), &[1, 2, 3, 4, 5, 6]);
    assert_eq!(frame.pixel(0, 0), Some(Pixel::Bgr888(Bgr8Pixel { blue: 1, green: 2, red: 3 })));
    assert_eq!(frame.pixel(1, 0), Some(Pixel::Bgr888(Bgr8Pixel { blue: 4, green: 5, red: 6 })));
    assert_eq!(frame.byte_len(), 6);
}

#[test]
fn copy_from_refuses_any_other_length() {
    let mut frame = FrameBuffer::new(surface(2, 1, PixelEncoding::Bgr888)).unwrap();
    assert_eq!(frame.copy_from(&[9, 9, 9, 9, 9, 9]), Ok(()));
    assert_eq!(frame.copy_from(&[1, 2, 3, 4, 5]), Err(FrameError::LengthMismatch));
    assert_eq!(frame.copy_from(&[1, 2, 3, 4, 5, 6, 7]), Err(FrameError::LengthMismatch));
    assert_eq!(frame.copy_from(&[]), Err(FrameError::LengthMismatch));
    assert_eq!(frame.as_bytes(), &[9, 9, 9, 9, 9, 9]);
    assert_eq!(frame.byte_len(), 6);
}
