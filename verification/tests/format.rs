use sdl3_pixels::Error;
use sdl3_pixels::PixelFormat;
use sdl3_pixels::PixelFormatEnum;
use sdl3_pixels::PixelMasks;
use sdl3_sys::pixels::SDL_PixelFormat;
use sdl3_sys::pixels::SDL_BYTESPERPIXEL;
use sdl3_sys::pixels::SDL_ISPIXELFORMAT_ALPHA;

fn all_formats() -> Vec<(PixelFormatEnum, SDL_PixelFormat)> {
    vec![
        (PixelFormatEnum::Unknown, SDL_PixelFormat::UNKNOWN),
        (PixelFormatEnum::Index1LSB, SDL_PixelFormat::INDEX1LSB),
        (PixelFormatEnum::Index1MSB, SDL_PixelFormat::INDEX1MSB),
        (PixelFormatEnum::Index4LSB, SDL_PixelFormat::INDEX4LSB),
        (PixelFormatEnum::Index4MSB, SDL_PixelFormat::INDEX4MSB),
        (PixelFormatEnum::Index8, SDL_PixelFormat::INDEX8),
        (PixelFormatEnum::RGB332, SDL_PixelFormat::RGB332),
        (PixelFormatEnum::XRGB4444, SDL_PixelFormat::XRGB4444),
        (PixelFormatEnum::XBGR4444, SDL_PixelFormat::XBGR4444),
        (PixelFormatEnum::XRGB1555, SDL_PixelFormat::XRGB1555),
        (PixelFormatEnum::XBGR1555, SDL_PixelFormat::XBGR1555),
        (PixelFormatEnum::ARGB4444, SDL_PixelFormat::ARGB4444),
        (PixelFormatEnum::RGBA4444, SDL_PixelFormat::RGBA4444),
        (PixelFormatEnum::ABGR4444, SDL_PixelFormat::ABGR4444),
        (PixelFormatEnum::BGRA4444, SDL_PixelFormat::BGRA4444),
        (PixelFormatEnum::ARGB1555, SDL_PixelFormat::ARGB1555),
        (PixelFormatEnum::RGBA5551, SDL_PixelFormat::RGBA5551),
        (PixelFormatEnum::ABGR1555, SDL_PixelFormat::ABGR1555),
        (PixelFormatEnum::BGRA5551, SDL_PixelFormat::BGRA5551),
        (PixelFormatEnum::RGB565, SDL_PixelFormat::RGB565),
        (PixelFormatEnum::BGR565, SDL_PixelFormat::BGR565),
        (PixelFormatEnum::RGB24, SDL_PixelFormat::RGB24),
        (PixelFormatEnum::BGR24, SDL_PixelFormat::BGR24),
        (PixelFormatEnum::XRGB8888, SDL_PixelFormat::XRGB8888),
        (PixelFormatEnum::RGBX8888, SDL_PixelFormat::RGBX8888),
        (PixelFormatEnum::XBGR8888, SDL_PixelFormat::XBGR8888),
        (PixelFormatEnum::BGRX8888, SDL_PixelFormat::BGRX8888),
        (PixelFormatEnum::ARGB8888, SDL_PixelFormat::ARGB8888),
        (PixelFormatEnum::RGBA8888, SDL_PixelFormat::RGBA8888),
        (PixelFormatEnum::ABGR8888, SDL_PixelFormat::ABGR8888),
        (PixelFormatEnum::BGRA8888, SDL_PixelFormat::BGRA8888),
        (PixelFormatEnum::ARGB2101010, SDL_PixelFormat::ARGB2101010),
        (PixelFormatEnum::YV12, SDL_PixelFormat::YV12),
        (PixelFormatEnum::IYUV, SDL_PixelFormat::IYUV),
        (PixelFormatEnum::YUY2, SDL_PixelFormat::YUY2),
        (PixelFormatEnum::UYVY, SDL_PixelFormat::UYVY),
        (PixelFormatEnum::YVYU, SDL_PixelFormat::YVYU),
    ]
}

#[test]
fn pixel_format_enum_conversions() {
    // Test round-trip conversions
    let formats = [
        PixelFormatEnum::RGB24,
        PixelFormatEnum::RGBA8888,
        PixelFormatEnum::ARGB2101010,
        PixelFormatEnum::YV12,
    ];

    for &fmt in &formats {
        let pixel_format: PixelFormat = fmt.into();
        let converted_back = PixelFormatEnum::try_from(pixel_format).unwrap();
        assert_eq!(fmt, converted_back);
    }

    // Test some specific values
    assert!(PixelFormatEnum::RGB24.as_pixel_format().raw == SDL_PixelFormat::RGB24);
    assert!(PixelFormatEnum::RGBA8888.as_pixel_format().raw == SDL_PixelFormat::RGBA8888);
}

#[test]
fn pixel_format_enum_supports_alpha() {
    assert!(PixelFormatEnum::RGBA8888.as_pixel_format().supports_alpha());
    assert!(PixelFormatEnum::ARGB2101010.as_pixel_format().supports_alpha());
    assert!(!PixelFormatEnum::RGB24.as_pixel_format().supports_alpha());
}

#[test]
fn every_format_has_the_native_identifier() {
    let formats = all_formats();
    assert_eq!(formats.len(), 37);
    for (format, native) in formats {
        assert_eq!(format.as_pixel_format().raw, native.0, "{:?}", format);
        assert_eq!(PixelFormat::from(format).raw(), native.0, "{:?}", format);
    }
    assert_eq!(PixelFormatEnum::RGB24.as_pixel_format().raw, 0x17101803);
    assert_eq!(PixelFormatEnum::YV12.as_pixel_format().raw, 0x32315659);
    assert_eq!(PixelFormatEnum::Unknown.as_pixel_format().raw, 0);
}

#[test]
fn every_format_round_trips() {
    for (format, native) in all_formats() {
        assert_eq!(PixelFormatEnum::try_from(PixelFormat::from(format)), Ok(format));
        assert_eq!(PixelFormatEnum::try_from(PixelFormat::from_ll(native.0)), Ok(format));
    }
}

#[test]
fn aliases_name_the_canonical_formats() {
    assert_eq!(PixelFormatEnum::RGB444, PixelFormatEnum::XRGB4444);
    assert_eq!(PixelFormatEnum::BGR444, PixelFormatEnum::XBGR4444);
    assert_eq!(PixelFormatEnum::RGB555, PixelFormatEnum::XRGB1555);
    assert_eq!(PixelFormatEnum::BGR555, PixelFormatEnum::XBGR1555);
    assert_eq!(PixelFormatEnum::RGB888, PixelFormatEnum::XRGB8888);
    assert_eq!(PixelFormatEnum::BGR888, PixelFormatEnum::XBGR8888);
    assert_eq!(
        PixelFormatEnum::try_from(PixelFormatEnum::RGB888.as_pixel_format()),
        Ok(PixelFormatEnum::XRGB8888)
    );
}

#[test]
fn unnamed_identifiers_are_unknown_formats() {
    let unnamed = [
        1,
        -1,
        i32::MIN,
        i32::MAX,
        SDL_PixelFormat::INDEX2LSB.0,
        SDL_PixelFormat::XRGB2101010.0,
        SDL_PixelFormat::RGB48.0,
        SDL_PixelFormat::NV12.0,
        0x17101804,
    ];
    for raw in unnamed {
        assert_eq!(
            PixelFormatEnum::try_from(PixelFormat::from_ll(raw)),
            Err(Error::UnknownPixelFormat)
        );
    }
}

#[test]
fn unknown_is_the_zero_identifier() {
    assert_eq!(PixelFormat::unknown().raw(), 0);
    assert!(PixelFormat::unknown().raw == SDL_PixelFormat::UNKNOWN);
    assert_eq!(PixelFormatEnum::try_from(PixelFormat::unknown()), Ok(PixelFormatEnum::Unknown));
}

#[test]
fn wide_integers_narrow_to_identifiers() {
    assert_eq!(PixelFormat::from_i64(0x17101803), PixelFormatEnum::RGB24.as_pixel_format());
    assert_eq!(PixelFormat::from_i64(-5).raw(), -5);
    assert_eq!(PixelFormat::from_i64(i32::MAX as i64).raw(), i32::MAX);
    assert_eq!(PixelFormat::from_i64(i32::MIN as i64).raw(), i32::MIN);
}

#[test]
fn alpha_is_supported_by_exactly_the_alpha_formats() {
    let with_alpha = [
        PixelFormatEnum::ARGB4444,
        PixelFormatEnum::ARGB1555,
        PixelFormatEnum::ARGB8888,
        PixelFormatEnum::ARGB2101010,
        PixelFormatEnum::ABGR4444,
        PixelFormatEnum::ABGR1555,
        PixelFormatEnum::ABGR8888,
        PixelFormatEnum::BGRA4444,
        PixelFormatEnum::BGRA5551,
        PixelFormatEnum::BGRA8888,
        PixelFormatEnum::RGBA4444,
        PixelFormatEnum::RGBA5551,
        PixelFormatEnum::RGBA8888,
    ];
    for (format, native) in all_formats() {
        let expected = with_alpha.contains(&format);
        assert_eq!(format.as_pixel_format().supports_alpha(), expected, "{:?}", format);
        assert_eq!(SDL_ISPIXELFORMAT_ALPHA(native), expected, "{:?}", format);
    }
    assert!(!PixelFormat::from_ll(12345).supports_alpha());
    assert!(!PixelFormat::from_ll(SDL_PixelFormat::ABGR2101010.0).supports_alpha());
}

#[test]
fn byte_size_from_pitch_and_height_of_linear_formats() {
    let rgb24 = PixelFormatEnum::RGB24.as_pixel_format();
    assert_eq!(rgb24.byte_size_from_pitch_and_height(100, 50), 5000);
    assert_eq!(rgb24.byte_size_from_pitch_and_height(0, 50), 0);
    assert_eq!(rgb24.byte_size_from_pitch_and_height(7, 3), 21);
    let yuy2 = PixelFormatEnum::YUY2.as_pixel_format();
    assert_eq!(yuy2.byte_size_from_pitch_and_height(100, 50), 5000);
    assert_eq!(PixelFormat::from_ll(99).byte_size_from_pitch_and_height(100, 50), 5000);
}

#[test]
fn byte_size_from_pitch_and_height_of_planar_formats() {
    let yv12 = PixelFormatEnum::YV12.as_pixel_format();
    let iyuv = PixelFormatEnum::IYUV.as_pixel_format();
    assert_eq!(yv12.byte_size_from_pitch_and_height(100, 50), 7500);
    assert_eq!(iyuv.byte_size_from_pitch_and_height(100, 50), 7500);
    assert_eq!(yv12.byte_size_from_pitch_and_height(0, 0), 0);
    // Odd sizes: the pitch and the height are each halved and rounded down,
    // and the halves are multiplied.
    assert_eq!(yv12.byte_size_from_pitch_and_height(5, 4), 20 + 2 * (2 * 2));
    assert_eq!(yv12.byte_size_from_pitch_and_height(4, 3), 16);
    assert_eq!(yv12.byte_size_from_pitch_and_height(4, 3), 12 + 2 * (2 * 1));
    assert_eq!(iyuv.byte_size_from_pitch_and_height(3, 3), 9 + 2 * (1 * 1));
    assert_eq!(iyuv.byte_size_from_pitch_and_height(7, 5), 35 + 2 * (3 * 2));
    assert_eq!(iyuv.byte_size_from_pitch_and_height(1, 9), 9);
    assert_eq!(iyuv.byte_size_from_pitch_and_height(9, 1), 9);
}

#[test]
fn byte_size_of_pixels_by_format() {
    assert_eq!(PixelFormatEnum::RGB24.as_pixel_format().byte_size_of_pixels(10), 30);
    assert_eq!(PixelFormatEnum::RGBA8888.as_pixel_format().byte_size_of_pixels(10), 40);
    assert_eq!(PixelFormatEnum::YV12.as_pixel_format().byte_size_of_pixels(10), 15);
    assert_eq!(PixelFormatEnum::IYUV.as_pixel_format().byte_size_of_pixels(11), 15);
    assert_eq!(PixelFormatEnum::IYUV.as_pixel_format().byte_size_of_pixels(1), 0);
    assert_eq!(PixelFormatEnum::Index8.as_pixel_format().byte_size_of_pixels(10), 10);
    assert_eq!(PixelFormatEnum::RGB332.as_pixel_format().byte_size_of_pixels(10), 10);
    assert_eq!(PixelFormatEnum::RGB565.as_pixel_format().byte_size_of_pixels(10), 20);
    assert_eq!(PixelFormatEnum::XBGR4444.as_pixel_format().byte_size_of_pixels(10), 20);
    assert_eq!(PixelFormatEnum::ARGB2101010.as_pixel_format().byte_size_of_pixels(10), 40);
    assert_eq!(PixelFormatEnum::YUY2.as_pixel_format().byte_size_of_pixels(10), 20);
    assert_eq!(PixelFormatEnum::UYVY.as_pixel_format().byte_size_of_pixels(0), 0);
}

#[test]
fn byte_size_per_pixel_by_format() {
    let unsized_formats = [
        PixelFormatEnum::Unknown,
        PixelFormatEnum::Index1LSB,
        PixelFormatEnum::Index1MSB,
        PixelFormatEnum::Index4LSB,
        PixelFormatEnum::Index4MSB,
    ];
    for (format, native) in all_formats() {
        let pixel_format = format.as_pixel_format();
        if unsized_formats.contains(&format) {
            assert!(!pixel_format.has_byte_size(), "{:?}", format);
        } else {
            assert!(pixel_format.has_byte_size(), "{:?}", format);
            let each = pixel_format.byte_size_per_pixel();
            assert_eq!(each, SDL_BYTESPERPIXEL(native) as usize, "{:?}", format);
            let planar = format == PixelFormatEnum::YV12 || format == PixelFormatEnum::IYUV;
            let expected = if planar { 100 / 2 * 3 } else { 100 * each };
            assert_eq!(pixel_format.byte_size_of_pixels(100), expected, "{:?}", format);
        }
    }
    assert_eq!(PixelFormatEnum::Index8.as_pixel_format().byte_size_per_pixel(), 1);
    assert_eq!(PixelFormatEnum::BGR565.as_pixel_format().byte_size_per_pixel(), 2);
    assert_eq!(PixelFormatEnum::BGR24.as_pixel_format().byte_size_per_pixel(), 3);
    assert_eq!(PixelFormatEnum::BGRA8888.as_pixel_format().byte_size_per_pixel(), 4);
    assert_eq!(PixelFormatEnum::YV12.as_pixel_format().byte_size_per_pixel(), 1);
    assert_eq!(PixelFormatEnum::YVYU.as_pixel_format().byte_size_per_pixel(), 2);
}

#[test]
fn unnamed_identifiers_have_no_byte_size() {
    assert!(!PixelFormat::from_ll(7).has_byte_size());
    assert!(!PixelFormat::from_ll(SDL_PixelFormat::RGB48.0).has_byte_size());
    assert!(!PixelFormat::from_ll(SDL_PixelFormat::NV12.0).has_byte_size());
}

#[test]
fn pixel_masks_hold_their_fields() {
    let masks = PixelMasks { bpp: 32, rmask: 0x00ff0000, gmask: 0x0000ff00, bmask: 0x000000ff, amask: 0xff000000 };
    assert_eq!(masks.bpp, 32);
    assert_eq!(masks.rmask | masks.gmask | masks.bmask | masks.amask, 0xffffffff);
}

#[test]
fn formats_convert_to_native_identifiers() {
    for (format, native) in all_formats() {
        assert!(SDL_PixelFormat::from(format.as_pixel_format()) == native);
    }
    assert!(SDL_PixelFormat::from(PixelFormat::from_ll(-3)) == SDL_PixelFormat(-3));
}

#[test]
fn checked_byte_size_of_pixels_refuses_what_has_no_size() {
    let rgb24 = PixelFormatEnum::RGB24.as_pixel_format();
    assert_eq!(rgb24.checked_byte_size_of_pixels(10), Some(30));
    assert_eq!(rgb24.checked_byte_size_of_pixels(usize::MAX), None);
    assert_eq!(rgb24.checked_byte_size_of_pixels(usize::MAX / 3), Some(usize::MAX / 3 * 3));
    assert_eq!(rgb24.checked_byte_size_of_pixels(usize::MAX / 3 + 1), None);
    let rgb332 = PixelFormatEnum::RGB332.as_pixel_format();
    assert_eq!(rgb332.checked_byte_size_of_pixels(usize::MAX), Some(usize::MAX));
    let yv12 = PixelFormatEnum::YV12.as_pixel_format();
    assert_eq!(yv12.checked_byte_size_of_pixels(10), Some(15));
    assert_eq!(yv12.checked_byte_size_of_pixels(usize::MAX), None);
    assert_eq!(PixelFormatEnum::Index1LSB.as_pixel_format().checked_byte_size_of_pixels(8), None);
    assert_eq!(PixelFormatEnum::Unknown.as_pixel_format().checked_byte_size_of_pixels(0), None);
    assert_eq!(PixelFormat::from_ll(5).checked_byte_size_of_pixels(1), None);
}

#[test]
fn checked_byte_size_from_pitch_and_height_refuses_what_does_not_fit() {
    let rgb24 = PixelFormatEnum::RGB24.as_pixel_format();
    let yv12 = PixelFormatEnum::YV12.as_pixel_format();
    assert_eq!(rgb24.checked_byte_size_from_pitch_and_height(100, 50), Some(5000));
    assert_eq!(yv12.checked_byte_size_from_pitch_and_height(100, 50), Some(7500));
    assert_eq!(yv12.checked_byte_size_from_pitch_and_height(4, 3), Some(16));
    assert_eq!(rgb24.checked_byte_size_from_pitch_and_height(usize::MAX, 2), None);
    assert_eq!(yv12.checked_byte_size_from_pitch_and_height(usize::MAX, 2), None);
    // The rows fit, and so do the chroma planes of a single row, which are
    // empty; two rows of half that pitch have chroma planes that do not fit.
    assert_eq!(
        rgb24.checked_byte_size_from_pitch_and_height(usize::MAX - 1, 1),
        Some(usize::MAX - 1)
    );
    assert_eq!(
        yv12.checked_byte_size_from_pitch_and_height(usize::MAX - 1, 1),
        Some(usize::MAX - 1)
    );
    assert_eq!(
        rgb24.checked_byte_size_from_pitch_and_height(usize::MAX / 2, 2),
        Some(usize::MAX - 1)
    );
    assert_eq!(yv12.checked_byte_size_from_pitch_and_height(usize::MAX / 2, 2), None);
    assert_eq!(yv12.checked_byte_size_from_pitch_and_height(usize::MAX, 0), Some(0));
}
