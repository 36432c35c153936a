//! Pixel formats: the named formats, their numeric identifiers, and the
//! byte arithmetic of pixel buffers.

use crate::codes;
use crate::error::Error;
use sdl3_sys::pixels::SDL_PixelFormat;
use vstd::prelude::*;
use vstd::std_specs::convert::FromSpec;
use vstd::std_specs::convert::FromSpecImpl;
use vstd::std_specs::convert::TryFromSpec;
use vstd::std_specs::convert::TryFromSpecImpl;

verus! {

/// `sdl3_sys::pixels::SDL_PixelFormat`, the format identifier of the native
/// pixel subsystem, declared with its field: one public signed 32-bit
/// number.
#[verifier::external_type_specification]
pub struct ExSdlPixelFormat(SDL_PixelFormat);

/// The bit masks that mark, in a packed pixel, the bits of each channel.
#[derive(Copy, Clone, Eq, PartialEq, Hash, Debug, Structural)]
pub struct PixelMasks {
    /// Bits per pixel; usually 15, 16, or 32
    pub bpp: u8,
    /// The red mask
    pub rmask: u32,
    /// The green mask
    pub gmask: u32,
    /// The blue mask
    pub bmask: u32,
    /// The alpha mask
    pub amask: u32,
}

/// The named pixel formats. Each stands for one numeric identifier, and no
/// two stand for the same one.
#[derive(Copy, Clone, Eq, PartialEq, Hash, Debug, Structural)]
pub enum PixelFormatEnum {
    /// No format.
    Unknown,
    /// 1-bit indexed, least significant bit first.
    Index1LSB,
    /// 1-bit indexed, most significant bit first.
    Index1MSB,
    /// 4-bit indexed, least significant nibble first.
    Index4LSB,
    /// 4-bit indexed, most significant nibble first.
    Index4MSB,
    /// 8-bit indexed.
    Index8,
    RGB332,
    XRGB4444,
    XBGR4444,
    XRGB1555,
    XBGR1555,
    ARGB4444,
    RGBA4444,
    ABGR4444,
    BGRA4444,
    ARGB1555,
    RGBA5551,
    ABGR1555,
    BGRA5551,
    RGB565,
    BGR565,
    RGB24,
    BGR24,
    XRGB8888,
    RGBX8888,
    XBGR8888,
    BGRX8888,
    ARGB8888,
    RGBA8888,
    ABGR8888,
    BGRA8888,
    ARGB2101010,
    /// Planar 4:2:0, Y then V then U.
    YV12,
    /// Planar 4:2:0, Y then U then V.
    IYUV,
    /// Packed 4:2:2, Y0 U0 Y1 V0.
    YUY2,
    /// Packed 4:2:2, U0 Y0 V0 Y1.
    UYVY,
    /// Packed 4:2:2, Y0 V0 Y1 U0.
    YVYU,
}

/// A pixel format identifier. Every named format has one, and an identifier
/// may also be one that no named format has.
#[derive(Copy, Clone, Eq, PartialEq, Hash, Debug, Structural)]
pub struct PixelFormat {
    /// The numeric identifier. Every value is admitted.
    pub raw: i32,
}

impl View for PixelFormat {
    type V = int;

    /// The numeric identifier.
    open spec fn view(&self) -> int {
        self.raw as int
    }
}

impl PixelFormatEnum {
    /// Another name of [`PixelFormatEnum::XRGB4444`].
    pub const RGB444: PixelFormatEnum = PixelFormatEnum::XRGB4444;

    /// Another name of [`PixelFormatEnum::XBGR4444`].
    pub const BGR444: PixelFormatEnum = PixelFormatEnum::XBGR4444;

    /// Another name of [`PixelFormatEnum::XRGB1555`].
    pub const RGB555: PixelFormatEnum = PixelFormatEnum::XRGB1555;

    /// Another name of [`PixelFormatEnum::XBGR1555`].
    pub const BGR555: PixelFormatEnum = PixelFormatEnum::XBGR1555;

    /// Another name of [`PixelFormatEnum::XRGB8888`].
    pub const RGB888: PixelFormatEnum = PixelFormatEnum::XRGB8888;

    /// Another name of [`PixelFormatEnum::XBGR8888`].
    pub const BGR888: PixelFormatEnum = PixelFormatEnum::XBGR8888;

    /// The numeric identifier of the format.
    pub open spec fn code(self) -> int {
        match self {
            PixelFormatEnum::Unknown => codes::UNKNOWN as int,
            PixelFormatEnum::Index1LSB => codes::INDEX1LSB as int,
            PixelFormatEnum::Index1MSB => codes::INDEX1MSB as int,
            PixelFormatEnum::Index4LSB => codes::INDEX4LSB as int,
            PixelFormatEnum::Index4MSB => codes::INDEX4MSB as int,
            PixelFormatEnum::Index8 => codes::INDEX8 as int,
            PixelFormatEnum::RGB332 => codes::RGB332 as int,
            PixelFormatEnum::XRGB4444 => codes::XRGB4444 as int,
            PixelFormatEnum::XBGR4444 => codes::XBGR4444 as int,
            PixelFormatEnum::XRGB1555 => codes::XRGB1555 as int,
            PixelFormatEnum::XBGR1555 => codes::XBGR1555 as int,
            PixelFormatEnum::ARGB4444 => codes::ARGB4444 as int,
            PixelFormatEnum::RGBA4444 => codes::RGBA4444 as int,
            PixelFormatEnum::ABGR4444 => codes::ABGR4444 as int,
            PixelFormatEnum::BGRA4444 => codes::BGRA4444 as int,
            PixelFormatEnum::ARGB1555 => codes::ARGB1555 as int,
            PixelFormatEnum::RGBA5551 => codes::RGBA5551 as int,
            PixelFormatEnum::ABGR1555 => codes::ABGR1555 as int,
            PixelFormatEnum::BGRA5551 => codes::BGRA5551 as int,
            PixelFormatEnum::RGB565 => codes::RGB565 as int,
            PixelFormatEnum::BGR565 => codes::BGR565 as int,
            PixelFormatEnum::RGB24 => codes::RGB24 as int,
            PixelFormatEnum::BGR24 => codes::BGR24 as int,
            PixelFormatEnum::XRGB8888 => codes::XRGB8888 as int,
            PixelFormatEnum::RGBX8888 => codes::RGBX8888 as int,
            PixelFormatEnum::XBGR8888 => codes::XBGR8888 as int,
            PixelFormatEnum::BGRX8888 => codes::BGRX8888 as int,
            PixelFormatEnum::ARGB8888 => codes::ARGB8888 as int,
            PixelFormatEnum::RGBA8888 => codes::RGBA8888 as int,
            PixelFormatEnum::ABGR8888 => codes::ABGR8888 as int,
            PixelFormatEnum::BGRA8888 => codes::BGRA8888 as int,
            PixelFormatEnum::ARGB2101010 => codes::ARGB2101010 as int,
            PixelFormatEnum::YV12 => codes::YV12 as int,
            PixelFormatEnum::IYUV => codes::IYUV as int,
            PixelFormatEnum::YUY2 => codes::YUY2 as int,
            PixelFormatEnum::UYVY => codes::UYVY as int,
            PixelFormatEnum::YVYU => codes::YVYU as int,
        }
    }

    /// The format that has the identifier `code`, if one has.
    pub open spec fn with_code(code: int) -> Option<PixelFormatEnum> {
        if exists|format: PixelFormatEnum| format.code() == code {
            Some(choose|format: PixelFormatEnum| format.code() == code)
        } else {
            None
        }
    }

    /// Whether the channel layout of the format has an alpha component.
    pub open spec fn has_alpha(self) -> bool {
        matches!(
            self,
            PixelFormatEnum::ARGB4444
                | PixelFormatEnum::ARGB1555
                | PixelFormatEnum::ARGB8888
                | PixelFormatEnum::ARGB2101010
                | PixelFormatEnum::ABGR4444
                | PixelFormatEnum::ABGR1555
                | PixelFormatEnum::ABGR8888
                | PixelFormatEnum::BGRA4444
                | PixelFormatEnum::BGRA5551
                | PixelFormatEnum::BGRA8888
                | PixelFormatEnum::RGBA4444
                | PixelFormatEnum::RGBA5551
                | PixelFormatEnum::RGBA8888
        )
    }

    /// Whether the format stores a full-size luma plane followed by two chroma
    /// planes of half the width and half the height.
    pub open spec fn is_planar_yuv(self) -> bool {
        matches!(self, PixelFormatEnum::YV12 | PixelFormatEnum::IYUV)
    }

    /// The bytes counted for one pixel, for the formats whose pixels are
    /// counted in whole bytes. A planar YUV format counts the luma byte alone.
    /// The formats that pack several pixels into a byte, and `Unknown`, have
    /// no such count.
    pub open spec fn bytes_per_pixel(self) -> Option<nat> {
        match self {
            PixelFormatEnum::Unknown
            | PixelFormatEnum::Index1LSB
            | PixelFormatEnum::Index1MSB
            | PixelFormatEnum::Index4LSB
            | PixelFormatEnum::Index4MSB => None,
            PixelFormatEnum::Index8 | PixelFormatEnum::RGB332 => Some(1),
            PixelFormatEnum::XRGB4444
            | PixelFormatEnum::XBGR4444
            | PixelFormatEnum::XRGB1555
            | PixelFormatEnum::XBGR1555
            | PixelFormatEnum::ARGB4444
            | PixelFormatEnum::RGBA4444
            | PixelFormatEnum::ABGR4444
            | PixelFormatEnum::BGRA4444
            | PixelFormatEnum::ARGB1555
            | PixelFormatEnum::RGBA5551
            | PixelFormatEnum::ABGR1555
            | PixelFormatEnum::BGRA5551
            | PixelFormatEnum::RGB565
            | PixelFormatEnum::BGR565 => Some(2),
            PixelFormatEnum::RGB24 | PixelFormatEnum::BGR24 => Some(3),
            PixelFormatEnum::XRGB8888
            | PixelFormatEnum::RGBX8888
            | PixelFormatEnum::XBGR8888
            | PixelFormatEnum::BGRX8888
            | PixelFormatEnum::ARGB8888
            | PixelFormatEnum::RGBA8888
            | PixelFormatEnum::ABGR8888
            | PixelFormatEnum::BGRA8888
            | PixelFormatEnum::ARGB2101010 => Some(4),
            PixelFormatEnum::YV12 | PixelFormatEnum::IYUV => Some(1),
            PixelFormatEnum::YUY2 | PixelFormatEnum::UYVY | PixelFormatEnum::YVYU => Some(2),
        }
    }

    /// The identifier of this format, as a [`PixelFormat`].
    pub fn as_pixel_format(&self) -> (format: PixelFormat)
        ensures
            format@ == self.code(),
            format.named() == Some(*self),
    {
        proof {
            self.lemma_with_code_of_code();
        }
        let raw: i32 = match *self {
            PixelFormatEnum::Unknown => codes::UNKNOWN,
            PixelFormatEnum::Index1LSB => codes::INDEX1LSB,
            PixelFormatEnum::Index1MSB => codes::INDEX1MSB,
            PixelFormatEnum::Index4LSB => codes::INDEX4LSB,
            PixelFormatEnum::Index4MSB => codes::INDEX4MSB,
            PixelFormatEnum::Index8 => codes::INDEX8,
            PixelFormatEnum::RGB332 => codes::RGB332,
            PixelFormatEnum::XRGB4444 => codes::XRGB4444,
            PixelFormatEnum::XBGR4444 => codes::XBGR4444,
            PixelFormatEnum::XRGB1555 => codes::XRGB1555,
            PixelFormatEnum::XBGR1555 => codes::XBGR1555,
            PixelFormatEnum::ARGB4444 => codes::ARGB4444,
            PixelFormatEnum::RGBA4444 => codes::RGBA4444,
            PixelFormatEnum::ABGR4444 => codes::ABGR4444,
            PixelFormatEnum::BGRA4444 => codes::BGRA4444,
            PixelFormatEnum::ARGB1555 => codes::ARGB1555,
            PixelFormatEnum::RGBA5551 => codes::RGBA5551,
            PixelFormatEnum::ABGR1555 => codes::ABGR1555,
            PixelFormatEnum::BGRA5551 => codes::BGRA5551,
            PixelFormatEnum::RGB565 => codes::RGB565,
            PixelFormatEnum::BGR565 => codes::BGR565,
            PixelFormatEnum::RGB24 => codes::RGB24,
            PixelFormatEnum::BGR24 => codes::BGR24,
            PixelFormatEnum::XRGB8888 => codes::XRGB8888,
            PixelFormatEnum::RGBX8888 => codes::RGBX8888,
            PixelFormatEnum::XBGR8888 => codes::XBGR8888,
            PixelFormatEnum::BGRX8888 => codes::BGRX8888,
            PixelFormatEnum::ARGB8888 => codes::ARGB8888,
            PixelFormatEnum::RGBA8888 => codes::RGBA8888,
            PixelFormatEnum::ABGR8888 => codes::ABGR8888,
            PixelFormatEnum::BGRA8888 => codes::BGRA8888,
            PixelFormatEnum::ARGB2101010 => codes::ARGB2101010,
            PixelFormatEnum::YV12 => codes::YV12,
            PixelFormatEnum::IYUV => codes::IYUV,
            PixelFormatEnum::YUY2 => codes::YUY2,
            PixelFormatEnum::UYVY => codes::UYVY,
            PixelFormatEnum::YVYU => codes::YVYU,
        };
        PixelFormat { raw }
    }

    /// Two formats with the same identifier are the same format.
    pub proof fn lemma_code_is_injective(self, other: PixelFormatEnum)
        requires
            self.code() == other.code(),
        ensures
            self == other,
    {
    }

    /// Whether the identifier is a four-character code, as those of the YUV
    /// formats are, and not a set of layout fields.
    pub open spec fn is_four_character_code(self) -> bool {
        self.code() != 0 && self.code() / 0x1000_0000 != 1
    }

    /// The byte count that the lowest eight bits of a layout identifier hold.
    pub open spec fn bytes_field(self) -> nat {
        (self.code() % 0x100) as nat
    }

    /// The pixel type that bits 24 to 27 of a layout identifier hold; 4, 5
    /// and 6 are the packed types of 8, 16 and 32 bits.
    pub open spec fn type_field(self) -> int {
        self.code() / 0x100_0000 % 0x10
    }

    /// The channel order that bits 20 to 23 of a layout identifier hold; for
    /// a packed type 3, 4, 7 and 8 are the orders ARGB, RGBA, ABGR and BGRA.
    pub open spec fn order_field(self) -> int {
        self.code() / 0x10_0000 % 0x10
    }

    /// The tables of this module agree with the fields of the identifiers:
    /// the byte count of a format is the one its identifier holds, where it
    /// holds one, and a format has alpha where its identifier is of a packed
    /// type with alpha in its channel order.
    pub proof fn lemma_tables_agree_with_identifier(self)
        ensures
            !self.is_four_character_code() ==> self.bytes_per_pixel() == (if self.bytes_field()
                == 0 {
                None
            } else {
                Some(self.bytes_field())
            }),
            self.is_four_character_code() ==> !self.has_alpha(),
            !self.is_four_character_code() ==> (self.has_alpha() <==> (4 <= self.type_field() <= 6
                && (self.order_field() == 3 || self.order_field() == 4 || self.order_field() == 7
                || self.order_field() == 8))),
    {
    }

    /// A named format, turned into its identifier and from that back into a
    /// named format, is the format it was.
    pub proof fn lemma_round_trip(self)
        ensures
            <PixelFormatEnum as TryFromSpec<PixelFormat>>::try_from_spec(
                <PixelFormat as FromSpec<PixelFormatEnum>>::from_spec(self),
            ) == Ok::<PixelFormatEnum, Error>(self),
    {
        self.lemma_with_code_of_code();
    }

    /// A format is the one that has its identifier.
    pub proof fn lemma_with_code_of_code(self)
        ensures
            Self::with_code(self.code()) == Some(self),
    {
        let found = choose|format: PixelFormatEnum| format.code() == self.code();
        self.lemma_code_is_injective(found);
    }
}

impl PixelFormat {
    /// The named format with this identifier, if there is one.
    pub open spec fn named(self) -> Option<PixelFormatEnum> {
        PixelFormatEnum::with_code(self@)
    }

    /// Whether this is the identifier of a named format with an alpha
    /// component.
    pub open spec fn has_alpha(self) -> bool {
        self.named() matches Some(format) && format.has_alpha()
    }

    /// Whether this is the identifier of a planar YUV format.
    pub open spec fn is_planar_yuv(self) -> bool {
        self.named() matches Some(format) && format.is_planar_yuv()
    }

    /// The bytes counted for one pixel; `None` for an identifier that no
    /// named format has and for a named format without such a count.
    pub open spec fn bytes_per_pixel(self) -> Option<nat> {
        match self.named() {
            Some(format) => format.bytes_per_pixel(),
            None => None,
        }
    }

    /// The bytes counted for `pixels` pixels: for a planar YUV format three
    /// bytes for every full pair of pixels, else the bytes of one pixel times
    /// their number.
    pub open spec fn bytes_of_pixels(self, pixels: nat) -> nat
        recommends
            self.bytes_per_pixel() is Some,
    {
        if self.is_planar_yuv() {
            pixels / 2 * 3
        } else {
            pixels * self.bytes_per_pixel().unwrap()
        }
    }

    /// The bytes of one chroma plane beside a luma plane of `pitch` bytes a
    /// row and `height` rows: half the pitch times half the height, each
    /// half rounded down before the two are multiplied.
    pub open spec fn chroma_plane_bytes(pitch: nat, height: nat) -> nat {
        (pitch / 2) * (height / 2)
    }

    /// The bytes of an image buffer of `height` rows of `pitch` bytes: the
    /// rows alone, and for a planar YUV format two chroma planes more.
    pub open spec fn bytes_of_image(self, pitch: nat, height: nat) -> nat {
        if self.is_planar_yuv() {
            pitch * height + 2 * Self::chroma_plane_bytes(pitch, height)
        } else {
            pitch * height
        }
    }

    /// The identifier of no format.
    pub fn unknown() -> (format: PixelFormat)
        ensures
            format@ == PixelFormatEnum::Unknown.code(),
    {
        PixelFormat { raw: codes::UNKNOWN }
    }

    /// Wraps a numeric identifier as it is.
    pub fn from_ll(raw: i32) -> (format: PixelFormat)
        ensures
            format@ == raw,
    {
        PixelFormat { raw }
    }

    /// The numeric identifier.
    pub fn raw(&self) -> (raw: i32)
        ensures
            raw == self@,
    {
        self.raw
    }

    /// Narrows a wide integer to an identifier.
    pub fn from_i64(format: i64) -> (result: PixelFormat)
        requires
            i32::MIN <= format <= i32::MAX,
        ensures
            result@ == format,
    {
        PixelFormat { raw: format as i32 }
    }

    /// Calculates the total byte size of an image buffer, given its pitch
    /// and height.
    pub fn byte_size_from_pitch_and_height(self, pitch: usize, height: usize) -> (size: usize)
        requires
            self.bytes_of_image(pitch as nat, height as nat) <= usize::MAX,
        ensures
            size == self.bytes_of_image(pitch as nat, height as nat),
    {
        proof {
            lemma_named_formats(self);
            lemma_chroma_planes_fit(pitch as nat, height as nat);
        }
        match self.raw {
            codes::YV12 | codes::IYUV => {
                // The luma plane has `pitch` bytes a row and `height` rows;
                // each chroma plane has half the width and half the height,
                // both rounded down.
                pitch * height + 2 * ((pitch / 2) * (height / 2))
            },
            _ => pitch * height,
        }
    }

    /// Whether the format has a byte count per pixel, that is, whether
    /// [`PixelFormat::byte_size_of_pixels`] and
    /// [`PixelFormat::byte_size_per_pixel`] accept it.
    pub fn has_byte_size(self) -> (supported: bool)
        ensures
            supported == self.bytes_per_pixel() is Some,
    {
        proof {
            lemma_named_formats(self);
        }
        match self.raw {
            codes::UNKNOWN
            | codes::INDEX1LSB
            | codes::INDEX1MSB
            | codes::INDEX4LSB
            | codes::INDEX4MSB => false,
            codes::INDEX8
            | codes::RGB332
            | codes::XRGB4444
            | codes::XBGR4444
            | codes::XRGB1555
            | codes::XBGR1555
            | codes::ARGB4444
            | codes::RGBA4444
            | codes::ABGR4444
            | codes::BGRA4444
            | codes::ARGB1555
            | codes::RGBA5551
            | codes::ABGR1555
            | codes::BGRA5551
            | codes::RGB565
            | codes::BGR565
            | codes::RGB24
            | codes::BGR24
            | codes::XRGB8888
            | codes::RGBX8888
            | codes::XBGR8888
            | codes::BGRX8888
            | codes::ARGB8888
            | codes::RGBA8888
            | codes::ABGR8888
            | codes::BGRA8888
            | codes::ARGB2101010
            | codes::YV12
            | codes::IYUV
            | codes::YUY2
            | codes::UYVY
            | codes::YVYU => true,
            _ => false,
        }
    }

    /// The byte size of `num_of_pixels` pixels.
    pub fn byte_size_of_pixels(self, num_of_pixels: usize) -> (size: usize)
        requires
            self.bytes_per_pixel() is Some,
            self.bytes_of_pixels(num_of_pixels as nat) <= usize::MAX,
        ensures
            size == self.bytes_of_pixels(num_of_pixels as nat),
    {
        proof {
            lemma_named_formats(self);
            let pixels = num_of_pixels as nat;
            let each = self.bytes_per_pixel().unwrap();
            assert(each == 1 ==> pixels * each == pixels) by (nonlinear_arith);
            assert(each == 2 ==> pixels * each == pixels * 2) by (nonlinear_arith);
            assert(each == 3 ==> pixels * each == pixels * 3) by (nonlinear_arith);
            assert(each == 4 ==> pixels * each == pixels * 4) by (nonlinear_arith);
        }
        match self.raw {
            codes::RGB332 | codes::INDEX8 => num_of_pixels,
            codes::XRGB4444
            | codes::XBGR4444
            | codes::XRGB1555
            | codes::XBGR1555
            | codes::ARGB4444
            | codes::RGBA4444
            | codes::ABGR4444
            | codes::BGRA4444
            | codes::ARGB1555
            | codes::RGBA5551
            | codes::ABGR1555
            | codes::BGRA5551
            | codes::RGB565
            | codes::BGR565 => num_of_pixels * 2,
            codes::RGB24 | codes::BGR24 => num_of_pixels * 3,
            codes::XRGB8888
            | codes::RGBX8888
            | codes::XBGR8888
            | codes::BGRX8888
            | codes::ARGB8888
            | codes::RGBA8888
            | codes::ABGR8888
            | codes::BGRA8888
            | codes::ARGB2101010 => num_of_pixels * 4,
            codes::YV12 | codes::IYUV => num_of_pixels / 2 * 3,
            codes::YUY2 | codes::UYVY | codes::YVYU => num_of_pixels * 2,
            _ => unreached(),
        }
    }

    /// The byte size counted for one pixel.
    pub fn byte_size_per_pixel(self) -> (size: usize)
        requires
            self.bytes_per_pixel() is Some,
        ensures
            size == self.bytes_per_pixel().unwrap(),
    {
        proof {
            lemma_named_formats(self);
        }
        match self.raw {
            codes::RGB332 | codes::INDEX8 => 1,
            codes::XRGB4444
            | codes::XBGR4444
            | codes::XRGB1555
            | codes::XBGR1555
            | codes::ARGB4444
            | codes::RGBA4444
            | codes::ABGR4444
            | codes::BGRA4444
            | codes::ARGB1555
            | codes::RGBA5551
            | codes::ABGR1555
            | codes::BGRA5551
            | codes::RGB565
            | codes::BGR565 => 2,
            codes::RGB24 | codes::BGR24 => 3,
            codes::XRGB8888
            | codes::RGBX8888
            | codes::XBGR8888
            | codes::BGRX8888
            | codes::ARGB8888
            | codes::RGBA8888
            | codes::ABGR8888
            | codes::BGRA8888
            | codes::ARGB2101010 => 4,
            codes::YV12 | codes::IYUV => 1,
            codes::YUY2 | codes::UYVY | codes::YVYU => 2,
            _ => unreached(),
        }
    }

    /// The total byte size of an image buffer, given its pitch and height,
    /// where that size fits `usize`.
    pub fn checked_byte_size_from_pitch_and_height(self, pitch: usize, height: usize) -> (size:
        Option<usize>)
        ensures
            size == (if self.bytes_of_image(pitch as nat, height as nat) <= usize::MAX {
                Some(self.bytes_of_image(pitch as nat, height as nat) as usize)
            } else {
                None
            }),
    {
        proof {
            lemma_named_formats(self);
            lemma_chroma_planes_fit(pitch as nat, height as nat);
        }
        let fits = match pitch.checked_mul(height) {
            None => false,
            Some(rows) => match self.raw {
                codes::YV12 | codes::IYUV => rows.checked_add(
                    2 * ((pitch / 2) * (height / 2)),
                ).is_some(),
                _ => true,
            },
        };
        if fits {
            Some(self.byte_size_from_pitch_and_height(pitch, height))
        } else {
            None
        }
    }

    /// The byte size of `num_of_pixels` pixels, where the format has a byte
    /// count per pixel and the size fits `usize`.
    pub fn checked_byte_size_of_pixels(self, num_of_pixels: usize) -> (size: Option<usize>)
        ensures
            size == (if self.bytes_per_pixel() is Some && self.bytes_of_pixels(num_of_pixels as nat)
                <= usize::MAX {
                Some(self.bytes_of_pixels(num_of_pixels as nat) as usize)
            } else {
                None
            }),
    {
        if !self.has_byte_size() {
            return None;
        }
        proof {
            lemma_named_formats(self);
        }
        let fits = match self.raw {
            codes::YV12 | codes::IYUV => (num_of_pixels / 2).checked_mul(3).is_some(),
            _ => num_of_pixels.checked_mul(self.byte_size_per_pixel()).is_some(),
        };
        if fits {
            Some(self.byte_size_of_pixels(num_of_pixels))
        } else {
            None
        }
    }

    /// Whether the format has an alpha component.
    pub fn supports_alpha(self) -> (alpha: bool)
        ensures
            alpha == self.has_alpha(),
    {
        proof {
            lemma_named_formats(self);
        }
        matches!(
            self.raw,
            codes::ARGB4444
                | codes::ARGB1555
                | codes::ARGB8888
                | codes::ARGB2101010
                | codes::ABGR4444
                | codes::ABGR1555
                | codes::ABGR8888
                | codes::BGRA4444
                | codes::BGRA5551
                | codes::BGRA8888
                | codes::RGBA4444
                | codes::RGBA5551
                | codes::RGBA8888
        )
    }
}

impl From<PixelFormat> for SDL_PixelFormat {
    fn from(pf: PixelFormat) -> (raw: SDL_PixelFormat) {
        SDL_PixelFormat(pf.raw)
    }
}

impl FromSpecImpl<PixelFormat> for SDL_PixelFormat {
    open spec fn obeys_from_spec() -> bool {
        true
    }

    /// The native identifier of the same number.
    open spec fn from_spec(pf: PixelFormat) -> SDL_PixelFormat {
        SDL_PixelFormat(pf.raw)
    }
}

impl From<PixelFormatEnum> for PixelFormat {
    fn from(fmt: PixelFormatEnum) -> (format: PixelFormat) {
        fmt.as_pixel_format()
    }
}

impl FromSpecImpl<PixelFormatEnum> for PixelFormat {
    open spec fn obeys_from_spec() -> bool {
        true
    }

    open spec fn from_spec(fmt: PixelFormatEnum) -> PixelFormat {
        PixelFormat { raw: fmt.code() as i32 }
    }
}

impl TryFrom<PixelFormat> for PixelFormatEnum {
    type Error = Error;

    fn try_from(value: PixelFormat) -> (result: Result<Self, Self::Error>) {
        proof {
            lemma_named_formats(value);
        }
        match value.raw {
            codes::UNKNOWN => Ok(PixelFormatEnum::Unknown),
            codes::INDEX1LSB => Ok(PixelFormatEnum::Index1LSB),
            codes::INDEX1MSB => Ok(PixelFormatEnum::Index1MSB),
            codes::INDEX4LSB => Ok(PixelFormatEnum::Index4LSB),
            codes::INDEX4MSB => Ok(PixelFormatEnum::Index4MSB),
            codes::INDEX8 => Ok(PixelFormatEnum::Index8),
            codes::RGB332 => Ok(PixelFormatEnum::RGB332),
            codes::XRGB4444 => Ok(PixelFormatEnum::XRGB4444),
            codes::XBGR4444 => Ok(PixelFormatEnum::XBGR4444),
            codes::XRGB1555 => Ok(PixelFormatEnum::XRGB1555),
            codes::XBGR1555 => Ok(PixelFormatEnum::XBGR1555),
            codes::ARGB4444 => Ok(PixelFormatEnum::ARGB4444),
            codes::RGBA4444 => Ok(PixelFormatEnum::RGBA4444),
            codes::ABGR4444 => Ok(PixelFormatEnum::ABGR4444),
            codes::BGRA4444 => Ok(PixelFormatEnum::BGRA4444),
            codes::ARGB1555 => Ok(PixelFormatEnum::ARGB1555),
            codes::RGBA5551 => Ok(PixelFormatEnum::RGBA5551),
            codes::ABGR1555 => Ok(PixelFormatEnum::ABGR1555),
            codes::BGRA5551 => Ok(PixelFormatEnum::BGRA5551),
            codes::RGB565 => Ok(PixelFormatEnum::RGB565),
            codes::BGR565 => Ok(PixelFormatEnum::BGR565),
            codes::RGB24 => Ok(PixelFormatEnum::RGB24),
            codes::BGR24 => Ok(PixelFormatEnum::BGR24),
            codes::XRGB8888 => Ok(PixelFormatEnum::XRGB8888),
            codes::RGBX8888 => Ok(PixelFormatEnum::RGBX8888),
            codes::XBGR8888 => Ok(PixelFormatEnum::XBGR8888),
            codes::BGRX8888 => Ok(PixelFormatEnum::BGRX8888),
            codes::ARGB8888 => Ok(PixelFormatEnum::ARGB8888),
            codes::RGBA8888 => Ok(PixelFormatEnum::RGBA8888),
            codes::ABGR8888 => Ok(PixelFormatEnum::ABGR8888),
            codes::BGRA8888 => Ok(PixelFormatEnum::BGRA8888),
            codes::ARGB2101010 => Ok(PixelFormatEnum::ARGB2101010),
            codes::YV12 => Ok(PixelFormatEnum::YV12),
            codes::IYUV => Ok(PixelFormatEnum::IYUV),
            codes::YUY2 => Ok(PixelFormatEnum::YUY2),
            codes::UYVY => Ok(PixelFormatEnum::UYVY),
            codes::YVYU => Ok(PixelFormatEnum::YVYU),
            _ => Err(Error::UnknownPixelFormat),
        }
    }
}

impl TryFromSpecImpl<PixelFormat> for PixelFormatEnum {
    open spec fn obeys_try_from_spec() -> bool {
        true
    }

    open spec fn try_from_spec(value: PixelFormat) -> Result<Self, Error> {
        match value.named() {
            Some(format) => Ok(format),
            None => Err(Error::UnknownPixelFormat),
        }
    }
}

/// The named format of each identifier that has one; every other identifier
/// has none.
proof fn lemma_named_formats(format: PixelFormat)
    ensures
        format@ == codes::UNKNOWN ==> format.named() == Some(PixelFormatEnum::Unknown),
        format@ == codes::INDEX1LSB ==> format.named() == Some(PixelFormatEnum::Index1LSB),
        format@ == codes::INDEX1MSB ==> format.named() == Some(PixelFormatEnum::Index1MSB),
        format@ == codes::INDEX4LSB ==> format.named() == Some(PixelFormatEnum::Index4LSB),
        format@ == codes::INDEX4MSB ==> format.named() == Some(PixelFormatEnum::Index4MSB),
        format@ == codes::INDEX8 ==> format.named() == Some(PixelFormatEnum::Index8),
        format@ == codes::RGB332 ==> format.named() == Some(PixelFormatEnum::RGB332),
        format@ == codes::XRGB4444 ==> format.named() == Some(PixelFormatEnum::XRGB4444),
        format@ == codes::XBGR4444 ==> format.named() == Some(PixelFormatEnum::XBGR4444),
        format@ == codes::XRGB1555 ==> format.named() == Some(PixelFormatEnum::XRGB1555),
        format@ == codes::XBGR1555 ==> format.named() == Some(PixelFormatEnum::XBGR1555),
        format@ == codes::ARGB4444 ==> format.named() == Some(PixelFormatEnum::ARGB4444),
        format@ == codes::RGBA4444 ==> format.named() == Some(PixelFormatEnum::RGBA4444),
        format@ == codes::ABGR4444 ==> format.named() == Some(PixelFormatEnum::ABGR4444),
        format@ == codes::BGRA4444 ==> format.named() == Some(PixelFormatEnum::BGRA4444),
        format@ == codes::ARGB1555 ==> format.named() == Some(PixelFormatEnum::ARGB1555),
        format@ == codes::RGBA5551 ==> format.named() == Some(PixelFormatEnum::RGBA5551),
        format@ == codes::ABGR1555 ==> format.named() == Some(PixelFormatEnum::ABGR1555),
        format@ == codes::BGRA5551 ==> format.named() == Some(PixelFormatEnum::BGRA5551),
        format@ == codes::RGB565 ==> format.named() == Some(PixelFormatEnum::RGB565),
        format@ == codes::BGR565 ==> format.named() == Some(PixelFormatEnum::BGR565),
        format@ == codes::RGB24 ==> format.named() == Some(PixelFormatEnum::RGB24),
        format@ == codes::BGR24 ==> format.named() == Some(PixelFormatEnum::BGR24),
        format@ == codes::XRGB8888 ==> format.named() == Some(PixelFormatEnum::XRGB8888),
        format@ == codes::RGBX8888 ==> format.named() == Some(PixelFormatEnum::RGBX8888),
        format@ == codes::XBGR8888 ==> format.named() == Some(PixelFormatEnum::XBGR8888),
        format@ == codes::BGRX8888 ==> format.named() == Some(PixelFormatEnum::BGRX8888),
        format@ == codes::ARGB8888 ==> format.named() == Some(PixelFormatEnum::ARGB8888),
        format@ == codes::RGBA8888 ==> format.named() == Some(PixelFormatEnum::RGBA8888),
        format@ == codes::ABGR8888 ==> format.named() == Some(PixelFormatEnum::ABGR8888),
        format@ == codes::BGRA8888 ==> format.named() == Some(PixelFormatEnum::BGRA8888),
        format@ == codes::ARGB2101010 ==> format.named() == Some(PixelFormatEnum::ARGB2101010),
        format@ == codes::YV12 ==> format.named() == Some(PixelFormatEnum::YV12),
        format@ == codes::IYUV ==> format.named() == Some(PixelFormatEnum::IYUV),
        format@ == codes::YUY2 ==> format.named() == Some(PixelFormatEnum::YUY2),
        format@ == codes::UYVY ==> format.named() == Some(PixelFormatEnum::UYVY),
        format@ == codes::YVYU ==> format.named() == Some(PixelFormatEnum::YVYU),
        format.named() is Some ==> format.named()->Some_0.code() == format@,
{
    PixelFormatEnum::Unknown.lemma_with_code_of_code();
    PixelFormatEnum::Index1LSB.lemma_with_code_of_code();
    PixelFormatEnum::Index1MSB.lemma_with_code_of_code();
    PixelFormatEnum::Index4LSB.lemma_with_code_of_code();
    PixelFormatEnum::Index4MSB.lemma_with_code_of_code();
    PixelFormatEnum::Index8.lemma_with_code_of_code();
    PixelFormatEnum::RGB332.lemma_with_code_of_code();
    PixelFormatEnum::XRGB4444.lemma_with_code_of_code();
    PixelFormatEnum::XBGR4444.lemma_with_code_of_code();
    PixelFormatEnum::XRGB1555.lemma_with_code_of_code();
    PixelFormatEnum::XBGR1555.lemma_with_code_of_code();
    PixelFormatEnum::ARGB4444.lemma_with_code_of_code();
    PixelFormatEnum::RGBA4444.lemma_with_code_of_code();
    PixelFormatEnum::ABGR4444.lemma_with_code_of_code();
    PixelFormatEnum::BGRA4444.lemma_with_code_of_code();
    PixelFormatEnum::ARGB1555.lemma_with_code_of_code();
    PixelFormatEnum::RGBA5551.lemma_with_code_of_code();
    PixelFormatEnum::ABGR1555.lemma_with_code_of_code();
    PixelFormatEnum::BGRA5551.lemma_with_code_of_code();
    PixelFormatEnum::RGB565.lemma_with_code_of_code();
    PixelFormatEnum::BGR565.lemma_with_code_of_code();
    PixelFormatEnum::RGB24.lemma_with_code_of_code();
    PixelFormatEnum::BGR24.lemma_with_code_of_code();
    PixelFormatEnum::XRGB8888.lemma_with_code_of_code();
    PixelFormatEnum::RGBX8888.lemma_with_code_of_code();
    PixelFormatEnum::XBGR8888.lemma_with_code_of_code();
    PixelFormatEnum::BGRX8888.lemma_with_code_of_code();
    PixelFormatEnum::ARGB8888.lemma_with_code_of_code();
    PixelFormatEnum::RGBA8888.lemma_with_code_of_code();
    PixelFormatEnum::ABGR8888.lemma_with_code_of_code();
    PixelFormatEnum::BGRA8888.lemma_with_code_of_code();
    PixelFormatEnum::ARGB2101010.lemma_with_code_of_code();
    PixelFormatEnum::YV12.lemma_with_code_of_code();
    PixelFormatEnum::IYUV.lemma_with_code_of_code();
    PixelFormatEnum::YUY2.lemma_with_code_of_code();
    PixelFormatEnum::UYVY.lemma_with_code_of_code();
    PixelFormatEnum::YVYU.lemma_with_code_of_code();
}

/// The two chroma planes together take no more bytes than the luma plane.
proof fn lemma_chroma_planes_fit(pitch: nat, height: nat)
    ensures
        (pitch / 2) * (height / 2) <= (pitch / 2) * height,
        (pitch / 2) * height <= pitch * height,
        2 * ((pitch / 2) * (height / 2)) <= pitch * height,
{
    let half_pitch = pitch / 2;
    let half_height = height / 2;
    assert(half_pitch * half_height <= half_pitch * height) by (nonlinear_arith)
        requires
            half_height <= height,
    ;
    assert(half_pitch * height <= pitch * height) by (nonlinear_arith)
        requires
            half_pitch <= pitch,
    ;
    assert(2 * (half_pitch * half_height) <= pitch * height) by (nonlinear_arith)
        requires
            2 * half_pitch <= pitch,
            half_height <= height,
    ;
}

} // verus!
