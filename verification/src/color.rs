//! Colors with red, green, blue and alpha channels.

use sdl3_sys::pixels::SDL_Color;
use vstd::prelude::*;
use vstd::std_specs::convert::FromSpec;
use vstd::std_specs::convert::FromSpecImpl;

verus! {

/// `sdl3_sys::pixels::SDL_Color`, the color record of the native pixel
/// subsystem, declared with its fields: four public 8-bit channels `r`, `g`,
/// `b` and `a`. The conversions below read and fill those fields and are
/// verified against them.
#[verifier::external_type_specification]
pub struct ExSdlColor(SDL_Color);

/// A color of four 8-bit channels. Every combination of channel values is a
/// valid color; an alpha of 255 is fully opaque.
#[derive(Copy, Clone, Eq, PartialEq, Hash, Debug, Structural)]
pub struct Color {
    pub r: u8,
    pub g: u8,
    pub b: u8,
    pub a: u8,
}

impl Color {
    /// The complement of one channel value.
    pub open spec fn complement(channel: u8) -> u8 {
        (255 - channel) as u8
    }

    /// The color whose four channels are the complements of this color's.
    pub open spec fn inverted(self) -> Color {
        Color {
            r: Self::complement(self.r),
            g: Self::complement(self.g),
            b: Self::complement(self.b),
            a: Self::complement(self.a),
        }
    }

    /// An opaque color.
    #[allow(non_snake_case)]
    pub fn RGB(r: u8, g: u8, b: u8) -> (color: Color)
        ensures
            color == (Color { r, g, b, a: 255 }),
    {
        Color { r, g, b, a: 0xff }
    }

    /// A color with the given alpha.
    #[allow(non_snake_case)]
    pub fn RGBA(r: u8, g: u8, b: u8, a: u8) -> (color: Color)
        ensures
            color == (Color { r, g, b, a }),
    {
        Color { r, g, b, a }
    }

    /// Complements every channel, alpha included.
    pub fn invert(self) -> (color: Color)
        ensures
            color == self.inverted(),
    {
        Color::RGBA(255 - self.r, 255 - self.g, 255 - self.b, 255 - self.a)
    }

    /// The red, green and blue channels.
    pub fn rgb(self) -> (channels: (u8, u8, u8))
        ensures
            channels == (self.r, self.g, self.b),
    {
        (self.r, self.g, self.b)
    }

    /// All four channels, alpha last.
    pub fn rgba(self) -> (channels: (u8, u8, u8, u8))
        ensures
            channels == (self.r, self.g, self.b, self.a),
    {
        (self.r, self.g, self.b, self.a)
    }

    /// Opaque white.
    #[allow(non_snake_case)]
    pub fn WHITE() -> (color: Color)
        ensures
            color == (Color { r: 255, g: 255, b: 255, a: 255 }),
    {
        Color::RGBA(255, 255, 255, 255)
    }

    /// Opaque black.
    #[allow(non_snake_case)]
    pub fn BLACK() -> (color: Color)
        ensures
            color == (Color { r: 0, g: 0, b: 0, a: 255 }),
    {
        Color::RGBA(0, 0, 0, 255)
    }

    /// Opaque mid gray.
    #[allow(non_snake_case)]
    pub fn GRAY() -> (color: Color)
        ensures
            color == (Color { r: 128, g: 128, b: 128, a: 255 }),
    {
        Color::RGBA(128, 128, 128, 255)
    }

    /// Another spelling of [`Color::GRAY`].
    #[allow(non_snake_case)]
    pub fn GREY() -> (color: Color)
        ensures
            color == (Color { r: 128, g: 128, b: 128, a: 255 }),
    {
        Color::GRAY()
    }

    /// Opaque red.
    #[allow(non_snake_case)]
    pub fn RED() -> (color: Color)
        ensures
            color == (Color { r: 255, g: 0, b: 0, a: 255 }),
    {
        Color::RGBA(255, 0, 0, 255)
    }

    /// Opaque green.
    #[allow(non_snake_case)]
    pub fn GREEN() -> (color: Color)
        ensures
            color == (Color { r: 0, g: 255, b: 0, a: 255 }),
    {
        Color::RGBA(0, 255, 0, 255)
    }

    /// Opaque blue.
    #[allow(non_snake_case)]
    pub fn BLUE() -> (color: Color)
        ensures
            color == (Color { r: 0, g: 0, b: 255, a: 255 }),
    {
        Color::RGBA(0, 0, 255, 255)
    }

    /// Opaque magenta.
    #[allow(non_snake_case)]
    pub fn MAGENTA() -> (color: Color)
        ensures
            color == (Color { r: 255, g: 0, b: 255, a: 255 }),
    {
        Color::RGBA(255, 0, 255, 255)
    }

    /// Opaque yellow.
    #[allow(non_snake_case)]
    pub fn YELLOW() -> (color: Color)
        ensures
            color == (Color { r: 255, g: 255, b: 0, a: 255 }),
    {
        Color::RGBA(255, 255, 0, 255)
    }

    /// Opaque cyan.
    #[allow(non_snake_case)]
    pub fn CYAN() -> (color: Color)
        ensures
            color == (Color { r: 0, g: 255, b: 255, a: 255 }),
    {
        Color::RGBA(0, 255, 255, 255)
    }

    /// The native record with the same four channels.
    pub fn raw(self) -> (raw: SDL_Color)
        ensures
            raw == (SDL_Color { r: self.r, g: self.g, b: self.b, a: self.a }),
    {
        SDL_Color { r: self.r, g: self.g, b: self.b, a: self.a }
    }

    /// A color, turned into the native record and back, is the color it was.
    pub proof fn lemma_native_round_trip(self)
        ensures
            <Color as FromSpec<SDL_Color>>::from_spec(
                <SDL_Color as FromSpec<Color>>::from_spec(self),
            ) == self,
    {
    }

    /// Inverting twice gives the color back.
    pub proof fn lemma_invert_is_involution(self)
        ensures
            self.inverted().inverted() == self,
    {
    }
}

impl From<(u8, u8, u8)> for Color {
    fn from(channels: (u8, u8, u8)) -> (color: Color) {
        Color::RGB(channels.0, channels.1, channels.2)
    }
}

impl FromSpecImpl<(u8, u8, u8)> for Color {
    open spec fn obeys_from_spec() -> bool {
        true
    }

    /// The opaque color of three channels.
    open spec fn from_spec(channels: (u8, u8, u8)) -> Color {
        Color { r: channels.0, g: channels.1, b: channels.2, a: 255 }
    }
}

impl From<(u8, u8, u8, u8)> for Color {
    fn from(channels: (u8, u8, u8, u8)) -> (color: Color) {
        Color::RGBA(channels.0, channels.1, channels.2, channels.3)
    }
}

impl FromSpecImpl<(u8, u8, u8, u8)> for Color {
    open spec fn obeys_from_spec() -> bool {
        true
    }

    /// The color of four channels, alpha last.
    open spec fn from_spec(channels: (u8, u8, u8, u8)) -> Color {
        Color { r: channels.0, g: channels.1, b: channels.2, a: channels.3 }
    }
}

impl From<Color> for SDL_Color {
    fn from(val: Color) -> (raw: SDL_Color) {
        val.raw()
    }
}

impl FromSpecImpl<Color> for SDL_Color {
    open spec fn obeys_from_spec() -> bool {
        true
    }

    /// The native record with the channels of the color.
    open spec fn from_spec(val: Color) -> SDL_Color {
        SDL_Color { r: val.r, g: val.g, b: val.b, a: val.a }
    }
}

impl From<SDL_Color> for Color {
    fn from(raw: SDL_Color) -> (color: Color) {
        Color::RGBA(raw.r, raw.g, raw.b, raw.a)
    }
}

impl FromSpecImpl<SDL_Color> for Color {
    open spec fn obeys_from_spec() -> bool {
        true
    }

    /// The color with the channels of the native record.
    open spec fn from_spec(raw: SDL_Color) -> Color {
        Color { r: raw.r, g: raw.g, b: raw.b, a: raw.a }
    }
}

} // verus!
