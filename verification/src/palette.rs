//! Palettes: the color tables of the indexed pixel formats.

use crate::color::Color;
use crate::error::Error;
use vstd::prelude::*;

verus! {

/// A table of colors that the pixels of an indexed format point into.
///
/// The table owns its entries. Their number is fixed when the table is made
/// and always fits a signed 32-bit count.
pub struct Palette {
    colors: Vec<Color>,
}

impl View for Palette {
    type V = Seq<Color>;

    /// The entries, in index order.
    closed spec fn view(&self) -> Seq<Color> {
        self.colors@
    }
}

impl Palette {
    /// The largest number of entries a palette can have.
    pub const MAX_LEN: usize = 0x7fff_ffff;

    #[verifier::type_invariant]
    spec fn count_is_representable(self) -> bool {
        self.colors@.len() <= Self::MAX_LEN
    }

    /// The entry that a new palette holds at every index: opaque white.
    pub open spec fn blank() -> Color {
        Color { r: 255, g: 255, b: 255, a: 255 }
    }

    /// The error that refuses `capacity`: the capacity itself, or the largest
    /// unsigned 32-bit value where the capacity is above it.
    pub open spec fn overflow(capacity: nat) -> Error {
        Error::CapacityOverflows(
            if capacity > u32::MAX {
                u32::MAX
            } else {
                capacity as u32
            },
        )
    }

    /// The entry count for a requested capacity: the capacity, where it is
    /// at most [`Palette::MAX_LEN`]; every larger capacity is refused.
    pub open spec fn checked_capacity(capacity: nat) -> Result<i32, Error> {
        if capacity <= Self::MAX_LEN {
            Ok(capacity as i32)
        } else {
            Err(Self::overflow(capacity))
        }
    }

    /// The entries of a new palette of `capacity` entries.
    pub open spec fn created(capacity: nat) -> Result<Seq<Color>, Error> {
        match Self::checked_capacity(capacity) {
            Ok(_) => Ok(Seq::new(capacity, |i: int| Self::blank())),
            Err(error) => Err(error),
        }
    }

    /// The entries of a palette made from `colors`.
    pub open spec fn filled(colors: Seq<Color>) -> Result<Seq<Color>, Error> {
        match Self::checked_capacity(colors.len()) {
            Ok(_) => Ok(colors),
            Err(error) => Err(error),
        }
    }

    /// Checks that a requested capacity fits a signed 32-bit count, and
    /// gives it as one.
    pub fn validate_capacity(capacity: usize) -> (count: Result<i32, Error>)
        ensures
            count == Self::checked_capacity(capacity as nat),
    {
        let u32_max = u32::MAX as usize;
        let clamped: u32 = if capacity > u32_max {
            u32::MAX
        } else {
            capacity as u32
        };
        if clamped > i32::MAX as u32 {
            Err(Error::CapacityOverflows(clamped))
        } else {
            Ok(clamped as i32)
        }
    }

    /// Creates a palette of `capacity` entries, each of them opaque white.
    pub fn new(capacity: usize) -> (palette: Result<Palette, Error>)
        ensures
            match palette {
                Ok(table) => Self::created(capacity as nat) == Ok::<Seq<Color>, Error>(table@),
                Err(error) => Self::created(capacity as nat) == Err::<Seq<Color>, Error>(error),
            },
    {
        match Self::validate_capacity(capacity) {
            Err(error) => Err(error),
            Ok(_) => {
                let mut colors: Vec<Color> = Vec::new();
                let mut filled: usize = 0;
                while filled < capacity
                    invariant
                        filled <= capacity,
                        colors@ == Seq::new(filled as nat, |i: int| Self::blank()),
                    decreases capacity - filled,
                {
                    colors.push(Color::WHITE());
                    filled += 1;
                }
                Ok(Palette { colors })
            },
        }
    }

    /// Creates a palette from the provided colors
    pub fn with_colors(colors: &[Color]) -> (palette: Result<Palette, Error>)
        ensures
            match palette {
                Ok(table) => Self::filled(colors@) == Ok::<Seq<Color>, Error>(table@),
                Err(error) => Self::filled(colors@) == Err::<Seq<Color>, Error>(error),
            },
    {
        match Self::validate_capacity(colors.len()) {
            Err(error) => Err(error),
            Ok(_) => {
                let mut entries: Vec<Color> = Vec::new();
                let mut copied: usize = 0;
                while copied < colors.len()
                    invariant
                        copied <= colors.len(),
                        entries@ == colors@.take(copied as int),
                    decreases colors.len() - copied,
                {
                    entries.push(colors[copied]);
                    copied += 1;
                }
                assert(colors@.take(copied as int) =~= colors@);
                Ok(Palette { colors: entries })
            },
        }
    }

    /// The number of entries.
    pub fn len(&self) -> (count: usize)
        ensures
            count == self@.len(),
            count <= Self::MAX_LEN,
    {
        proof {
            use_type_invariant(self);
        }
        self.colors.len()
    }

    /// Whether the palette has no entry.
    pub fn is_empty(&self) -> (empty: bool)
        ensures
            empty == (self@.len() == 0),
    {
        self.len() == 0
    }

    /// The entries, in index order.
    pub fn colors(&self) -> (entries: &[Color])
        ensures
            entries@ == self@,
    {
        self.colors.as_slice()
    }

    /// A palette made from at most [`Palette::MAX_LEN`] colors has as many
    /// entries as there are colors.
    pub proof fn lemma_filled_len(colors: Seq<Color>)
        requires
            colors.len() <= Self::MAX_LEN,
        ensures
            Self::filled(colors) is Ok,
            Self::filled(colors)->Ok_0.len() == colors.len(),
    {
    }

    /// Every capacity above [`Palette::MAX_LEN`] is refused with
    /// [`Error::CapacityOverflows`]; no palette is made for it.
    pub proof fn lemma_oversized_is_refused(capacity: nat)
        requires
            capacity > Self::MAX_LEN,
        ensures
            Self::created(capacity) == Err::<Seq<Color>, Error>(Self::overflow(capacity)),
    {
    }
}

} // verus!
