//! The recoverable errors of the pixel model.

use vstd::prelude::*;

verus! {

/// Why an operation of this crate was refused.
#[derive(Copy, Clone, Eq, PartialEq, Hash, Debug, Structural)]
pub enum Error {
    /// A palette capacity does not fit a signed 32-bit count. The field is
    /// the requested capacity, clamped to the largest unsigned 32-bit value.
    CapacityOverflows(u32),
    /// A format identifier that is none of the named pixel formats.
    UnknownPixelFormat,
}

/// The character of one decimal digit.
pub open spec fn digit(value: nat) -> char
    recommends
        value < 10,
{
    if value == 0 {
        '0'
    } else if value == 1 {
        '1'
    } else if value == 2 {
        '2'
    } else if value == 3 {
        '3'
    } else if value == 4 {
        '4'
    } else if value == 5 {
        '5'
    } else if value == 6 {
        '6'
    } else if value == 7 {
        '7'
    } else if value == 8 {
        '8'
    } else {
        '9'
    }
}

/// The decimal digits of a number, most significant first, without leading
/// zeros.
pub open spec fn decimal(value: nat) -> Seq<char>
    decreases value,
{
    if value < 10 {
        seq![digit(value)]
    } else {
        decimal(value / 10).push(digit(value % 10))
    }
}

/// One decimal digit as text.
fn digit_text(value: u32) -> (text: &'static str)
    requires
        value < 10,
    ensures
        text@ == seq![digit(value as nat)],
{
    proof {
        reveal_strlit("0");
        reveal_strlit("1");
        reveal_strlit("2");
        reveal_strlit("3");
        reveal_strlit("4");
        reveal_strlit("5");
        reveal_strlit("6");
        reveal_strlit("7");
        reveal_strlit("8");
        reveal_strlit("9");
    }
    let text = match value {
        0 => "0",
        1 => "1",
        2 => "2",
        3 => "3",
        4 => "4",
        5 => "5",
        6 => "6",
        7 => "7",
        8 => "8",
        _ => "9",
    };
    assert(text@ =~= seq![digit(value as nat)]);
    text
}

/// A number in decimal.
fn decimal_text(value: u32) -> (text: String)
    ensures
        text@ == decimal(value as nat),
    decreases value,
{
    if value < 10 {
        String::from_str(digit_text(value))
    } else {
        let mut text = decimal_text(value / 10);
        text.append(digit_text(value % 10));
        assert(text@ =~= decimal(value as nat));
        text
    }
}

impl Error {
    /// The message of the error, as a sequence of characters.
    pub open spec fn text(self) -> Seq<char> {
        match self {
            Error::CapacityOverflows(capacity) => "Integer 'capacity' overflows ("@ + decimal(
                capacity as nat,
            ) + ")"@,
            Error::UnknownPixelFormat => "Unknown pixel format"@,
        }
    }

    /// A message that describes the error.
    pub fn message(&self) -> (message: String)
        ensures
            message@ == self.text(),
    {
        match *self {
            Error::CapacityOverflows(capacity) => {
                let mut message = String::from_str("Integer 'capacity' overflows (");
                let digits = decimal_text(capacity);
                message.append(digits.as_str());
                message.append(")");
                message
            },
            Error::UnknownPixelFormat => String::from_str("Unknown pixel format"),
        }
    }
}

} // verus!
