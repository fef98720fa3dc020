use vstd::prelude::*;

verus! {

/// A single byte interpreted as an ASCII character.
#[derive(Clone, Copy, Debug, Hash, PartialEq, Eq, Structural)]
pub struct Ascii(pub u8);

/// Why a character could not be read as ASCII.
#[derive(Clone, Copy, Debug, PartialEq, Eq, Structural)]
pub enum AsciiError {
    ValueNotAscii(char),
}

impl Ascii {
    pub fn char(self) -> (r: char)
        requires
            self.0 < 128,
        ensures
            r == self.0 as char,
    {
        self.0 as char
    }

    pub fn u8(self) -> (r: u8)
        ensures
            r == self.0,
    {
        self.0
    }

    pub fn from_u8(value: u8) -> (r: Self)
        ensures
            r == Ascii(value),
    {
        Ascii(value)
    }

    /// The byte of a character, when the character is ASCII; the character
    /// itself otherwise, as the error.
    pub fn from_char(value: char) -> (r: Result<Self, AsciiError>)
        ensures
            (value as u32) < 128 ==> r == Result::<Self, AsciiError>::Ok(
                Ascii((value as u32) as u8),
            ),
            (value as u32) >= 128 ==> r == Result::<Self, AsciiError>::Err(
                AsciiError::ValueNotAscii(value),
            ),
    {
        let code = value as u32;
        if code < 128 {
            Ok(Ascii(code as u8))
        } else {
            Err(AsciiError::ValueNotAscii(value))
        }
    }

    /// Whether the byte is a visible ASCII character or the space.
    pub fn is_printable(&self) -> (r: bool)
        ensures
            r == (32 <= self.0 <= 126),
    {
        self.0 >= 32 && self.0 <= 126
    }

    /// Whether the byte is the ASCII space.
    pub fn is_space(&self) -> (r: bool)
        ensures
            r == (self.0 == 32),
    {
        self.0 == 32
    }
}

} // verus!
