use vstd::prelude::*;

verus! {

/// Why a game-data blob, a cavern record or a colour could not be decoded.
#[derive(Debug, Clone, Copy, PartialEq, Eq, Structural)]
pub enum DecodeError {
    /// The blob is too short for one of the fixed offsets it is read at.
    Truncated,
    /// A record does not have the size its kind requires, or a list in it
    /// runs past its maximum number of entries.
    InvalidRecordSize,
    /// A name is not valid UTF-8 text.
    InvalidText,
    /// A textual colour is not a hexadecimal byte.
    InvalidColorByte,
}

} // verus!
