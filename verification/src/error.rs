//! Errors reported by the library.

use vstd::prelude::*;

verus! {

/// Why the encoder refused to produce a symbol.
#[derive(Clone, Copy, Debug, PartialEq, Eq, Structural)]
pub enum EncodeError {
    /// The data does not fit in any version at the chosen level and mode.
    DataTooLarge,
    /// The forced version is smaller than the one the data needs.
    VersionTooSmall,
}

/// Errors of the library's operations.
#[derive(Clone, Copy, Debug, PartialEq, Eq, Structural)]
pub enum Error {
    /// A version number outside 1..=40; holds the number given.
    VersionOutOfRange(u8),
    /// A color given as channel values whose count is neither 3 nor 4;
    /// holds the count given.
    ColorChannelCount(usize),
    /// Symbol generation failed.
    Encoding(EncodeError),
}

} // verus!
