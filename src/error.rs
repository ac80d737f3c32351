//! The failures of a driver operation.

use vstd::prelude::*;

verus! {

/// A register's bytes hold a code that names no value of one of its enumerated fields.
#[derive(Clone, Copy, Debug, PartialEq, Eq, Structural)]
pub struct DecodingError;

/// A channel index outside `1..=4`.
#[derive(Clone, Copy, Debug, PartialEq, Eq, Structural)]
pub struct RangeError;

/// Driver errors.
#[derive(Debug, PartialEq, Eq)]
pub enum Error<E> {
    /// The bus transport failed; its own error is kept as it came.
    I2c(E),
    /// The chip returned a code that names no value of an enumerated field.
    Decoding,
    /// A channel index outside `1..=4`; no transaction was issued.
    Range,
}

impl<E> Error<E> {
    /// The driver error for a register that did not decode.
    pub fn decoding(_e: DecodingError) -> (r: Error<E>)
        ensures
            r is Decoding,
    {
        Error::Decoding
    }

    /// The driver error for a channel index out of range.
    pub fn range(_e: RangeError) -> (r: Error<E>)
        ensures
            r is Range,
    {
        Error::Range
    }
}

} // verus!
