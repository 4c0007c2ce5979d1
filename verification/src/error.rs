//! The decode-failure taxonomy.  Every failure is a value returned to the
//! caller; no decoder panics or aborts the scan of its callers.

use vstd::prelude::*;

verus! {

/// A decode failure, carrying the offending text where there is one.
///
/// - `UnrecognizedMnemonic`: an operation token outside the fixed vocabulary.
/// - `InvalidWidth`: a width token outside the closed width set.
/// - `MalformedOperand`: a varnode triple with the wrong field count, a
///   payload that is not hexadecimal, or an unknown storage keyword.
/// - `MalformedInstruction`: a line with a broken `=` structure or with no
///   mnemonic at all.
/// - `MalformedAddressMarker`: a `0x`-prefixed line whose payload is not a
///   hexadecimal address.
/// - `InstructionBeforeAddress`: an instruction line before the first valid
///   address marker.
/// - `EmptyListing`: an input out of which no address block at all was read.
#[derive(Clone, Debug, PartialEq, Eq)]
pub enum ParseError {
    UnrecognizedMnemonic(String),
    InvalidWidth(String),
    MalformedOperand(String),
    MalformedInstruction(String),
    MalformedAddressMarker(String),
    InstructionBeforeAddress,
    EmptyListing,
}

/// The spec-level model of a `ParseError`: the same taxonomy with the
/// offending text as a sequence of characters.
pub enum ErrorModel {
    UnrecognizedMnemonic(Seq<char>),
    InvalidWidth(Seq<char>),
    MalformedOperand(Seq<char>),
    MalformedInstruction(Seq<char>),
    MalformedAddressMarker(Seq<char>),
    InstructionBeforeAddress,
    EmptyListing,
}

impl View for ParseError {
    type V = ErrorModel;

    open spec fn view(&self) -> ErrorModel {
        match self {
            ParseError::UnrecognizedMnemonic(s) => ErrorModel::UnrecognizedMnemonic(s@),
            ParseError::InvalidWidth(s) => ErrorModel::InvalidWidth(s@),
            ParseError::MalformedOperand(s) => ErrorModel::MalformedOperand(s@),
            ParseError::MalformedInstruction(s) => ErrorModel::MalformedInstruction(s@),
            ParseError::MalformedAddressMarker(s) => ErrorModel::MalformedAddressMarker(s@),
            ParseError::InstructionBeforeAddress => ErrorModel::InstructionBeforeAddress,
            ParseError::EmptyListing => ErrorModel::EmptyListing,
        }
    }
}

} // verus!
