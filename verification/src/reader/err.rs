//! Failures of the protocol engine.

use vstd::prelude::*;
use vstd::string::*;
use crate::serial::err::SerialError;
use crate::text::{decimal_text, push_decimal};

verus! {

/// What can go wrong in one operation of the reader.
#[derive(Debug, Clone, PartialEq, Eq)]
pub enum ReaderError {
    /// The link failed.
    SerialError(SerialError),
    /// The reply held nothing of the expected shape; carries the reply.
    NoMatchingTargets(String),
    /// A pattern of the command set is not a regular expression; carries it.
    InvalidRegex(String),
    /// The block index does not fit in two hexadecimal digits; carries it.
    BlockIdxTooLarge(u32),
}

/// A `ReaderError` with its texts as character sequences.
pub enum ReaderErrorView {
    SerialError(SerialError),
    NoMatchingTargets(Seq<char>),
    InvalidRegex(Seq<char>),
    BlockIdxTooLarge(u32),
}

impl View for ReaderError {
    type V = ReaderErrorView;

    open spec fn view(&self) -> ReaderErrorView {
        match self {
            ReaderError::SerialError(e) => ReaderErrorView::SerialError(*e),
            ReaderError::NoMatchingTargets(s) => ReaderErrorView::NoMatchingTargets(s@),
            ReaderError::InvalidRegex(s) => ReaderErrorView::InvalidRegex(s@),
            ReaderError::BlockIdxTooLarge(n) => ReaderErrorView::BlockIdxTooLarge(*n),
        }
    }
}

impl ReaderErrorView {
    /// The text shown to a person for this failure.
    pub open spec fn message(self) -> Seq<char> {
        match self {
            ReaderErrorView::SerialError(e) => e.message(),
            ReaderErrorView::NoMatchingTargets(s) => "Targets not found, recv: "@ + s,
            ReaderErrorView::InvalidRegex(s) => "Invalid regex: "@ + s,
            ReaderErrorView::BlockIdxTooLarge(n) => "Block index is too large: "@ + decimal_text(
                n as nat,
            ),
        }
    }
}

impl ReaderError {
    /// The text shown to a person for this failure.
    pub fn to_string(&self) -> (s: String)
        ensures
            s@ == self@.message(),
    {
        match self {
            ReaderError::SerialError(e) => e.to_string(),
            ReaderError::NoMatchingTargets(e) => {
                let mut s = String::from_str("Targets not found, recv: ");
                s.append(e.as_str());
                s
            },
            ReaderError::InvalidRegex(e) => {
                let mut s = String::from_str("Invalid regex: ");
                s.append(e.as_str());
                s
            },
            ReaderError::BlockIdxTooLarge(e) => {
                let mut s = String::from_str("Block index is too large: ");
                push_decimal(&mut s, *e);
                s
            },
        }
    }
}

impl From<SerialError> for ReaderError {
    fn from(err: SerialError) -> (r: ReaderError) {
        ReaderError::SerialError(err)
    }
}

impl vstd::std_specs::convert::FromSpecImpl<SerialError> for ReaderError {
    open spec fn obeys_from_spec() -> bool {
        true
    }

    open spec fn from_spec(err: SerialError) -> ReaderError {
        ReaderError::SerialError(err)
    }
}

} // verus!
