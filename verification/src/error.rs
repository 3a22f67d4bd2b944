//! The error taxonomy a source can report: transport, parse, validation, and
//! intentionally unsupported capability. All four are recoverable: a failing
//! fetch is reported and never changes the store.

use vstd::prelude::*;

verus! {

/// Why a fetch produced no observation.
#[derive(Debug, Clone, PartialEq, Eq)]
pub enum FeedError {
    /// The transport layer failed; carries the transport error's message.
    HttpError(String),
    /// The response did not match the expected shape.
    ParseError(String),
    /// The response was well-formed but semantically invalid.
    InvalidData(String),
    /// The capability is intentionally not implemented for this source.
    NotImplemented(String),
}

/// The short label under which each error kind is reported.
pub open spec fn spec_kind_label(e: FeedError) -> Seq<char> {
    match e {
        FeedError::HttpError(_) => "http"@,
        FeedError::ParseError(_) => "parse"@,
        FeedError::InvalidData(_) => "invalid_data"@,
        FeedError::NotImplemented(_) => "not_implemented"@,
    }
}

impl FeedError {
    /// The label under which this error is reported to the event recorder.
    pub fn kind_label(&self) -> (r: String)
        ensures
            r@ == spec_kind_label(*self),
    {
        match self {
            FeedError::HttpError(_) => String::from_str("http"),
            FeedError::ParseError(_) => String::from_str("parse"),
            FeedError::InvalidData(_) => String::from_str("invalid_data"),
            FeedError::NotImplemented(_) => String::from_str("not_implemented"),
        }
    }

    /// The message carried by the error.
    pub fn message(&self) -> (r: &String)
        ensures
            *r == (match *self {
                FeedError::HttpError(m) => m,
                FeedError::ParseError(m) => m,
                FeedError::InvalidData(m) => m,
                FeedError::NotImplemented(m) => m,
            }),
    {
        match self {
            FeedError::HttpError(m) => m,
            FeedError::ParseError(m) => m,
            FeedError::InvalidData(m) => m,
            FeedError::NotImplemented(m) => m,
        }
    }
}

} // verus!
