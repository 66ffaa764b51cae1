//! The library's error type.

use vstd::prelude::*;

verus! {

/// What can go wrong while judging a request or summarising a report.
#[derive(Debug, PartialEq, Eq)]
pub enum Error {
    /// A failure with nothing more to say.
    Other,
    /// A failure described in words.
    Text(String),
    /// A request that the endpoint refuses, with the reason.
    BadRequest(String),
}

} // verus!
