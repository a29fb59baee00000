//! The client's error taxonomy.

use vstd::prelude::*;

verus! {

/// Everything that can go wrong in a client operation.
#[derive(Debug, Clone, PartialEq)]
pub enum ShishutsukanError {
    /// The configured base URL is malformed. Reserved in the taxonomy;
    /// no operation of this crate produces it.
    InvalidUrl,
    /// The server answered with a status outside the success range;
    /// carries the numeric status code.
    HttpError(u16),
    /// The transport failed before a response arrived (connection refused,
    /// DNS failure, timeout); carries the transport's own description.
    NetworkError(String),
    /// The response body was not valid JSON of the expected shape;
    /// carries a short description of what was expected.
    DecodingError(String),
    /// The server reported HTTP success but put an error message in the
    /// response body; carries that message verbatim.
    ServerError(String),
}

} // verus!
