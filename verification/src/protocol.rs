//! The client's decision rules: what each HTTP exchange means.
//!
//! Every operation of the client follows one shape: build a URL, send the
//! request, then judge the response from its status code and body alone.
//! The judging lives here, verified: a status outside the success range
//! fails with that exact code whatever the body holds; a body that is not
//! the expected JSON fails as a decoding error; a success body whose
//! `error` field is present fails with the server's message verbatim; and
//! only the rest succeed. Sending the request is the caller's business.

use vstd::prelude::*;
use vstd::string::StringExecFns;

use crate::codec::{parse_api_message, parse_expense_list, parse_genre_list, push_int};
use crate::error::ShishutsukanError;
use crate::models::{ApiMessage, ExpenseWithId, GenreWithId};
use crate::wire::{
    int_chars, sp_parse_api_message, sp_parse_expense_list, sp_parse_genre_list,
};

verus! {

/// The HTTP success range.
pub open spec fn is_success_status(status: u16) -> bool {
    200 <= status < 300
}

/// What a write operation returns, as a function of the response:
/// the status decides first, then the body's shape, then its `error` field.
pub open spec fn write_outcome_ok(status: u16, body: Seq<char>, r: Result<
    ApiMessage,
    ShishutsukanError,
>) -> bool {
    if !is_success_status(status) {
        r == Result::<ApiMessage, ShishutsukanError>::Err(ShishutsukanError::HttpError(status))
    } else {
        match sp_parse_api_message(body) {
            None => r matches Err(e) && e is DecodingError,
            Some(m) => match m.error {
                Some(err) => r matches Err(e) && (e matches ShishutsukanError::ServerError(t)
                    && t@ == err),
                None => r matches Ok(msg) && msg@ == m,
            },
        }
    }
}

/// Checks the transport-level verdict alone: `Ok` exactly on a status in
/// the success range, and otherwise the HTTP-status error carrying the code.
pub fn validate_status(status: u16) -> (r: Result<(), ShishutsukanError>)
    ensures
        r is Ok <==> is_success_status(status),
        !is_success_status(status) ==> r == Result::<(), ShishutsukanError>::Err(
            ShishutsukanError::HttpError(status),
        ),
{
    if status < 200 || status >= 300 {
        Err(ShishutsukanError::HttpError(status))
    } else {
        Ok(())
    }
}

/// Judges the response of a write operation (adding or deleting a record).
///
/// A status outside 200..=299 fails with exactly that code, whatever the
/// body holds. On a success status, the body must be a response envelope;
/// if its `error` field is present the call fails with that text verbatim,
/// and otherwise the envelope is returned.
pub fn decode_write_response(status: u16, body: &str) -> (r: Result<ApiMessage, ShishutsukanError>)
    ensures
        write_outcome_ok(status, body@, r),
        r is Ok <==> (is_success_status(status) && (sp_parse_api_message(body@) matches Some(m)
            && m.error is None)),
{
    match validate_status(status) {
        Err(e) => {
            return Err(e);
        },
        Ok(()) => {},
    }
    match parse_api_message(body) {
        None => Err(ShishutsukanError::DecodingError(decoding_note())),
        Some(m) => match m.error {
            Some(err) => Err(ShishutsukanError::ServerError(err)),
            None => Ok(m),
        },
    }
}

/// Judges the response of the expense-listing operation.
///
/// A status outside 200..=299 fails with exactly that code, whatever the
/// body holds. On a success status, the body must be a JSON array of
/// expense records, which is returned as parsed.
pub fn decode_expense_list_response(status: u16, body: &str) -> (r: Result<
    Vec<ExpenseWithId>,
    ShishutsukanError,
>)
    ensures
        !is_success_status(status) ==> r == Result::<
            Vec<ExpenseWithId>,
            ShishutsukanError,
        >::Err(ShishutsukanError::HttpError(status)),
        is_success_status(status) ==> match sp_parse_expense_list(body@) {
            None => r matches Err(e) && e is DecodingError,
            Some(l) => r matches Ok(v) && v@.map_values(|x: ExpenseWithId| x@) == l,
        },
{
    match validate_status(status) {
        Err(e) => {
            return Err(e);
        },
        Ok(()) => {},
    }
    match parse_expense_list(body) {
        None => Err(ShishutsukanError::DecodingError(decoding_note())),
        Some(l) => Ok(l),
    }
}

/// Judges the response of the genre-listing operation, as
/// [`decode_expense_list_response`] does for expenses.
pub fn decode_genre_list_response(status: u16, body: &str) -> (r: Result<
    Vec<GenreWithId>,
    ShishutsukanError,
>)
    ensures
        !is_success_status(status) ==> r == Result::<
            Vec<GenreWithId>,
            ShishutsukanError,
        >::Err(ShishutsukanError::HttpError(status)),
        is_success_status(status) ==> match sp_parse_genre_list(body@) {
            None => r matches Err(e) && e is DecodingError,
            Some(l) => r matches Ok(v) && v@.map_values(|x: GenreWithId| x@) == l,
        },
{
    match validate_status(status) {
        Err(e) => {
            return Err(e);
        },
        Ok(()) => {},
    }
    match parse_genre_list(body) {
        None => Err(ShishutsukanError::DecodingError(decoding_note())),
        Some(l) => Ok(l),
    }
}

/// The note a decoding failure carries.
fn decoding_note() -> (r: String)
    ensures
        r@ == "response body is not the expected JSON"@,
{
    "response body is not the expected JSON".to_owned()
}

// ---------------------------------------------------------------------------
// Request URLs
// ---------------------------------------------------------------------------

/// The URL of the expense collection.
pub fn expenses_url(base: &str) -> (r: String)
    ensures
        r@ == base@ + "/expenses"@,
{
    let mut s = base.to_owned();
    s.append("/expenses");
    s
}

/// The URL of one expense record.
pub fn expense_item_url(base: &str, id: i32) -> (r: String)
    ensures
        r@ == base@ + "/expenses/"@ + int_chars(id as int),
{
    let mut s = base.to_owned();
    s.append("/expenses/");
    push_int(&mut s, id);
    proof {
        assert(s@ =~= base@ + "/expenses/"@ + int_chars(id as int));
    }
    s
}

/// The URL of the genre collection.
pub fn genres_url(base: &str) -> (r: String)
    ensures
        r@ == base@ + "/genres"@,
{
    let mut s = base.to_owned();
    s.append("/genres");
    s
}

/// The URL of one genre record.
pub fn genre_item_url(base: &str, id: i32) -> (r: String)
    ensures
        r@ == base@ + "/genres/"@ + int_chars(id as int),
{
    let mut s = base.to_owned();
    s.append("/genres/");
    push_int(&mut s, id);
    proof {
        assert(s@ =~= base@ + "/genres/"@ + int_chars(id as int));
    }
    s
}

} // verus!
