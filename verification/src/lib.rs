//! Client-side logic for a small expense-tracking HTTP API.
//!
//! The library holds everything about the protocol that can be stated and
//! checked: the data records, the JSON wire encoding of each record, the
//! parsers for the server's responses, the request URLs, and the rules that
//! turn an HTTP status and a response body into a typed result. The actual
//! transport (issuing the requests) lives outside the library.

pub mod codec;
pub mod error;
pub mod laws;
pub mod models;
pub mod protocol;
pub mod text;
pub mod wire;

pub use error::ShishutsukanError;
pub use models::{ApiMessage, Expense, ExpenseWithId, Genre, GenreWithId};
