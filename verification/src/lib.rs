//! A schema check for real-time-bidding requests: the body of each HTTP request
//! is checked against a fixed bid-request schema, and the outcome is reduced to
//! an HTTP status code and body.  The network loop around the library lives in
//! the surrounding binary; everything that decides lives here.

pub mod json;
pub mod schema;
pub mod validate;
pub mod reply;

pub use json::JsonKind;
pub use reply::{handle_body, Reply};
pub use validate::{validate, ValidationOutcome};
