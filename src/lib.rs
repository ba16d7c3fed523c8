//! Error model of a client for the Backblaze B2 storage API.
//!
//! Every failure that the client surface can produce is one `B2Error`:
//! transport and URI failures, I/O failures, JSON decode failures, errors that
//! the service reported in a decodable body, and failures of the library itself.
mod outside;
pub mod decimal;
pub mod error;

pub use error::{B2Error, B2ErrorMessage};
