//! A generic, extendable error handle.
//!
//! Errors of unrelated types travel behind one handle, [`Error`], which
//! still lets a handler that recognises a particular kind of error get the
//! concrete value back: [`Error::is`] asks for the type, [`Error::downcast`]
//! recovers a reference to the value, and [`match_error`] tries a list of
//! typed arms in order and runs the first that fits.

pub mod abstract_error;
pub mod dispatch;
pub mod error;
pub mod identity;
pub mod payload;

pub use abstract_error::AbstractError;
pub use dispatch::{first_match, match_error, Matcher};
pub use error::Error;
pub use identity::Identity;
