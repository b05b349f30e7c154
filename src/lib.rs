//! Error reporting for an embedded key-value store: a small, stable set of
//! failure categories, and an error type that keeps the category, the
//! underlying cause and a diagnostic trace.
mod error;

pub use error::{Context, Result, RustbreakError, RustbreakErrorKind};
