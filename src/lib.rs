//! Conversions across a foreign-function boundary, and the decision of where a
//! debug message goes.
//!
//! Raw pointers stay outside this library: a foreign string enters as the bytes
//! before its terminating nul, and leaves as a [`strings::ForeignString`], a
//! nul-terminated buffer whose ownership the caller hands on.

pub mod log;
pub mod strings;
