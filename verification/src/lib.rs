//! Validation and decomposition of PESEL numbers, the eleven-digit national
//! identification numbers used in Poland.
//!
//! The crate checks only the shape of a number: eleven characters, each one
//! of the decimal digits `0` to `9`. It neither verifies the control digit
//! nor decodes the date of birth.

pub mod models;
