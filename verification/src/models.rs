//! Data models of the crate.

pub mod digits;
pub mod pesel;
