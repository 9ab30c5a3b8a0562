//! A verified string check for a foreign-function boundary.
//!
//! A foreign caller hands over a buffer of bytes that holds a zero-terminated
//! text. The library finds the terminator, decodes the bytes before it as
//! UTF-8 and says whether the text is exactly the greeting `Hello Rust`.

pub mod check;
pub mod encoding;
pub mod greeting;
pub mod terminated;

pub use check::{check_test_string, decode_text, try_check_test_string, BoundaryFault};
pub use greeting::matches_greeting;
pub use terminated::{terminator_index, TERMINATOR};
