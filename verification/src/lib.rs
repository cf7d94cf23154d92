//! A pluggable byte-source layer for binary decoding.
//!
//! A decoder that consumes length-prefixed strings and byte ranges can run
//! over two very different backings: an in-memory byte region, where a
//! borrowed view avoids every copy, and a sequential streaming resource,
//! where bytes must be staged in a reusable scratch buffer because no stable
//! memory exists to borrow from. [`slice_reader::SliceReader`] serves the
//! first backing and [`io_reader::IoReader`] the second; both materialize
//! the next `length` bytes either as raw bytes or as a UTF-8 checked string,
//! with the same error discipline.

pub mod encoding;
pub mod error;
pub mod io_reader;
pub mod laws;
pub mod slice_reader;
pub mod stream;

pub use error::ReadError;
