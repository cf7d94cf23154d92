//! The error values a byte source can report.

use vstd::prelude::*;

verus! {

/// Why a byte source could not deliver the requested data.
///
/// `UnexpectedEof` and `InvalidUtf8` originate in this library;
/// `Io` is reserved for a streaming resource that fails for reasons
/// of its own before the requested bytes could be produced.
#[derive(Clone, Copy, Debug, PartialEq, Eq, Structural)]
pub enum ReadError {
    /// Fewer bytes were available than were requested.
    UnexpectedEof,
    /// The underlying streaming resource failed.
    Io,
    /// The requested bytes are not valid UTF-8; `valid_up_to` is the
    /// length of their longest prefix that is valid UTF-8.
    InvalidUtf8 { valid_up_to: usize },
}

} // verus!
