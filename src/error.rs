//! Errors raised when a buffer cannot be viewed.

use vstd::prelude::*;

verus! {

/// The one way in which decoding can fail: the buffer has the wrong length.
#[derive(Debug, Clone, Copy, PartialEq, Eq, Structural)]
pub enum DecodeError {
    /// The buffer holds `actual` bytes where the layout needs `expected`.
    SizeMismatch { expected: usize, actual: usize },
}

} // verus!
