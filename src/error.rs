//! Failures reported by the handle's operations.
use vstd::prelude::*;

verus! {

#[derive(Clone, Copy, Debug, PartialEq, Eq, Structural)]
pub enum TsfError {
    /// The soundfont data or file could not be parsed or opened.
    LoadError,
    /// The path holds an embedded zero byte.
    InvalidPath,
    /// A sample rate, key or velocity lies outside its domain.
    InvalidParameter,
    /// Rendering was asked for before the output was configured.
    PreconditionViolation,
}

} // verus!
