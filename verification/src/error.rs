//! What an operation on a handle reports when it cannot do its work.
use vstd::prelude::*;

verus! {

/// The conditions that a caller can recover from.
#[derive(Debug, Clone, Copy, PartialEq, Eq)]
pub enum ErrorKind {
    /// The engine did not copy; the value is the status it gave.
    TensorCopyFailed(i32),
    /// The buffer does not hold elements of the type that was asked for;
    /// `got` names that type.
    HalideTypeMismatch { got: &'static str },
}

} // verus!
