//! What an I/O call came back with, as far as the runtime's decisions read it.
use vstd::prelude::*;

verus! {

/// The kinds of I/O error that the runtime tells apart.
#[derive(Clone, Copy, Debug, PartialEq, Eq, Structural)]
pub enum IoErrorKind {
    /// The operation would have had to wait for the source to become ready.
    WouldBlock,
    /// The operation was interrupted by a signal before it did anything.
    Interrupted,
    /// Any other error.
    Other,
}

} // verus!
