//! The ways in which an operation of a drawing context fails.

use vstd::prelude::*;

verus! {

#[derive(Clone, Debug, PartialEq, Eq)]
pub enum Error {
    /// A rectangle has no positive extent, or lies before the origin.
    IndexSize,
    /// An argument is of a kind that the operation cannot take. The text says which.
    TypeError(String),
    /// The command channel takes no command any more: the rendering worker is gone, or the
    /// context was closed. Nothing can be drawn after it.
    Disconnected,
}

} // verus!
