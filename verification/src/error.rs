//! What can go wrong.

use vstd::prelude::*;

verus! {

/// The faults that the renderer reports to its caller.
#[derive(Clone, Debug, PartialEq, Eq)]
pub enum ErrorKind {
    /// A paint names a texture that the backend does not know.
    ImageIdNotFound,
    /// A texture could not be made into a target to render to. The text
    /// says what the device reported.
    RenderTargetError(String),
}

} // verus!
