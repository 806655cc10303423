use vstd::prelude::*;

verus! {

/// The ways in which setting up a surface can fail.
#[derive(Debug, Clone, Copy, PartialEq, Eq, Structural)]
pub enum SoftBufferError {
    /// The platform window reference handed to the surface was null.
    InitializationError,
}

} // verus!
