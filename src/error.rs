use vstd::prelude::*;

verus! {

/// What can go wrong between a caller's bytes and the native runtime.
#[derive(Clone, Copy, Debug, PartialEq, Eq, Structural)]
pub enum CoreError {
    /// A buffer's address does not meet the alignment the runtime requires.
    InvalidAlignment,
    /// A buffer is longer than the runtime's 32-bit size parameter can say.
    BufferTooLarge,
    /// The runtime does not recognise the compiled model's format version.
    UnsupportedVersion,
    /// A table view was taken before the model last changed.
    StaleView,
}

} // verus!
