use vstd::prelude::*;

verus! {

/// Errors reported by the library.
#[derive(Copy, Clone, Debug, PartialEq, Eq, Structural)]
pub enum NetError {
    /// A native call failed with this native error code.
    Os(i32),
    /// An argument was malformed.
    InvalidInput,
    /// Data read from the system was malformed.
    InvalidData,
    /// A required feature has no equivalent on this platform.
    Unsupported,
    /// Something looked for was not there.
    NotFound,
}

} // verus!
