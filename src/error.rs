use vstd::prelude::*;

verus! {

/// Why an operation failed.
#[derive(Clone, Copy, Debug, PartialEq, Eq, Structural)]
pub enum Error {
    /// The kernel refused the call with this error number.
    Os(i32),
    /// The kernel's negotiated parameters, or the arguments, cannot describe a ring.
    InvalidParams,
}

} // verus!
