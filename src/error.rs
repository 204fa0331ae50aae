use vstd::prelude::*;

verus! {

/// The ways a request can fail. Each one aborts the request and leaves all
/// state as it was.
#[derive(Clone, Copy, Debug, PartialEq, Eq, Structural)]
pub enum ErrorCode {
    /// The caller's identity could not be verified.
    AuthenticationError,
    /// The caller is verified but is not the record's bound authority.
    AuthorizationError,
    /// The storage slot is already occupied by a live record.
    AllocationError,
    /// The referenced record has not been initialized.
    NotFoundError,
    /// The count is already at its largest representable value.
    OverflowError,
}

} // verus!
