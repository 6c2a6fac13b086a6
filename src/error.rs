use vstd::prelude::*;

verus! {

/// Why an operation on the ledger did not happen. Every error aborts the
/// whole operation: no record is created or changed.
#[derive(Clone, Copy, Debug, PartialEq, Eq, Structural)]
pub enum FluxionError {
    /// The username is longer than 32 bytes.
    UsernameTooLong,
    /// The username is empty.
    UsernameEmpty,
    /// The caller's identity is not the profile's owner.
    Unauthorized,
    /// The reward's metadata URI is longer than 200 bytes.
    UriTooLong,
    /// The runtime could not provide the current time.
    ClockUnavailable,
}

} // verus!
