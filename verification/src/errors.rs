use vstd::prelude::*;

verus! {

/// The error taxonomy shared by the transport and the session manager.
/// Every failure is reported synchronously to the caller of the operation
/// that detected it; none is silently swallowed.
#[derive(Clone, Copy, Debug, PartialEq, Eq, Structural)]
pub enum HalError {
    /// A send or receive on the secure channel failed.  Terminal for the
    /// in-flight exchange and for any session using it; never retried
    /// automatically.
    TransportFailure,
    /// Key, parameters or buffers are malformed or mismatched with the
    /// requested operation variant; detected before any channel exchange.
    InvalidParameters,
    /// An operation was invoked on a session whose current state does not
    /// permit it.
    IllegalStateTransition,
    /// A declared capability is not available in this build, as opposed to
    /// having failed this time.
    Unimplemented,
}

} // verus!
