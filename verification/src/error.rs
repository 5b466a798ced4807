use vstd::prelude::*;

verus! {

/// Why an operation of the binding failed. Every error is reported by the
/// call that caused it; releasing a resource never fails.
#[derive(Clone, Copy, Debug, PartialEq, Eq, Structural, Hash)]
pub enum Error {
    /// The server could not be reached, or the target name is not one that
    /// can name a server.
    ConnectionFailure,
    /// No configuration of the server satisfies the requested attributes.
    VisualNegotiationFailure,
    /// The server did not hand back a usable resource.
    CreationFailure,
}

} // verus!
