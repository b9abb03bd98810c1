//! The failures a request can meet, and the one it can end in.

use vstd::prelude::*;

verus! {

/// Why a single attempt to obtain a completion did not succeed.
#[derive(Clone, Copy, Debug, PartialEq, Eq, Structural)]
pub enum ClientError {
    /// The completion could not be obtained: the network failed, the service
    /// answered with an error status, or the body of its answer was
    /// malformed. Worth one retry.
    Transport,
    /// The client could not be set up: a credential or a header was
    /// malformed. A defect of the setup, which no retry mends.
    Config,
}

/// A failure that ends the operation. It is handed to the caller as it is:
/// no default value ever takes its place.
#[derive(Clone, Copy, Debug, PartialEq, Eq, Structural)]
pub enum FatalError {
    /// Every attempt allowed failed in transport; `attempts` were made.
    Transport { attempts: u8 },
    /// The client could not be set up.
    Config,
    /// The completion text is not an encoding of the requested type.
    Decode,
}

} // verus!
