//! The service's configuration.

use vstd::prelude::*;

verus! {

/// The port the service listens on unless told otherwise.
pub const DEFAULT_PORT: u16 = 8080;

/// How the service is started: the port to listen on and the shared secret
/// that every request must present.
#[derive(Debug, PartialEq, Eq)]
pub struct ReceiverArgs {
    pub port: u16,
    pub key: String,
}

} // verus!
