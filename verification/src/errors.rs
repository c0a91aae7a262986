//! Error taxonomy of the gateway client.

use vstd::prelude::*;

verus! {

/// Errors of the session manager's connect operation.
#[derive(Clone, Copy, Debug, PartialEq, Eq, Structural)]
pub enum AuthError {
    /// The network request itself failed.
    TransportFailure,
    /// The authentication response was not a JSON object with a `token` field.
    MalformedResponse,
    /// An operation that needs a session token was attempted before connecting.
    NotConnected,
}

/// Errors of the one-time configuration fetch.
#[derive(Clone, Copy, Debug, PartialEq, Eq, Structural)]
pub enum FetchError {
    /// The network request itself failed.
    TransportFailure,
    /// The configuration document could not be parsed.
    MalformedDocument,
}

/// Errors of device classification.
#[derive(Clone, Copy, Debug, PartialEq, Eq, Structural)]
pub enum ClassificationError {
    /// A capability was invoked on a device that does not carry it.
    MissingCapability,
}

/// Errors of the command/query path from a device to the gateway.
#[derive(Clone, Copy, Debug, PartialEq, Eq, Structural)]
pub enum CommandError {
    /// A capability was invoked on a device that does not carry it.
    MissingCapability,
    /// The network request itself failed.
    TransportFailure,
    /// A value response could not be parsed as a decimal number.
    MalformedResponse,
}

/// Error of the composed connect sequence: whichever step failed.
#[derive(Clone, Copy, Debug, PartialEq, Eq, Structural)]
pub enum X1Error {
    Auth(AuthError),
    Fetch(FetchError),
    Classification(ClassificationError),
    Command(CommandError),
}

} // verus!
