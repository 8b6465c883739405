//! Errors of the library's operations.
use vstd::prelude::*;

verus! {

/// The node field whose text could not be read as a number.
#[derive(Debug, Clone, Copy, PartialEq, Eq)]
pub enum NodeField {
    Port,
    AlterId,
}

/// What an operation of the library can fail with.
#[derive(Debug, Clone, PartialEq)]
pub enum VError {
    /// A configuration file does not exist.
    NotFound(String),
    /// A configuration file or a subscription payload is malformed.
    ParseError(String),
    /// The engine configuration has not been loaded.
    EmptyConfig,
    /// No node carries the requested id.
    NodeNotFound(String),
    /// A numeric node field does not hold a number of the right size.
    FieldFormatError(NodeField),
    /// The engine has no local inbound to route a benchmark through.
    NoHttpInbound,
    /// The benchmark URL has no host to route.
    InvalidSpeedUrl,
    /// No subscription has the requested URL.
    SubscriptionNotFound(String),
    /// Subscription text or a node link is not valid base64.
    DecodeError,
    /// A subscription line is not of the form `scheme://payload`.
    LinkFormatError,
    /// Reading, writing, spawning or killing failed.
    IoError(String),
}

/// Errors that stop the application shell: an operation of the library
/// failed.
#[derive(Debug, Clone, PartialEq)]
pub enum AppError {
    Library(VError),
}

} // verus!
