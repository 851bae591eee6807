//! Failures.

use vstd::prelude::*;

verus! {

/// The mathematical value of a [`Error`].
pub ghost struct ErrorView {
    pub error: Seq<char>,
}

/// A failure, described in words.
#[derive(Debug, PartialEq, Eq, Hash)]
pub struct Error {
    pub error: String,
}

impl View for Error {
    type V = ErrorView;

    open spec fn view(&self) -> ErrorView {
        ErrorView {
            error: self.error@,
        }
    }
}

impl DeepView for Error {
    type V = ErrorView;

    open spec fn deep_view(&self) -> ErrorView {
        self@
    }
}

impl Clone for Error {
    fn clone(&self) -> (r: Self)
        ensures
            r@ == self@,
    {
        let r = Error {
            error: self.error.clone(),
        };
        r
    }
}

impl Error {
    /// The failure that `message` describes.
    pub fn new(message: &str) -> (r: Self)
        ensures
            r@.error == message@,
    {
        Error { error: String::from_str(message) }
    }

    /// The description of the failure.
    pub fn to_string(&self) -> (r: String)
        ensures
            r@ == self@.error,
    {
        self.error.clone()
    }
}

/// Why a request on a resource could not be answered.
#[derive(Clone, Copy, Debug, PartialEq, Eq, Hash, Structural)]
pub enum Fail {
    WrongResourceType,
    ResourceNotFound,
    Timeout,
}

/// What can go wrong on a link of the mesh.
#[derive(Clone, Copy, Debug, PartialEq, Eq, Hash, Structural)]
pub enum MeshError {
    /// The peer closed the link in the middle of the protocol.
    Disconnected,
    /// The peer speaks another version of the lane protocol.
    VersionMismatch,
    /// The peer sent a frame that the handshake does not allow at that point.
    UnexpectedFrame,
    /// A frame could not be written to or read from bytes.
    SerializationError,
    /// The other end of an internal queue is gone.
    ChannelClosed,
    /// An expected frame did not arrive in time.
    Timeout,
}

impl MeshError {
    /// The name of the failure.
    pub fn to_string(&self) -> (r: String)
        ensures
            r@ == match *self {
                MeshError::Disconnected => "Disconnected"@,
                MeshError::VersionMismatch => "VersionMismatch"@,
                MeshError::UnexpectedFrame => "UnexpectedFrame"@,
                MeshError::SerializationError => "SerializationError"@,
                MeshError::ChannelClosed => "ChannelClosed"@,
                MeshError::Timeout => "Timeout"@,
            },
    {
        match self {
            MeshError::Disconnected => String::from_str("Disconnected"),
            MeshError::VersionMismatch => String::from_str("VersionMismatch"),
            MeshError::UnexpectedFrame => String::from_str("UnexpectedFrame"),
            MeshError::SerializationError => String::from_str("SerializationError"),
            MeshError::ChannelClosed => String::from_str("ChannelClosed"),
            MeshError::Timeout => String::from_str("Timeout"),
        }
    }
}

} // verus!
