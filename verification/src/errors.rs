//! Errors of the feed client and the notices its connections send.

use vstd::prelude::*;

verus! {

/// Failure of the operating system's I/O, carried through unread.
#[verifier::external_type_specification]
#[verifier::external_body]
pub struct ExIoError(std::io::Error);

/// `url::ParseError`: why a text is not a URL, carried through unread.
#[verifier::external_type_specification]
#[verifier::external_body]
pub struct ExUrlParseError(url::ParseError);

/// `tungstenite::http::Error`: why a handshake request could not be built.
#[verifier::external_type_specification]
#[verifier::external_body]
pub struct ExHttpError(tungstenite::http::Error);

/// `tungstenite::Error`: a failure of the websocket transport.
#[verifier::external_type_specification]
#[verifier::external_body]
pub struct ExTungsteniteError(tungstenite::Error);

/// `serde_json::Error`: why a frame is not the expected JSON.
#[verifier::external_type_specification]
#[verifier::external_body]
pub struct ExSerdeError(serde_json::Error);

/// `crossbeam_channel::SendError`: a message that no receiver will take.
#[verifier::external_type_specification]
#[verifier::external_body]
#[verifier::reject_recursive_types(T)]
pub struct ExSendError<T>(crossbeam_channel::SendError<T>);

/// What a feed connection reports about itself to the pool.
#[derive(Debug, Clone, Copy, PartialEq, Eq)]
pub enum ConnectionUpdate {
    /// The connection with this id failed while reading and has stopped.
    StoppedSendingFrames(u32),
    /// The connection with this id stopped for a reason it could not name.
    Unknown(u32),
}

impl ConnectionUpdate {
    /// The id of the connection that the notice is about.
    pub open spec fn spec_id(self) -> u32 {
        match self {
            ConnectionUpdate::StoppedSendingFrames(id) => id,
            ConnectionUpdate::Unknown(id) => id,
        }
    }

    /// The id of the connection that the notice is about.
    #[verifier::when_used_as_spec(spec_id)]
    pub fn id(self) -> (id: u32)
        ensures
            id == self.spec_id(),
    {
        match self {
            ConnectionUpdate::StoppedSendingFrames(id) => id,
            ConnectionUpdate::Unknown(id) => id,
        }
    }
}

/// Everything that can go wrong in the feed client.
#[derive(Debug)]
pub enum RelayError {
    /// The operating system failed an I/O operation.
    IO(std::io::Error),
    /// The feed address is not a URL.
    UrlParse(url::ParseError),
    /// The handshake request could not be built.
    HTTP(tungstenite::http::Error),
    /// The websocket transport failed.
    Tungstenite(tungstenite::Error),
    /// A frame was not the expected JSON.
    Serde(serde_json::Error),
    /// A notice could not be delivered to the pool.
    SendError(crossbeam_channel::SendError<ConnectionUpdate>),
    /// The feed address was rejected.
    InvalidUrl,
    /// The feed answered for another chain than the one asked for.
    InvalidChainId,
    /// Any other failure, in words.
    Msg(String),
    /// The pool was told something about this connection id that cannot
    /// be true of the pool as it stands.
    InconsistentClient(u32),
    /// A pool was asked to start with more connections than it may have.
    TooManyConnections,
}

} // verus!
