//! The tagged message variants exchanged between client and server, and the
//! error taxonomy of the connection-handling engine.

use vstd::prelude::*;

verus! {

/// A 32-byte public or private key. The core treats key material as an
/// opaque immutable byte string.
pub type Key = [u8; 32];

/// The view of a registered user that is echoed back to clients in
/// responses: the handle, the directory-visible network address, and the
/// user's public key.
#[derive(Debug, Clone, PartialEq, Eq)]
pub struct User {
    pub handle: String,
    pub addr: String,
    pub public_key: Key,
}

/// One hop of a relay path: a network address ("ip:port") and the public
/// key of the node listening there.
pub type Hop = (String, Key);

/// An ordered, non-empty hop list. Element 0 is the ultimate destination of
/// the response; later elements are auxiliary relay candidates.
pub type Route = Vec<Hop>;

/// A request addressed to the server.
#[derive(Debug, Clone, PartialEq, Eq)]
pub enum ToServer {
    /// `Login(handle, credential, requester_key)`
    Login(String, String, Key),
    /// `Register(handle, credential, requester_key)`
    Register(String, String, Key),
    /// `Connect(target_handle, requester_key)`
    Connect(String, Key),
    /// `PublicKey(requester_key)`: only accepted on the bootstrap endpoint.
    PublicKey(Key),
}

/// The payload of a server response.
#[derive(Debug, Clone, PartialEq, Eq)]
pub enum ResponseType {
    /// A user record view, answering Login and Register.
    User(User),
    /// A human-readable error message, the only error category a peer ever
    /// sees structured.
    Error(String),
    /// A relay route, answering Connect.
    Connection(Route),
    /// The server's long-lived public key, answering a bootstrap request.
    PublicKey(Key),
}

/// A message addressed to a user.
#[derive(Debug, Clone, PartialEq, Eq)]
pub enum ToUser {
    ServerResponse(ResponseType),
}

/// A decoded protocol message, in either direction.
#[derive(Debug, Clone, PartialEq, Eq)]
pub enum MessageType {
    Server(ToServer),
    User(ToUser),
}

/// Failures of the directory operations. These are recovered into a
/// user-visible `ResponseType::Error` and delivered as a normal response.
#[derive(Debug, Clone, Copy, PartialEq, Eq, Structural)]
pub enum DirectoryError {
    /// Register: the handle is already taken.
    HandleInUse,
    /// Login: no record under the given handle.
    NoSuchUser,
    /// Login: the record exists but the credential does not match.
    WrongCredential,
    /// Connect: no record under the target handle.
    TargetNotFound,
}

/// A message whose variant is invalid for the endpoint it arrived on, e.g.
/// `PublicKey` on the main endpoint. Fatal to the single connection: the
/// handler aborts without sending a reply.
#[derive(Debug, Clone, Copy, PartialEq, Eq, Structural)]
pub enum ProtocolError {
    WrongVariant,
}

} // verus!
