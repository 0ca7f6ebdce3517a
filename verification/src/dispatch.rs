//! Request dispatch: one terminal transition per connection. A decoded
//! request is matched, the corresponding directory operation runs, and the
//! outcome is wrapped in a `ServerResponse` together with the route the
//! reply is to be sealed against. Directory errors are the only category a
//! peer ever sees structured; a wrong variant for the endpoint is fatal to
//! the connection and produces no reply.

use vstd::prelude::*;
use vstd::string::StringExecFns;

use crate::directory::{contains_handle, spec_register, user_with, Directory, KnownUser};
use crate::protocol::{
    DirectoryError, Hop, Key, MessageType, ProtocolError, ResponseType, Route, ToServer, ToUser,
    User,
};
use crate::route::{gen_route, generate_route, hop_of, spec_relay_route};

verus! {

/// The reply is a structured error bearing exactly the message `m`.
pub open spec fn is_error_reply(t: ToUser, m: Seq<char>) -> bool {
    t matches ToUser::ServerResponse(ResponseType::Error(s)) && s@ == m
}

/// The reply is a user record view with the given handle, address and key.
pub open spec fn is_user_reply(t: ToUser, handle: Seq<char>, addr: Seq<char>, key: Key) -> bool {
    t matches ToUser::ServerResponse(ResponseType::User(v)) && v.handle@ == handle && v.addr@
        == addr && v.public_key == key
}

/// A one-hop route back to the address `addr`, readable with `key`.
pub open spec fn is_direct_route(r: Seq<Hop>, addr: Seq<char>, key: Key) -> bool {
    r.len() == 1 && r[0].0@ == addr && r[0].1 == key
}

/// What a Login must answer: the record's view — with the requester's
/// observed address substituted and the server-known public key — iff
/// handle and credential match; otherwise the fixed error message that
/// names which of the two failed.
pub open spec fn correct_login_reply(
    t: ToUser,
    users: Seq<KnownUser>,
    handle: Seq<char>,
    password: Seq<char>,
    usr_ip: Seq<char>,
) -> bool {
    if !contains_handle(users, handle) {
        is_error_reply(t, "User does not exist."@)
    } else if user_with(users, handle).password@ != password {
        is_error_reply(t, "Incorrect password."@)
    } else {
        is_user_reply(t, handle, usr_ip, user_with(users, handle).public_key)
    }
}

/// What a Register must answer: the echoed record view iff the handle was
/// free, the fixed conflict message otherwise.
pub open spec fn correct_register_reply(
    t: ToUser,
    users: Seq<KnownUser>,
    handle: Seq<char>,
    addr: Seq<char>,
    key: Key,
) -> bool {
    if contains_handle(users, handle) {
        is_error_reply(t, "Username already in use."@)
    } else {
        is_user_reply(t, handle, addr, key)
    }
}

/// What a Connect must answer: the relay route seeded with the target's
/// own hop iff the target is registered, an error naming the target
/// otherwise.
pub open spec fn correct_connect_reply(t: ToUser, users: Seq<KnownUser>, name: Seq<char>) -> bool {
    if contains_handle(users, name) {
        t matches ToUser::ServerResponse(ResponseType::Connection(c)) && c@ == spec_relay_route(
            users,
            hop_of(user_with(users, name)),
        )
    } else {
        is_error_reply(t, "Could not find user "@ + name + "."@)
    }
}

/// Answers a Login request. The reply routes straight back to the
/// requester's observed address; on success the echoed view carries that
/// observed address in place of the stored one.
pub fn login_response(
    username: String,
    password: String,
    users: &Directory,
    usr_ip: String,
    key: &Key,
) -> (r: (ToUser, Route))
    requires
        users.wf(),
    ensures
        correct_login_reply(r.0, users@, username@, password@, usr_ip@),
        is_direct_route(r.1@, usr_ip@, *key),
{
    let route = gen_route(usr_ip.as_str(), key);
    match users.login(&username, &password) {
        Ok(u) => (
            ToUser::ServerResponse(
                ResponseType::User(
                    User { handle: u.handle, addr: usr_ip, public_key: u.public_key },
                ),
            ),
            route,
        ),
        Err(DirectoryError::WrongCredential) => (
            ToUser::ServerResponse(ResponseType::Error(String::from_str("Incorrect password."))),
            route,
        ),
        Err(_) => (
            ToUser::ServerResponse(ResponseType::Error(String::from_str("User does not exist."))),
            route,
        ),
    }
}

/// Answers a Register request: an atomic check-then-insert on the
/// directory. The reply routes back to the record's address, which the
/// caller set to the requester's observed address.
pub fn register_response(user: KnownUser, users: &mut Directory) -> (r: (ToUser, Route))
    requires
        old(users).wf(),
    ensures
        final(users).wf(),
        final(users)@ == spec_register(old(users)@, user),
        correct_register_reply(r.0, old(users)@, user.handle@, user.addr@, user.public_key),
        is_direct_route(r.1@, user.addr@, user.public_key),
{
    let route = gen_route(user.addr.as_str(), &user.public_key);
    match users.register(user) {
        Ok(v) => (ToUser::ServerResponse(ResponseType::User(v)), route),
        Err(_) => (
            ToUser::ServerResponse(
                ResponseType::Error(String::from_str("Username already in use.")),
            ),
            route,
        ),
    }
}

/// Answers a Connect request: the relay route to the target iff the target
/// is registered. The reply itself travels along `route`, which the caller
/// built back to the requester; the directory is only read.
pub fn connect_response(name: String, users: &Directory, route: Route) -> (r: (ToUser, Route))
    requires
        users.wf(),
    ensures
        correct_connect_reply(r.0, users@, name@),
        r.1 == route,
{
    match users.lookup_for_connect(&name) {
        Ok(hop) => (
            ToUser::ServerResponse(ResponseType::Connection(generate_route(users, hop))),
            route,
        ),
        Err(_) => {
            let msg = String::from_str("Could not find user ").concat(name.as_str()).concat(".");
            (ToUser::ServerResponse(ResponseType::Error(msg)), route)
        },
    }
}

/// Dispatches one decoded message from the main (encrypted) endpoint:
/// invokes the matching directory operation and pairs the outcome with the
/// route its reply is to be sealed against. `addr` is the requester's
/// observed address. A `PublicKey` request — only valid on the bootstrap
/// endpoint — and a message not addressed to the server are rejected, and
/// the directory is untouched by them.
pub fn create_response(msg: MessageType, users: &mut Directory, addr: String) -> (r: Result<
    (ToUser, Route),
    ProtocolError,
>)
    requires
        old(users).wf(),
    ensures
        final(users).wf(),
        (match msg {
            MessageType::Server(req) => (match req {
                ToServer::Login(username, password, key) => final(users)@ == old(users)@ && (
                r matches Ok(res) && correct_login_reply(
                    res.0,
                    old(users)@,
                    username@,
                    password@,
                    addr@,
                ) && is_direct_route(res.1@, addr@, key)),
                ToServer::Register(handle, password, key) => final(users)@ == spec_register(
                    old(users)@,
                    (KnownUser { handle, password, addr, public_key: key }),
                ) && (r matches Ok(res) && correct_register_reply(
                    res.0,
                    old(users)@,
                    handle@,
                    addr@,
                    key,
                ) && is_direct_route(res.1@, addr@, key)),
                ToServer::Connect(name, key) => final(users)@ == old(users)@ && (
                r matches Ok(res) && correct_connect_reply(res.0, old(users)@, name@)
                    && is_direct_route(res.1@, addr@, key)),
                ToServer::PublicKey(_) => final(users)@ == old(users)@ && r == Err::<
                    (ToUser, Route),
                    ProtocolError,
                >(ProtocolError::WrongVariant),
            }),
            MessageType::User(_) => final(users)@ == old(users)@ && r == Err::<
                (ToUser, Route),
                ProtocolError,
            >(ProtocolError::WrongVariant),
        }),
{
    match msg {
        MessageType::Server(req) => match req {
            ToServer::Login(username, password, key) => Ok(
                login_response(username, password, &*users, addr, &key),
            ),
            ToServer::Register(handle, password, key) => Ok(
                register_response(KnownUser::new(handle, password, addr, &key), users),
            ),
            ToServer::Connect(name, public_key) => {
                let route = gen_route(addr.as_str(), &public_key);
                Ok(connect_response(name, &*users, route))
            },
            ToServer::PublicKey(_) => Err(ProtocolError::WrongVariant),
        },
        MessageType::User(_) => Err(ProtocolError::WrongVariant),
    }
}

/// Dispatches one decoded message from the bootstrap (plaintext) endpoint.
/// A `PublicKey` request — the only variant accepted there — always yields
/// the server's long-lived public key, routed back to the requester and
/// readable with the key the requester sent; anything else yields no reply
/// and the connection is dropped.
pub fn pub_key_response(msg: MessageType, pubkey: &Key, usr_ip: String) -> (r: Option<
    (ToUser, Route),
>)
    ensures
        (match msg {
            MessageType::Server(req) => (match req {
                ToServer::PublicKey(pk) => r matches Some(res) && res.0 == ToUser::ServerResponse(
                    ResponseType::PublicKey(*pubkey),
                ) && is_direct_route(res.1@, usr_ip@, pk),
                _ => r is None,
            }),
            MessageType::User(_) => r is None,
        }),
{
    match msg {
        MessageType::Server(req) => match req {
            ToServer::PublicKey(pk) => {
                let route = gen_route(usr_ip.as_str(), &pk);
                Some((ToUser::ServerResponse(ResponseType::PublicKey(*pubkey)), route))
            },
            _ => None,
        },
        MessageType::User(_) => None,
    }
}

} // verus!
