use secmsg_server::directory::Directory;
use secmsg_server::dispatch::{create_response, login_response, pub_key_response};
use secmsg_server::protocol::{
    Key, MessageType, ProtocolError, ResponseType, ToServer, ToUser,
};

fn key(b: u8) -> Key {
    [b; 32]
}

fn unwrap_outcome(t: ToUser) -> ResponseType {
    let ToUser::ServerResponse(outcome) = t;
    outcome
}

/// Register succeeds and echoes the record, a second Register of the same
/// handle is refused without touching the first record, Connect to the
/// registered handle yields a relay route seeded with it, and Connect to an
/// unknown handle names it in the error.
#[test]
fn end_to_end_scenario() {
    let key_a = key(1);
    let addr_a = "10.0.0.1:5000".to_string();
    let mut d = Directory::new();

    let (reply, route) = create_response(
        MessageType::Server(ToServer::Register(
            "alice".to_string(),
            "pw1".to_string(),
            key_a,
        )),
        &mut d,
        addr_a.clone(),
    )
    .unwrap();
    match unwrap_outcome(reply) {
        ResponseType::User(v) => {
            assert_eq!(v.handle, "alice");
            assert_eq!(v.addr, addr_a);
            assert_eq!(v.public_key, key_a);
        }
        other => panic!("expected a user view, got {:?}", other),
    }
    assert_eq!(route, vec![(addr_a.clone(), key_a)]);

    let key_b = key(2);
    let (reply, _) = create_response(
        MessageType::Server(ToServer::Register(
            "alice".to_string(),
            "pw2".to_string(),
            key_b,
        )),
        &mut d,
        "10.0.0.2:5000".to_string(),
    )
    .unwrap();
    assert_eq!(
        unwrap_outcome(reply),
        ResponseType::Error("Username already in use.".to_string())
    );

    let (reply, _) = create_response(
        MessageType::Server(ToServer::Login(
            "alice".to_string(),
            "pw1".to_string(),
            key_a,
        )),
        &mut d,
        addr_a.clone(),
    )
    .unwrap();
    match unwrap_outcome(reply) {
        ResponseType::User(v) => {
            assert_eq!(v.handle, "alice");
            assert_eq!(v.public_key, key_a);
        }
        other => panic!("expected a user view, got {:?}", other),
    }

    let requester_key = key(9);
    let (reply, route) = create_response(
        MessageType::Server(ToServer::Connect("alice".to_string(), requester_key)),
        &mut d,
        "10.0.0.9:5000".to_string(),
    )
    .unwrap();
    assert_eq!(route, vec![("10.0.0.9:5000".to_string(), requester_key)]);
    match unwrap_outcome(reply) {
        ResponseType::Connection(hops) => {
            assert_eq!(hops[0], (addr_a.clone(), key_a));
            assert_eq!(hops.len(), 2);
            assert_eq!(hops[1], (addr_a.clone(), key_a));
        }
        other => panic!("expected a relay route, got {:?}", other),
    }

    let (reply, _) = create_response(
        MessageType::Server(ToServer::Connect("bob".to_string(), requester_key)),
        &mut d,
        "10.0.0.9:5000".to_string(),
    )
    .unwrap();
    assert_eq!(
        unwrap_outcome(reply),
        ResponseType::Error("Could not find user bob.".to_string())
    );
}

#[test]
fn login_wrong_password_and_unknown_user_messages() {
    let k = key(1);
    let mut d = Directory::new();
    create_response(
        MessageType::Server(ToServer::Register(
            "alice".to_string(),
            "pw1".to_string(),
            k,
        )),
        &mut d,
        "10.0.0.1:5000".to_string(),
    )
    .unwrap();

    let (reply, _) = login_response(
        "alice".to_string(),
        "pw2".to_string(),
        &d,
        "10.0.0.3:5000".to_string(),
        &k,
    );
    assert_eq!(
        unwrap_outcome(reply),
        ResponseType::Error("Incorrect password.".to_string())
    );

    let (reply, _) = login_response(
        "carol".to_string(),
        "pw1".to_string(),
        &d,
        "10.0.0.3:5000".to_string(),
        &k,
    );
    assert_eq!(
        unwrap_outcome(reply),
        ResponseType::Error("User does not exist.".to_string())
    );
}

#[test]
fn login_substitutes_requester_address() {
    let k = key(1);
    let mut d = Directory::new();
    create_response(
        MessageType::Server(ToServer::Register(
            "alice".to_string(),
            "pw1".to_string(),
            k,
        )),
        &mut d,
        "10.0.0.1:5000".to_string(),
    )
    .unwrap();
    let observed = "172.16.0.8:5000".to_string();
    let (reply, route) = login_response(
        "alice".to_string(),
        "pw1".to_string(),
        &d,
        observed.clone(),
        &k,
    );
    match unwrap_outcome(reply) {
        ResponseType::User(v) => assert_eq!(v.addr, observed),
        other => panic!("expected a user view, got {:?}", other),
    }
    assert_eq!(route, vec![(observed, k)]);
}

/// A PublicKey request on the bootstrap endpoint always yields the server's
/// public key; the same variant on the main endpoint is rejected with no
/// reply.
#[test]
fn bootstrap_isolation() {
    let server_key = key(7);
    let requester_key = key(9);
    let msg = MessageType::Server(ToServer::PublicKey(requester_key));

    let (reply, route) = pub_key_response(
        msg.clone(),
        &server_key,
        "10.0.0.9:5000".to_string(),
    )
    .unwrap();
    assert_eq!(unwrap_outcome(reply), ResponseType::PublicKey(server_key));
    assert_eq!(route, vec![("10.0.0.9:5000".to_string(), requester_key)]);

    let mut d = Directory::new();
    assert_eq!(
        create_response(msg, &mut d, "10.0.0.9:5000".to_string()),
        Err(ProtocolError::WrongVariant)
    );
    assert_eq!(d.len(), 0);
}

#[test]
fn bootstrap_rejects_other_variants() {
    let server_key = key(7);
    let r = pub_key_response(
        MessageType::Server(ToServer::Login(
            "alice".to_string(),
            "pw1".to_string(),
            key(1),
        )),
        &server_key,
        "10.0.0.9:5000".to_string(),
    );
    assert!(r.is_none());
}

#[test]
fn main_endpoint_rejects_user_bound_messages() {
    let mut d = Directory::new();
    let msg = MessageType::User(ToUser::ServerResponse(ResponseType::PublicKey(key(7))));
    assert_eq!(
        create_response(msg, &mut d, "10.0.0.9:5000".to_string()),
        Err(ProtocolError::WrongVariant)
    );
}
