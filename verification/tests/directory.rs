use secmsg_server::directory::{Directory, KnownUser};
use secmsg_server::protocol::{DirectoryError, Key};

fn key(b: u8) -> Key {
    [b; 32]
}

fn alice(k: &Key) -> KnownUser {
    KnownUser::new(
        "alice".to_string(),
        "pw1".to_string(),
        "10.0.0.1:5000".to_string(),
        k,
    )
}

#[test]
fn known_user_new_sets_fields() {
    let k = key(1);
    let u = alice(&k);
    assert_eq!(u.handle, "alice");
    assert_eq!(u.password, "pw1");
    assert_eq!(u.addr, "10.0.0.1:5000");
    assert_eq!(u.public_key, k);
}

#[test]
fn register_echoes_record() {
    let k = key(1);
    let mut d = Directory::new();
    let view = d.register(alice(&k)).unwrap();
    assert_eq!(view.handle, "alice");
    assert_eq!(view.addr, "10.0.0.1:5000");
    assert_eq!(view.public_key, k);
    assert_eq!(d.len(), 1);
}

#[test]
fn register_same_handle_fails_and_keeps_first_record() {
    let k1 = key(1);
    let k2 = key(2);
    let mut d = Directory::new();
    d.register(alice(&k1)).unwrap();
    let second = KnownUser::new(
        "alice".to_string(),
        "pw2".to_string(),
        "10.0.0.2:5000".to_string(),
        &k2,
    );
    assert_eq!(d.register(second), Err(DirectoryError::HandleInUse));
    assert_eq!(d.len(), 1);
    let stored = d.login(&"alice".to_string(), &"pw1".to_string()).unwrap();
    assert_eq!(stored.password, "pw1");
    assert_eq!(stored.addr, "10.0.0.1:5000");
    assert_eq!(stored.public_key, k1);
}

#[test]
fn login_matching_credential_returns_record() {
    let k = key(1);
    let mut d = Directory::new();
    d.register(alice(&k)).unwrap();
    let u = d.login(&"alice".to_string(), &"pw1".to_string()).unwrap();
    assert_eq!(u.handle, "alice");
    assert_eq!(u.public_key, k);
}

#[test]
fn login_wrong_credential() {
    let k = key(1);
    let mut d = Directory::new();
    d.register(alice(&k)).unwrap();
    assert_eq!(
        d.login(&"alice".to_string(), &"pw2".to_string()),
        Err(DirectoryError::WrongCredential)
    );
}

#[test]
fn login_unknown_handle() {
    let d = Directory::new();
    assert_eq!(
        d.login(&"alice".to_string(), &"pw1".to_string()),
        Err(DirectoryError::NoSuchUser)
    );
}

#[test]
fn lookup_for_connect_found_and_missing() {
    let k = key(1);
    let mut d = Directory::new();
    d.register(alice(&k)).unwrap();
    let hop = d.lookup_for_connect(&"alice".to_string()).unwrap();
    assert_eq!(hop.0, "10.0.0.1:5000");
    assert_eq!(hop.1, k);
    assert_eq!(
        d.lookup_for_connect(&"bob".to_string()),
        Err(DirectoryError::TargetNotFound)
    );
}
