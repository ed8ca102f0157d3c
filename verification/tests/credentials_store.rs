use linkstate::credentials::{resolve_credentials, CredentialStore};
use linkstate::supervisor::{LinkState, Supervisor};

#[test]
fn empty_store_gets_defaults_written_and_used() {
    // First boot: the store holds neither key. The built-in defaults are
    // written, read back identically, and handed on to configure the client.
    let mut store = CredentialStore::new();
    let creds = resolve_credentials(&mut store);
    assert_eq!(creds.ssid, "LY-TX");
    assert_eq!(creds.password, "a1234567890");
    assert_eq!(store.ssid.as_deref(), Some("LY-TX"));
    assert_eq!(store.password.as_deref(), Some("a1234567890"));
    let sup = Supervisor::new(creds);
    assert_eq!(sup.config.ssid, "LY-TX");
    assert_eq!(sup.config.password, "a1234567890");
    assert_eq!(sup.link, LinkState::Idle);
}

#[test]
fn stored_keys_are_read_back_unchanged() {
    let mut store = CredentialStore {
        ssid: Some(String::from("office-net")),
        password: Some(String::from("hunter2hunter2")),
    };
    let creds = resolve_credentials(&mut store);
    assert_eq!(creds.ssid, "office-net");
    assert_eq!(creds.password, "hunter2hunter2");
    assert_eq!(store.ssid.as_deref(), Some("office-net"));
    assert_eq!(store.password.as_deref(), Some("hunter2hunter2"));
}

#[test]
fn each_key_resolves_on_its_own() {
    // One key present, the other absent: only the absent one is defaulted.
    let mut store = CredentialStore {
        ssid: Some(String::from("office-net")),
        password: None,
    };
    let creds = resolve_credentials(&mut store);
    assert_eq!(creds.ssid, "office-net");
    assert_eq!(creds.password, "a1234567890");
    assert_eq!(store.ssid.as_deref(), Some("office-net"));
    assert_eq!(store.password.as_deref(), Some("a1234567890"));
}
