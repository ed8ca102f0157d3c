//! Credential resolution at startup. The device keeps its network name and
//! password in a non-volatile key-value namespace; at first boot the
//! namespace is empty and built-in defaults are written once, then read back
//! like any stored value. The storage driver itself runs in the surrounding
//! task; this module holds the two keys as plain values and decides what is
//! written and what is used.

use vstd::prelude::*;

verus! {

/// The network name written at first boot, when the store holds none.
pub open spec fn default_ssid() -> Seq<char> {
    "LY-TX"@
}

/// The password written at first boot, when the store holds none.
pub open spec fn default_password() -> Seq<char> {
    "a1234567890"@
}

/// The credentials one connection attempt runs with. Loaded once at
/// supervisor start and immutable afterwards.
#[derive(Clone, Debug)]
pub struct Credentials {
    pub ssid: String,
    pub password: String,
}

/// What the non-volatile namespace holds for the two credential keys; an
/// absent key has never been written.
#[derive(Clone, Debug)]
pub struct CredentialStore {
    pub ssid: Option<String>,
    pub password: Option<String>,
}

impl CredentialStore {
    /// A store that holds neither key, as at first boot.
    pub fn new() -> (s: Self)
        ensures
            s.ssid is None,
            s.password is None,
    {
        CredentialStore { ssid: None, password: None }
    }
}

/// Loads the credentials: a key already present is read back unchanged; an
/// absent key is first written with its built-in default and then read back,
/// so afterwards the store always holds both keys and the returned values
/// are exactly what the store holds.
pub fn resolve_credentials(store: &mut CredentialStore) -> (creds: Credentials)
    ensures
        old(store).ssid matches Some(s) ==> creds.ssid@ == s@ && final(store).ssid
            == old(store).ssid,
        old(store).ssid is None ==> creds.ssid@ == default_ssid(),
        old(store).password matches Some(p) ==> creds.password@ == p@ && final(store).password
            == old(store).password,
        old(store).password is None ==> creds.password@ == default_password(),
        final(store).ssid matches Some(s) && s@ == creds.ssid@,
        final(store).password matches Some(p) && p@ == creds.password@,
{
    let ssid: String;
    match &store.ssid {
        Some(s) => {
            ssid = s.clone();
        },
        None => {
            ssid = "LY-TX".to_owned();
            store.ssid = Some(ssid.clone());
        },
    }
    let password: String;
    match &store.password {
        Some(p) => {
            password = p.clone();
        },
        None => {
            password = "a1234567890".to_owned();
            store.password = Some(password.clone());
        },
    }
    Credentials { ssid, password }
}

} // verus!
