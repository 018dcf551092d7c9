use aleo_acc::errors::{AuthError, IdentityError};
use aleo_acc::identity::{IdentityStore, Keypair};
use aleo_acc::tls::fingerprint_hex;

fn secret_one() -> Vec<u8> {
    // The P-256 scalar 1 as 32 big-endian bytes: a valid secret key.
    let mut s = vec![0u8; 32];
    s[31] = 1;
    s
}

#[test]
fn fresh_identity_and_second_call_agree() {
    let mut store = IdentityStore::new();
    let first = store.ensure_identity();
    let second = store.ensure_identity();
    assert_eq!(first.fingerprint(), second.fingerprint());
    assert_eq!(store.fingerprint(), first.fingerprint());
}

#[test]
fn distinct_keypairs_have_distinct_fingerprints() {
    let a = Keypair::generate();
    let b = Keypair::generate();
    assert_ne!(a.fingerprint(), b.fingerprint());
    assert_eq!(a.fingerprint(), a.fingerprint());
}

#[test]
fn fingerprint_is_deterministic_for_same_secret() {
    let a = Keypair::from_secret(secret_one()).unwrap();
    let b = Keypair::from_secret(secret_one()).unwrap();
    assert_eq!(a.fingerprint(), b.fingerprint());
    let fp = a.fingerprint();
    assert_eq!(fp.len(), 64);
    assert!(fp.chars().all(|c| c.is_ascii_hexdigit() && !c.is_ascii_uppercase()));
}

#[test]
fn load_without_material_has_no_identity() {
    let store = IdentityStore::load(None, None).unwrap();
    assert!(!store.identity_loaded());
}

#[test]
fn load_valid_material_restores_identity() {
    let store = IdentityStore::load(Some(secret_one()), None).unwrap();
    assert!(store.identity_loaded());
    let direct = Keypair::from_secret(secret_one()).unwrap();
    assert_eq!(store.fingerprint(), direct.fingerprint());
}

#[test]
fn load_zero_scalar_is_corrupt() {
    let r = IdentityStore::load(Some(vec![0u8; 32]), None);
    assert!(matches!(r, Err(IdentityError::Corrupt)));
}

#[test]
fn load_oversized_scalar_is_corrupt() {
    let r = IdentityStore::load(Some(vec![0xffu8; 32]), None);
    assert!(matches!(r, Err(IdentityError::Corrupt)));
}

#[test]
fn unlock_without_password_protection_succeeds() {
    let store = IdentityStore::load(Some(secret_one()), None).unwrap();
    assert!(!store.has_password());
    let k = store.unlock().unwrap();
    assert_eq!(k.fingerprint(), store.fingerprint());
}

#[test]
fn unlock_locked_until_password_supplied() {
    let mut store =
        IdentityStore::load(Some(secret_one()), Some(String::from("hunter2"))).unwrap();
    assert!(store.has_password());
    assert!(matches!(store.unlock(), Err(AuthError::Locked)));
    store.input_password(String::from("wrong"));
    assert!(matches!(store.unlock(), Err(AuthError::WrongPassword)));
    store.input_password(String::from("hunter2"));
    assert!(store.unlock().is_ok());
}

#[test]
fn try_password_reports_match_without_mutating() {
    let mut store =
        IdentityStore::load(Some(secret_one()), Some(String::from("hunter2"))).unwrap();
    store.input_password(String::from("hunter2"));
    assert_eq!(store.try_password(&String::from("nope")).unwrap(), false);
    assert_eq!(store.try_password(&String::from("hunter2")).unwrap(), true);
    // The trials above changed nothing: the session still unlocks.
    assert!(store.unlock().is_ok());
}

#[test]
fn try_password_distinguishes_no_password_set() {
    let store = IdentityStore::load(Some(secret_one()), None).unwrap();
    let r = store.try_password(&String::from("anything"));
    assert!(matches!(r, Err(AuthError::NoPasswordSet)));
}

#[test]
fn set_password_then_new_unlocks_and_stale_fails() {
    let mut store = IdentityStore::load(Some(secret_one()), Some(String::from("old-pw"))).unwrap();
    store.set_password(Some(String::from("old-pw")), String::from("new-pw")).unwrap();
    // set_password leaves the new password supplied for this session.
    assert!(store.unlock().is_ok());
    store.input_password(String::from("new-pw"));
    assert!(store.unlock().is_ok());
    store.input_password(String::from("old-pw"));
    assert!(matches!(store.unlock(), Err(AuthError::WrongPassword)));
}

#[test]
fn set_password_rejects_wrong_old_password() {
    let mut store = IdentityStore::load(Some(secret_one()), Some(String::from("old-pw"))).unwrap();
    let r = store.set_password(Some(String::from("not-it")), String::from("new-pw"));
    assert!(matches!(r, Err(AuthError::WrongPassword)));
    // Nothing changed: the original password still opens the record.
    assert_eq!(store.try_password(&String::from("old-pw")).unwrap(), true);
}

#[test]
fn set_password_on_unprotected_record_succeeds() {
    let mut store = IdentityStore::load(Some(secret_one()), None).unwrap();
    assert!(!store.has_password());
    store.set_password(None, String::from("first-pw")).unwrap();
    assert!(store.has_password());
    assert_eq!(store.try_password(&String::from("first-pw")).unwrap(), true);
}

#[test]
fn persisted_secret_restores_the_same_identity() {
    let mut store = IdentityStore::new();
    let keypair = store.ensure_identity();
    let persisted = keypair.to_secret_bytes();
    let restored = IdentityStore::load(Some(persisted), None).unwrap();
    assert_eq!(restored.fingerprint(), store.fingerprint());
}

#[test]
fn fingerprint_hex_matches_known_digests() {
    // SHA-256 of the empty string and of "abc", hex-encoded.
    assert_eq!(
        fingerprint_hex(&Vec::new()),
        "e3b0c44298fc1c149afbf4c8996fb92427ae41e4649b934ca495991b7852b855"
    );
    assert_eq!(
        fingerprint_hex(&vec![97u8, 98, 99]),
        "ba7816bf8f01cfea414140de5dae2223b00361a396177a9cb410ff61f20015ad"
    );
}
