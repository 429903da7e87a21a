use buffmod::secret::SecretKey;
use buffmod::vault::{CredentialVault, VaultError};

fn vault_key() -> SecretKey {
    SecretKey::from_bytes(vec![9u8; 32])
}

#[test]
fn vault_refuses_use_before_init() {
    let mut v = CredentialVault::new();
    assert!(!v.is_initialized());
    assert_eq!(v.get("access_token"), Err(VaultError::VaultUninitialized));
    assert_eq!(v.insert("access_token", vec![1, 2]), Err(VaultError::VaultUninitialized));
}

#[test]
fn vault_init_twice_fails() {
    let mut v = CredentialVault::new();
    assert_eq!(v.init(vault_key()), Ok(()));
    assert_eq!(v.init(vault_key()), Err(VaultError::AlreadyInitialized));
    assert!(v.is_initialized());
}

#[test]
fn vault_stores_and_replaces_secrets() {
    let mut v = CredentialVault::new();
    v.init(vault_key()).unwrap();
    v.insert("access_token", b"aaa".to_vec()).unwrap();
    v.insert("refresh_token", b"rrr".to_vec()).unwrap();
    assert_eq!(v.get("access_token"), Ok(b"aaa".to_vec()));
    v.insert("access_token", b"bbb".to_vec()).unwrap();
    assert_eq!(v.get("access_token"), Ok(b"bbb".to_vec()));
    assert_eq!(v.get("refresh_token"), Ok(b"rrr".to_vec()));
    assert_eq!(v.get("missing"), Err(VaultError::EntryNotFound));
}

#[test]
fn vault_close_wipes_key_and_empties() {
    let mut v = CredentialVault::new();
    v.init(vault_key()).unwrap();
    v.insert("access_token", b"aaa".to_vec()).unwrap();
    let k = v.close().unwrap();
    assert!(k.is_zeroed());
    assert_eq!(k.len(), 32);
    assert!(!v.is_initialized());
    assert_eq!(v.get("access_token"), Err(VaultError::VaultUninitialized));
    assert!(v.close().is_none());
    v.init(vault_key()).unwrap();
    assert_eq!(v.get("access_token"), Err(VaultError::EntryNotFound));
}

#[test]
fn vault_errors_have_messages() {
    assert_eq!(
        VaultError::VaultUninitialized.message(),
        "The credential vault has not been initialized."
    );
    assert_eq!(VaultError::EntryNotFound.message(), "No credential is stored under that name.");
}
