use buffmod::material::derive_session_material;
use buffmod::secret::SecretKey;
use buffmod::secure_db_access::{EncKey, SecureDbError, KEY_LEN, SALT_LEN};

const SALT_U1: [u8; 16] = [187, 130, 3, 13, 188, 43, 202, 186, 50, 169, 11, 242, 226, 7, 168, 74];

const KEY_U1: [u8; 32] = [
    22, 245, 32, 238, 146, 201, 49, 103, 163, 229, 91, 176, 26, 224, 154, 232, 81, 78, 10, 89,
    186, 59, 117, 153, 190, 152, 215, 6, 241, 218, 76, 208,
];

// header {"alg":"HS256","typ":"JWT"}, payload {"sub": "u1", "exp": 1700000000}
const TOKEN_U1: &str = "eyJhbGciOiJIUzI1NiIsInR5cCI6IkpXVCJ9.eyJzdWIiOiAidTEiLCAiZXhwIjogMTcwMDAwMDAwMH0.c2ln";

#[test]
fn salt_is_first_half_of_sha256() {
    let k = EncKey::new("u1").unwrap();
    assert_eq!(k.salt.len(), SALT_LEN);
    assert_eq!(k.salt, SALT_U1.to_vec());
}

#[test]
fn salt_is_deterministic() {
    let a = EncKey::new("user-42").unwrap();
    let b = EncKey::new("user-42").unwrap();
    assert_eq!(a.salt, b.salt);
}

#[test]
fn salts_of_different_identities_differ() {
    let a = EncKey::new("u1").unwrap();
    let b = EncKey::new("u2").unwrap();
    assert_ne!(a.salt, b.salt);
    assert_eq!(
        b.salt,
        vec![108, 162, 2, 200, 142, 84, 157, 255, 104, 192, 155, 250, 251, 252, 96, 178]
    );
}

#[test]
fn golden_key_for_u1() {
    let k = EncKey::new("u1").unwrap();
    let key = k.derive_encryption_key("u1").unwrap();
    assert_eq!(key.len(), KEY_LEN);
    assert_eq!(key, KEY_U1.to_vec());
}

#[test]
fn key_derivation_is_deterministic() {
    let k1 = EncKey::new("u1").unwrap().derive_encryption_key("u1").unwrap();
    let k2 = EncKey::new("u1").unwrap().derive_encryption_key("u1").unwrap();
    assert_eq!(k1, k2);
}

#[test]
fn keys_of_different_identities_differ() {
    let k1 = EncKey::new("u1").unwrap().derive_encryption_key("u1").unwrap();
    let k2 = EncKey::new("u2").unwrap().derive_encryption_key("u2").unwrap();
    assert_ne!(k1, k2);
}

#[test]
fn empty_identity_is_refused() {
    assert!(matches!(EncKey::new(""), Err(SecureDbError::EmptyUserId)));
    let k = EncKey::new("u1").unwrap();
    assert!(matches!(k.derive_encryption_key(""), Err(SecureDbError::EmptyUserId)));
}

#[test]
fn passphrase_is_standard_base64_of_key() {
    let key = SecretKey::from_bytes(KEY_U1.to_vec());
    let mut passphrase = key.to_passphrase();
    assert_eq!(passphrase.as_bytes(), b"FvUg7pLJMWej5VuwGuCa6FFOClm6O3WZvpjXBvHaTNA=");
    passphrase.wipe();
    assert!(passphrase.is_zeroed());
    assert_eq!(passphrase.len(), 44);
}

#[test]
fn session_material_of_u1() {
    let m = derive_session_material("u1", TOKEN_U1).unwrap();
    assert_eq!(m.key.as_bytes(), &KEY_U1[..]);
    assert_eq!(m.deadline, 1700000000);
}

#[test]
fn session_material_checks_identity_first() {
    assert!(matches!(derive_session_material("", "garbage"), Err(SecureDbError::EmptyUserId)));
}

#[test]
fn session_material_reports_token_errors() {
    assert!(matches!(
        derive_session_material("u1", "no-dots-here"),
        Err(SecureDbError::InvalidTokenFormat)
    ));
}

#[test]
fn public_salt_matches_enc_key() {
    assert_eq!(EncKey::get_persistent_salt("u1"), SALT_U1.to_vec());
    assert_eq!(EncKey::get_persistent_salt("u1"), EncKey::get_persistent_salt("u1"));
    assert_ne!(EncKey::get_persistent_salt("u1"), EncKey::get_persistent_salt("u2"));
}

#[test]
fn derivation_errors_have_messages() {
    assert_eq!(SecureDbError::EmptyUserId.message(), "The user identity is empty.");
    assert_eq!(
        SecureDbError::ClaimMissing.message(),
        "The access token lacks the expected claim."
    );
}
