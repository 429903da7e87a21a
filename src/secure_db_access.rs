//! Key derivation: a persistent per-identity salt and a 256-bit key stretched
//! from the identity with PBKDF2-HMAC-SHA256.
//!
//! Derivation policy: the key is derived from `user_id` alone. It therefore
//! stays the same across logins and token refreshes, so one store file stays
//! readable for the lifetime of the account.

use sha2::Digest;
use vstd::prelude::*;
use vstd::utf8::encode_utf8;

verus! {

/// PBKDF2 iteration count.
pub const ITERATIONS: u32 = 100_000;

/// Length in bytes of the persistent salt.
pub const SALT_LEN: usize = 16;

/// Length in bytes of a derived key.
pub const KEY_LEN: usize = 32;

/// Errors of key derivation and of reading a bearer token's claims.
#[derive(Debug, Clone, Copy, PartialEq, Eq, Structural)]
pub enum SecureDbError {
    /// The identity is the empty string.
    EmptyUserId,
    /// The token is not three segments separated by two dots.
    InvalidTokenFormat,
    /// The payload segment is not base64url, or not a JSON document.
    TokenDecodeError,
    /// The payload has no integer claim of the expected name.
    ClaimMissing,
}

/// The message of a key-derivation or token error.
pub open spec fn secure_db_error_message(e: SecureDbError) -> Seq<char> {
    match e {
        SecureDbError::EmptyUserId => "The user identity is empty."@,
        SecureDbError::InvalidTokenFormat => "The access token is not made of three dot-separated segments."@,
        SecureDbError::TokenDecodeError => "The access token payload could not be decoded."@,
        SecureDbError::ClaimMissing => "The access token lacks the expected claim."@,
    }
}

impl SecureDbError {
    /// A human-readable message for the error. It never holds key or token
    /// material.
    pub fn message(&self) -> (r: &'static str)
        ensures
            r@ == secure_db_error_message(*self),
    {
        match self {
            SecureDbError::EmptyUserId => "The user identity is empty.",
            SecureDbError::InvalidTokenFormat => "The access token is not made of three dot-separated segments.",
            SecureDbError::TokenDecodeError => "The access token payload could not be decoded.",
            SecureDbError::ClaimMissing => "The access token lacks the expected claim.",
        }
    }
}

/// The SHA-256 digest of `data`.
pub uninterp spec fn sha256_of(data: Seq<u8>) -> Seq<u8>;

/// The 32-byte output of PBKDF2-HMAC-SHA256 over `password` and `salt` with
/// `rounds` iterations.
pub uninterp spec fn pbkdf2_sha256_of(password: Seq<u8>, salt: Seq<u8>, rounds: u32) -> Seq<u8>;

/// Relies on `sha2::Sha256::digest`: the SHA-256 digest of `data`, which is
/// 32 bytes long and depends on `data` alone.
#[verifier::external_body]
fn sha256(data: &[u8]) -> (r: Vec<u8>)
    ensures
        r@ == sha256_of(data@),
        r@.len() == 32,
{
    sha2::Sha256::digest(data).to_vec()
}

/// Relies on `pbkdf2::pbkdf2_hmac::<sha2::Sha256>`, which fills a 32-byte
/// buffer with the derived key; the output depends on the arguments alone.
#[verifier::external_body]
fn pbkdf2_sha256(password: &[u8], salt: &[u8], rounds: u32) -> (r: Vec<u8>)
    ensures
        r@ == pbkdf2_sha256_of(password@, salt@, rounds),
        r@.len() == KEY_LEN,
{
    let mut key = [0u8; KEY_LEN];
    pbkdf2::pbkdf2_hmac::<sha2::Sha256>(password, salt, rounds, &mut key);
    key.to_vec()
}

/// The salt of an identity: the first 16 bytes of SHA-256 over its UTF-8 bytes.
pub open spec fn persistent_salt(user_id: Seq<char>) -> Seq<u8> {
    sha256_of(encode_utf8(user_id)).subrange(0, SALT_LEN as int)
}

/// The key of an identity: PBKDF2-HMAC-SHA256 over its UTF-8 bytes, with its
/// persistent salt and `ITERATIONS` rounds.
pub open spec fn derived_key(user_id: Seq<char>) -> Seq<u8> {
    pbkdf2_sha256_of(encode_utf8(user_id), persistent_salt(user_id), ITERATIONS)
}

/// The salt is a function of the identity: computing it again for an equal
/// identity, in this process or another, gives the same bytes.
pub proof fn lemma_salt_deterministic(a: Seq<char>, b: Seq<char>)
    requires
        a == b,
    ensures
        persistent_salt(a) == persistent_salt(b),
{
}

/// Different identities have different salts wherever the first 16 bytes of
/// their digests differ, that is, unless truncated SHA-256 collides on them.
pub proof fn lemma_salt_distinct(a: Seq<char>, b: Seq<char>)
    requires
        sha256_of(encode_utf8(a)).subrange(0, SALT_LEN as int) != sha256_of(
            encode_utf8(b),
        ).subrange(0, SALT_LEN as int),
    ensures
        persistent_salt(a) != persistent_salt(b),
{
}

/// Key derivation has no hidden input: deriving under the persistent salt of
/// each of two equal identities gives the same key, the key of the identity.
pub proof fn lemma_key_deterministic(a: Seq<char>, b: Seq<char>, salt_a: Seq<u8>, salt_b: Seq<u8>)
    requires
        a == b,
        salt_a == persistent_salt(a),
        salt_b == persistent_salt(b),
    ensures
        pbkdf2_sha256_of(encode_utf8(a), salt_a, ITERATIONS) == pbkdf2_sha256_of(
            encode_utf8(b),
            salt_b,
            ITERATIONS,
        ),
        pbkdf2_sha256_of(encode_utf8(a), salt_a, ITERATIONS) == derived_key(a),
{
}

/// Holds the persistent salt of one identity.
pub struct EncKey {
    pub salt: Vec<u8>,
}

impl EncKey {
    /// Computes the salt of `user_id`; the empty identity is refused.
    pub fn new(user_id: &str) -> (r: Result<Self, SecureDbError>)
        ensures
            match r {
                Ok(k) => {
                    &&& user_id@.len() > 0
                    &&& k.salt@ == persistent_salt(user_id@)
                    &&& k.salt@.len() == SALT_LEN
                },
                Err(e) => user_id@.len() == 0 && e == SecureDbError::EmptyUserId,
            },
    {
        if user_id.is_empty() {
            return Err(SecureDbError::EmptyUserId);
        }
        let salt = Self::get_persistent_salt(user_id);
        Ok(EncKey { salt })
    }

    /// Derives the 32-byte key of `user_id` under this salt.
    pub fn derive_encryption_key(&self, user_id: &str) -> (r: Result<Vec<u8>, SecureDbError>)
        ensures
            match r {
                Ok(k) => {
                    &&& user_id@.len() > 0
                    &&& k@ == pbkdf2_sha256_of(encode_utf8(user_id@), self.salt@, ITERATIONS)
                    &&& k@.len() == KEY_LEN
                },
                Err(e) => user_id@.len() == 0 && e == SecureDbError::EmptyUserId,
            },
    {
        if user_id.is_empty() {
            return Err(SecureDbError::EmptyUserId);
        }
        Ok(pbkdf2_sha256(user_id.as_bytes(), self.salt.as_slice(), ITERATIONS))
    }

    /// The salt of an identity: the first `SALT_LEN` bytes of the digest of
    /// its UTF-8 bytes.
    pub fn get_persistent_salt(user_id: &str) -> (r: Vec<u8>)
        ensures
            r@ == persistent_salt(user_id@),
            r@.len() == SALT_LEN,
    {
        let digest = sha256(user_id.as_bytes());
        let mut salt: Vec<u8> = Vec::with_capacity(SALT_LEN);
        let mut i: usize = 0;
        while i < SALT_LEN
            invariant
                i <= SALT_LEN,
                digest@.len() == 32,
                salt@ == digest@.subrange(0, i as int),
            decreases SALT_LEN - i,
        {
            salt.push(digest[i]);
            i += 1;
        }
        salt
    }
}

} // verus!
