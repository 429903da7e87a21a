//! What unlocking a session needs from authentication material: the key of
//! the identity and the expiry of the access token.

use vstd::prelude::*;
use vstd::utf8::encode_utf8;

use crate::claims::{expiry_claim, read_expiry};
use crate::secret::SecretKey;
use crate::secure_db_access::{derived_key, EncKey, SecureDbError, KEY_LEN};

verus! {

/// The key and the deadline of a session about to be unlocked.
pub struct SessionMaterial {
    pub key: SecretKey,
    pub deadline: i64,
}

/// The outcome of deriving session material: the key and the deadline, or
/// the first error met (the identity is checked before the token).
pub open spec fn material_of(user_id: Seq<char>, access_token: Seq<char>) -> Result<
    (Seq<u8>, i64),
    SecureDbError,
> {
    if user_id.len() == 0 {
        Err(SecureDbError::EmptyUserId)
    } else {
        match expiry_claim(encode_utf8(access_token)) {
            Err(e) => Err(e),
            Ok(exp) => Ok((derived_key(user_id), exp)),
        }
    }
}

/// Derives the key of `user_id` and reads the expiry of `access_token`.
pub fn derive_session_material(user_id: &str, access_token: &str) -> (r: Result<
    SessionMaterial,
    SecureDbError,
>)
    ensures
        match r {
            Ok(m) => {
                &&& material_of(user_id@, access_token@) == Ok::<(Seq<u8>, i64), SecureDbError>(
                    (m.key@, m.deadline),
                )
                &&& m.key@.len() == KEY_LEN
            },
            Err(e) => material_of(user_id@, access_token@) == Err::<(Seq<u8>, i64), SecureDbError>(
                e,
            ),
        },
{
    if user_id.is_empty() {
        return Err(SecureDbError::EmptyUserId);
    }
    let deadline = read_expiry(access_token)?;
    let enc_key = EncKey::new(user_id)?;
    let bytes = enc_key.derive_encryption_key(user_id)?;
    Ok(SessionMaterial { key: SecretKey::from_bytes(bytes), deadline })
}

} // verus!
