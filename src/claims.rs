//! Reading the claims embedded in a bearer token of the form
//! `header.payload.signature`, whose payload is base64url-encoded JSON.

use base64::Engine;
use vstd::prelude::*;
use vstd::utf8::encode_utf8;

use crate::secure_db_access::SecureDbError;

verus! {

/// The byte that separates the segments of a token.
pub const SEGMENT_SEPARATOR: u8 = 0x2e;

#[verifier::external_type_specification]
#[verifier::external_body]
pub struct ExDecodeError(base64::DecodeError);

#[verifier::external_type_specification]
#[verifier::external_body]
pub struct ExJsonError(serde_json::Error);

/// The bytes that the base64url text `text` (no padding) stands for, or
/// `None` where it is not such text.
pub uninterp spec fn base64url_decoded(text: Seq<u8>) -> Option<Seq<u8>>;

/// For the bytes `json` and a member name `key`: `None` where serde_json
/// refuses `json` (it is not a JSON document, or it nests deeper than the
/// parser's recursion limit); `Some(None)` where the document is not an
/// object with an integer member `key` that fits in 64 signed bits; else
/// `Some(Some(v))`.
pub uninterp spec fn json_i64_member_of(json: Seq<u8>, key: Seq<char>) -> Option<Option<i64>>;

/// Relies on `base64::engine::general_purpose::URL_SAFE_NO_PAD.decode`: the
/// decoded bytes, or an error where `text` is not unpadded base64url; the
/// outcome depends on `text` alone.
#[verifier::external_body]
fn decode_base64url(text: &[u8]) -> (r: Result<Vec<u8>, base64::DecodeError>)
    ensures
        match r {
            Ok(bytes) => base64url_decoded(text@) == Some(bytes@),
            Err(_) => base64url_decoded(text@) is None,
        },
{
    base64::engine::general_purpose::URL_SAFE_NO_PAD.decode(text)
}

/// Relies on `serde_json::from_slice::<serde_json::Value>`, then
/// `Value::get(key)` and `Value::as_i64`: parses `json` (failing on text
/// that is not JSON and on nesting beyond the recursion limit) and reads the
/// integer member `key`; the outcome depends on `json` and `key` alone.
#[verifier::external_body]
fn json_i64_member(json: &[u8], key: &str) -> (r: Result<Option<i64>, serde_json::Error>)
    ensures
        match r {
            Ok(v) => json_i64_member_of(json@, key@) == Some(v),
            Err(_) => json_i64_member_of(json@, key@) is None,
        },
{
    match serde_json::from_slice::<serde_json::Value>(json) {
        Ok(v) => Ok(v.get(key).and_then(serde_json::Value::as_i64)),
        Err(e) => Err(e),
    }
}

/// `i < j` are the positions of the only two separators in `token`.
pub open spec fn separators_at(token: Seq<u8>, i: int, j: int) -> bool {
    &&& 0 <= i < j < token.len()
    &&& token[i] == SEGMENT_SEPARATOR
    &&& token[j] == SEGMENT_SEPARATOR
    &&& forall|k: int|
        0 <= k < token.len() && k != i && k != j ==> #[trigger] token[k] != SEGMENT_SEPARATOR
}

/// The middle segment of a token made of exactly three segments.
pub open spec fn token_payload(token: Seq<u8>) -> Option<Seq<u8>> {
    if exists|i: int, j: int| separators_at(token, i, j) {
        let (i, j) = choose|i: int, j: int| separators_at(token, i, j);
        Some(token.subrange(i + 1, j))
    } else {
        None
    }
}

/// The `exp` claim of a token given by its bytes, or the error that reading
/// it meets first.
pub open spec fn expiry_claim(token: Seq<u8>) -> Result<i64, SecureDbError> {
    match token_payload(token) {
        None => Err(SecureDbError::InvalidTokenFormat),
        Some(payload) => match base64url_decoded(payload) {
            None => Err(SecureDbError::TokenDecodeError),
            Some(json) => match json_i64_member_of(json, "exp"@) {
                None => Err(SecureDbError::TokenDecodeError),
                Some(None) => Err(SecureDbError::ClaimMissing),
                Some(Some(exp)) => Ok(exp),
            },
        },
    }
}

proof fn lemma_separators_unique(token: Seq<u8>, i: int, j: int, i2: int, j2: int)
    requires
        separators_at(token, i, j),
        separators_at(token, i2, j2),
    ensures
        i == i2 && j == j2,
{
    assert(token[i2] == SEGMENT_SEPARATOR);
    assert(token[j2] == SEGMENT_SEPARATOR);
}

/// Finds the two separators of a three-segment token.
fn separator_positions(token: &[u8]) -> (r: Option<(usize, usize)>)
    ensures
        match r {
            Some((i, j)) => separators_at(token@, i as int, j as int),
            None => forall|i: int, j: int| !separators_at(token@, i, j),
        },
{
    let mut first: Option<usize> = None;
    let mut second: Option<usize> = None;
    let mut k: usize = 0;
    while k < token.len()
        invariant
            k <= token@.len(),
            match (first, second) {
                (None, None) => forall|m: int| 0 <= m < k ==> #[trigger] token@[m] != SEGMENT_SEPARATOR,
                (Some(a), None) => {
                    &&& a < k
                    &&& token@[a as int] == SEGMENT_SEPARATOR
                    &&& forall|m: int|
                        0 <= m < k && m != a ==> #[trigger] token@[m] != SEGMENT_SEPARATOR
                },
                (Some(a), Some(b)) => {
                    &&& a < b < k
                    &&& token@[a as int] == SEGMENT_SEPARATOR
                    &&& token@[b as int] == SEGMENT_SEPARATOR
                    &&& forall|m: int|
                        0 <= m < k && m != a && m != b ==> #[trigger] token@[m] != SEGMENT_SEPARATOR
                },
                (None, Some(_)) => false,
            },
        decreases token@.len() - k,
    {
        if token[k] == SEGMENT_SEPARATOR {
            match (first, second) {
                (None, _) => {
                    first = Some(k);
                },
                (Some(_), None) => {
                    second = Some(k);
                },
                (Some(a), Some(b)) => {
                    assert forall|i: int, j: int| !separators_at(token@, i, j) by {
                        if separators_at(token@, i, j) {
                            assert(token@[a as int] == SEGMENT_SEPARATOR);
                            assert(token@[b as int] == SEGMENT_SEPARATOR);
                            assert(token@[k as int] == SEGMENT_SEPARATOR);
                        }
                    }
                    return None;
                },
            }
        }
        k += 1;
    }
    match (first, second) {
        (Some(a), Some(b)) => Some((a, b)),
        _ => {
            assert forall|i: int, j: int| !separators_at(token@, i, j) by {
                if separators_at(token@, i, j) {
                    assert(token@[i] == SEGMENT_SEPARATOR);
                    assert(token@[j] == SEGMENT_SEPARATOR);
                }
            }
            None
        },
    }
}

/// Reads the expiry (`exp`, seconds since the Unix epoch) of a bearer token.
pub fn read_expiry(access_token: &str) -> (r: Result<i64, SecureDbError>)
    ensures
        r == expiry_claim(encode_utf8(access_token@)),
{
    let token = access_token.as_bytes();
    match separator_positions(token) {
        None => Err(SecureDbError::InvalidTokenFormat),
        Some((i, j)) => {
            proof {
                let (i2, j2) = choose|i2: int, j2: int| separators_at(token@, i2, j2);
                lemma_separators_unique(token@, i as int, j as int, i2, j2);
            }
            let payload = &token[i + 1..j];
            match decode_base64url(payload) {
                Err(_) => Err(SecureDbError::TokenDecodeError),
                Ok(json) => match json_i64_member(json.as_slice(), "exp") {
                    Err(_) => Err(SecureDbError::TokenDecodeError),
                    Ok(None) => Err(SecureDbError::ClaimMissing),
                    Ok(Some(exp)) => Ok(exp),
                },
            }
        },
    }
}

} // verus!
