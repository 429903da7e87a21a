use buffmod::claims::read_expiry;
use buffmod::secure_db_access::SecureDbError;

const HEADER: &str = "eyJhbGciOiJIUzI1NiIsInR5cCI6IkpXVCJ9";

fn token(payload: &str) -> String {
    format!("{}.{}.c2ln", HEADER, payload)
}

#[test]
fn reads_exp_claim() {
    // {"sub": "u1", "exp": 1700000000}
    let t = token("eyJzdWIiOiAidTEiLCAiZXhwIjogMTcwMDAwMDAwMH0");
    assert_eq!(read_expiry(&t), Ok(1700000000));
}

#[test]
fn token_without_separators_is_malformed() {
    assert_eq!(read_expiry("abc"), Err(SecureDbError::InvalidTokenFormat));
    assert_eq!(read_expiry(""), Err(SecureDbError::InvalidTokenFormat));
}

#[test]
fn token_with_two_segments_is_malformed() {
    assert_eq!(read_expiry("a.b"), Err(SecureDbError::InvalidTokenFormat));
}

#[test]
fn token_with_four_segments_is_malformed() {
    let t = format!("{}.c2ln", token("eyJzdWIiOiAidTEifQ"));
    assert_eq!(read_expiry(&t), Err(SecureDbError::InvalidTokenFormat));
}

#[test]
fn payload_that_is_not_base64url_fails_to_decode() {
    let t = token("!!!");
    assert_eq!(read_expiry(&t), Err(SecureDbError::TokenDecodeError));
}

#[test]
fn payload_that_is_not_json_fails_to_decode() {
    // "not json"
    let t = token("bm90IGpzb24");
    assert_eq!(read_expiry(&t), Err(SecureDbError::TokenDecodeError));
}

#[test]
fn payload_without_exp_misses_the_claim() {
    // {"sub": "u1"}
    let t = token("eyJzdWIiOiAidTEifQ");
    assert_eq!(read_expiry(&t), Err(SecureDbError::ClaimMissing));
}

#[test]
fn non_integer_exp_misses_the_claim() {
    // {"exp": "soon"}
    let t = token("eyJleHAiOiAic29vbiJ9");
    assert_eq!(read_expiry(&t), Err(SecureDbError::ClaimMissing));
}
