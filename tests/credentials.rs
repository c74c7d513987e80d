use stump_auth::credentials::{
    decode_base64_credentials, decode_basic_payload, hash_password, verify_password,
};
use stump_auth::error::AuthError;

#[test]
fn test_verify_password() {
    let hash = bcrypt::hash("password", bcrypt::DEFAULT_COST).unwrap();
    assert!(verify_password(&hash, "password").unwrap());
}

#[test]
fn test_decode_64_credentials_with_colon_in_password() {
    let testcreds = decode_base64_credentials("username:pass:$%^word".into());
    assert_eq!(testcreds.unwrap().password, String::from("pass:$%^word"));
}

#[test]
fn test_decode_64_credentials_32_chars_password() {
    let testcreds =
        decode_base64_credentials("username:wp*r@hj!1b:o4sZ#5TdvyzBd$n-bqaPi".into());
    assert_eq!(
        testcreds.unwrap().password,
        String::from("wp*r@hj!1b:o4sZ#5TdvyzBd$n-bqaPi")
    );
}

#[test]
fn test_decode_64_credentials_64_chars_password() {
    let testcreds = decode_base64_credentials(
        "username:wp*r@hj!1b:o4sZ#5TdvyzBd$n-bqaPiwp*r@hj!1b:o4sZ#5TdvyzBd$n-bqaPi".into(),
    );
    assert_eq!(
        testcreds.unwrap().password,
        String::from("wp*r@hj!1b:o4sZ#5TdvyzBd$n-bqaPiwp*r@hj!1b:o4sZ#5TdvyzBd$n-bqaPi")
    );
}

#[test]
fn decode_credentials_splits_username() {
    let creds = decode_base64_credentials("alice:secret".into()).unwrap();
    assert_eq!(creds.username, "alice");
    assert_eq!(creds.password, "secret");
}

#[test]
fn decode_credentials_rejects_empty_parts() {
    assert_eq!(
        decode_base64_credentials(":secret".into()).unwrap_err(),
        AuthError::BadCredentials
    );
    assert_eq!(
        decode_base64_credentials("alice:".into()).unwrap_err(),
        AuthError::BadCredentials
    );
    assert_eq!(
        decode_base64_credentials("no-colon".into()).unwrap_err(),
        AuthError::BadCredentials
    );
    assert_eq!(
        decode_base64_credentials(Vec::new()).unwrap_err(),
        AuthError::BadCredentials
    );
}

#[test]
fn decode_credentials_rejects_invalid_utf8() {
    assert_eq!(
        decode_base64_credentials(vec![0x61, 0x3a, 0xff, 0xfe]).unwrap_err(),
        AuthError::BadCredentials
    );
}

#[test]
fn decode_credentials_keeps_non_ascii() {
    let creds = decode_base64_credentials("jürgen:päss".as_bytes().to_vec()).unwrap();
    assert_eq!(creds.username, "jürgen");
    assert_eq!(creds.password, "päss");
}

#[test]
fn basic_payload_is_base64_decoded() {
    // "alice:secret"
    let creds = decode_basic_payload("YWxpY2U6c2VjcmV0").unwrap().unwrap();
    assert_eq!(creds.username, "alice");
    assert_eq!(creds.password, "secret");
    assert!(decode_basic_payload("not base64!").is_none());
    // "alice"
    assert_eq!(
        decode_basic_payload("YWxpY2U=").unwrap().unwrap_err(),
        AuthError::BadCredentials
    );
}

#[test]
fn hashed_password_verifies_and_others_do_not() {
    let hash = hash_password("hunter2", 4).unwrap();
    assert_ne!(hash, "hunter2");
    assert!(verify_password(&hash, "hunter2").unwrap());
    assert!(!verify_password(&hash, "hunter3").unwrap());
    assert!(!verify_password(&hash, "").unwrap());
}

#[test]
fn unreadable_hash_is_an_error() {
    assert_eq!(
        verify_password("not-a-bcrypt-hash", "password").unwrap_err(),
        AuthError::InvalidHash
    );
}

#[test]
fn hash_with_bad_cost_fails() {
    assert_eq!(hash_password("pw", 1).unwrap_err(), AuthError::HashFailure);
}
