use argon2::Argon2;
use argon2::PasswordHasher;
use base64::Engine;

use zero2prod_core::AuthError;
use zero2prod_core::BasicAuthError;
use zero2prod_core::Credentials;
use zero2prod_core::StoredCredentials;
use zero2prod_core::basic_authentication;
use zero2prod_core::validate_credentials;
use zero2prod_core::verify_password_hash;

fn phc_hash_of(password: &str) -> String {
    Argon2::default()
        .hash_password_with_salt(password.as_bytes(), b"a-test-salt-of-16")
        .unwrap()
        .to_string()
}

fn basic_header(payload: &str) -> String {
    format!(
        "Basic {}",
        base64::engine::general_purpose::STANDARD.encode(payload.as_bytes())
    )
}

#[test]
fn a_basic_header_decodes_to_username_and_password() {
    let header = basic_header("alice:secret:word");
    let creds = basic_authentication(Some(&header)).unwrap();
    assert_eq!(creds.username, "alice");
    assert_eq!(creds.password, "secret:word");
}

#[test]
fn a_missing_header_is_rejected() {
    assert_eq!(basic_authentication(None), Err(BasicAuthError::MissingHeader));
}

#[test]
fn a_non_basic_scheme_is_rejected() {
    let header = format!(
        "Bearer {}",
        base64::engine::general_purpose::STANDARD.encode(b"alice:pw")
    );
    assert_eq!(basic_authentication(Some(&header)), Err(BasicAuthError::NotBasic));
}

#[test]
fn a_bad_base64_payload_is_rejected() {
    assert_eq!(
        basic_authentication(Some("Basic !!!not-base64!!!")),
        Err(BasicAuthError::BadBase64)
    );
}

#[test]
fn a_non_utf8_payload_is_rejected() {
    let header = format!(
        "Basic {}",
        base64::engine::general_purpose::STANDARD.encode([0xff, 0xfe, 0xfd])
    );
    assert_eq!(basic_authentication(Some(&header)), Err(BasicAuthError::BadUtf8));
}

#[test]
fn a_payload_without_a_colon_is_rejected() {
    let header = basic_header("alice");
    assert_eq!(
        basic_authentication(Some(&header)),
        Err(BasicAuthError::MissingPassword)
    );
}

#[test]
fn an_empty_username_is_kept() {
    let header = basic_header(":just-a-password");
    let creds = basic_authentication(Some(&header)).unwrap();
    assert_eq!(creds.username, "");
    assert_eq!(creds.password, "just-a-password");
}

#[test]
fn a_correct_password_verifies() {
    let hash = phc_hash_of("everythinghastostartsomewhere");
    assert!(verify_password_hash(&hash, "everythinghastostartsomewhere").is_ok());
}

#[test]
fn a_wrong_password_is_invalid_credentials() {
    let hash = phc_hash_of("everythinghastostartsomewhere");
    assert_eq!(
        verify_password_hash(&hash, "something-else"),
        Err(AuthError::InvalidCredentials)
    );
}

#[test]
fn a_malformed_stored_hash_is_an_unexpected_error() {
    assert_eq!(
        verify_password_hash("not-a-phc-string", "whatever"),
        Err(AuthError::UnexpectedError)
    );
}

#[test]
fn a_correct_credential_pair_yields_the_user_id() {
    let stored = StoredCredentials {
        user_id: 42,
        password_hash: phc_hash_of("hunter2hunter2"),
    };
    let creds = Credentials {
        username: "alice".to_string(),
        password: "hunter2hunter2".to_string(),
    };
    assert_eq!(validate_credentials(&creds, Some(stored)), Ok(42));
}

#[test]
fn an_unknown_user_and_a_wrong_password_fail_alike() {
    let stored = StoredCredentials {
        user_id: 42,
        password_hash: phc_hash_of("hunter2hunter2"),
    };
    let wrong_password = Credentials {
        username: "alice".to_string(),
        password: "not-hunter2".to_string(),
    };
    let with_known_user = validate_credentials(&wrong_password, Some(stored));

    let unknown_user = Credentials {
        username: "mallory".to_string(),
        password: "not-hunter2".to_string(),
    };
    let with_unknown_user = validate_credentials(&unknown_user, None);

    assert_eq!(with_known_user, Err(AuthError::InvalidCredentials));
    assert_eq!(with_unknown_user, Err(AuthError::InvalidCredentials));
    assert_eq!(with_known_user, with_unknown_user);
}

#[test]
fn the_unknown_user_path_still_pays_for_a_hash() {
    // Both failure paths run a full hash comparison, so their latency
    // may differ only by a small constant factor; skipping the hash on
    // the unknown-user path would make it orders of magnitude faster.
    let stored = StoredCredentials {
        user_id: 42,
        password_hash: phc_hash_of("hunter2hunter2"),
    };
    let creds = Credentials {
        username: "alice".to_string(),
        password: "not-hunter2".to_string(),
    };

    let start = std::time::Instant::now();
    for _ in 0..3 {
        let _ = validate_credentials(
            &creds,
            Some(StoredCredentials {
                user_id: stored.user_id,
                password_hash: stored.password_hash.clone(),
            }),
        );
    }
    let with_user = start.elapsed();

    let start = std::time::Instant::now();
    for _ in 0..3 {
        let _ = validate_credentials(&creds, None);
    }
    let without_user = start.elapsed();

    assert!(without_user.as_micros() * 25 > with_user.as_micros());
    assert!(with_user.as_micros() * 25 > without_user.as_micros());
}
