use argon2::Argon2;
use argon2::password_hash::PasswordHasher;
use argon2::password_hash::SaltString;
use base64::Engine;

use zero2prod::authentication::AuthError;
use zero2prod::authentication::Credentials;
use zero2prod::authentication::validate_credentials;
use zero2prod::authentication::validate_password_hash;
use zero2prod::login::LoginError;
use zero2prod::login::login;
use zero2prod::newsletters::basic_authentication;
use zero2prod::secret::SecretString;
use zero2prod::store::SubscriberStore;

fn phc_hash_of(password: &str) -> String {
    let salt = SaltString::from_b64("YWJjZGVmZ2hpamtsbW5vcA").expect("bad salt literal");
    Argon2::default()
        .hash_password(password.as_bytes(), &salt)
        .expect("hashing failed")
        .to_string()
}

#[test]
fn the_right_password_verifies() {
    let hash = SecretString::new(phc_hash_of("a strong password"));
    let candidate = SecretString::new("a strong password".to_string());
    assert!(validate_password_hash(hash, candidate).is_ok());
}

#[test]
fn a_wrong_password_is_an_authentication_failure() {
    let hash = SecretString::new(phc_hash_of("a strong password"));
    let candidate = SecretString::new("a different password".to_string());
    assert_eq!(validate_password_hash(hash, candidate), Err(AuthError::InvalidCredentials));
}

#[test]
fn a_malformed_stored_hash_is_an_internal_error() {
    let hash = SecretString::new("not-a-phc-string".to_string());
    let candidate = SecretString::new("whatever".to_string());
    assert_eq!(validate_password_hash(hash, candidate), Err(AuthError::UnexpectedError));
}

#[test]
fn valid_credentials_return_the_user_id() {
    let mut store = SubscriberStore::new();
    let user_id = store
        .seed_credential("operator".to_string(), SecretString::new(phc_hash_of("hunter2hunter2")))
        .ok()
        .expect("seeding the user failed");
    let credentials = Credentials {
        username: "operator".to_string(),
        password: SecretString::new("hunter2hunter2".to_string()),
    };
    assert_eq!(validate_credentials(credentials, &store), Ok(user_id));
}

#[test]
fn an_unknown_username_is_an_authentication_failure() {
    let store = SubscriberStore::new();
    let credentials = Credentials {
        username: "nobody".to_string(),
        password: SecretString::new("whatever".to_string()),
    };
    assert_eq!(validate_credentials(credentials, &store), Err(AuthError::InvalidCredentials));
}

#[test]
fn a_wrong_password_is_rejected_for_a_known_user() {
    let mut store = SubscriberStore::new();
    store
        .seed_credential("operator".to_string(), SecretString::new(phc_hash_of("hunter2hunter2")))
        .ok()
        .expect("seeding the user failed");
    let credentials = Credentials {
        username: "operator".to_string(),
        password: SecretString::new("wrong".to_string()),
    };
    assert_eq!(validate_credentials(credentials, &store), Err(AuthError::InvalidCredentials));
}

#[test]
fn login_mirrors_the_credential_check() {
    let mut store = SubscriberStore::new();
    let user_id = store
        .seed_credential("operator".to_string(), SecretString::new(phc_hash_of("hunter2hunter2")))
        .ok()
        .expect("seeding the user failed");
    assert_eq!(
        login(&store, "operator".to_string(), SecretString::new("hunter2hunter2".to_string())),
        Ok(user_id),
    );
    assert_eq!(
        login(&store, "operator".to_string(), SecretString::new("wrong".to_string())),
        Err(LoginError::AuthError),
    );
    assert_eq!(
        login(&store, "nobody".to_string(), SecretString::new("whatever".to_string())),
        Err(LoginError::AuthError),
    );
}

#[test]
fn basic_authentication_decodes_the_header() {
    let encoded = base64::engine::general_purpose::STANDARD.encode("jon:a:b:c-password");
    let header = format!("Basic {}", encoded);
    let credentials = basic_authentication(Some(header.as_str()))
        .ok()
        .expect("a valid header was refused");
    assert_eq!(credentials.username, "jon");
    // Only the first colon splits: the rest belongs to the password.
    assert_eq!(credentials.password.expose_secret(), "a:b:c-password");
}

#[test]
fn basic_authentication_rejects_a_missing_header() {
    assert!(basic_authentication(None).is_err());
}

#[test]
fn the_secret_wrapper_redacts_by_default() {
    let secret = SecretString::new("hunter2hunter2".to_string());
    assert_eq!(secret.redacted(), "[REDACTED]");
    assert_eq!(secret.expose_secret(), "hunter2hunter2");
}
