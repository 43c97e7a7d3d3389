//! Credential validation against stored password hashes.
//!
//! The stored hash is a salted, memory-hard hash in the PHC string
//! format; verification runs through argon2. The verification is
//! CPU-bound, so a caller handling concurrent requests should run
//! `validate_credentials` on a worker pool away from its scheduling
//! path; nothing here depends on where it runs.

use vstd::prelude::*;

use argon2::PasswordVerifier;

use crate::secret::SecretString;
use crate::store::StoreView;
use crate::store::SubscriberStore;

verus! {

/// Whether a stored hash parses as a PHC string: a function of the
/// string alone. What argon2 accepts takes pages to state, so the
/// result only carries this name.
pub uninterp spec fn phc_parses(hash: Seq<char>) -> bool;

/// Whether argon2's verification of a candidate password against a
/// stored PHC string succeeds: a function of the two strings alone.
pub uninterp spec fn password_matches(hash: Seq<char>, password: Seq<char>) -> bool;

/// Authentication failed, or the attempt could not be carried out.
/// The two are kept apart so a broken stored hash surfaces as an
/// internal fault, never as a wrong password; beyond that the caller
/// learns nothing about why authentication failed.
#[derive(Clone, Copy, PartialEq, Eq, Structural, Debug)]
pub enum AuthError {
    InvalidCredentials,
    UnexpectedError,
}

/// A username with the password a caller presented.
pub struct Credentials {
    pub username: String,
    pub password: SecretString,
}

/// The one check that grants access: the username is provisioned, its
/// stored hash parses, and the presented password verifies against it.
pub open spec fn credentials_valid(s: StoreView, username: Seq<char>, password: Seq<char>) -> bool {
    &&& s.has_user(username)
    &&& phc_parses(s.credential_for_username(username).password_hash)
    &&& password_matches(s.credential_for_username(username).password_hash, password)
}

/// Relies on argon2's `PasswordHash::new`: whether a string parses in
/// the PHC format depends on the string alone.
#[verifier::external_body]
fn phc_string_parses(expected_password_hash: &str) -> (r: bool)
    ensures
        r == phc_parses(expected_password_hash@),
{
    argon2::PasswordHash::new(expected_password_hash).is_ok()
}

/// Relies on argon2's `verify_password` under the default `Argon2`
/// context, with the parameters read from the PHC string itself:
/// success is a function of the stored string and the candidate alone.
#[verifier::external_body]
fn argon2_verifies(expected_password_hash: &str, password_candidate: &str) -> (r: bool)
    ensures
        r == password_matches(expected_password_hash@, password_candidate@),
{
    match argon2::PasswordHash::new(expected_password_hash) {
        Ok(parsed) => argon2::Argon2::default().verify_password(
            password_candidate.as_bytes(),
            &parsed,
        ).is_ok(),
        Err(_) => false,
    }
}

/// Verifies a candidate password against a stored hash. A stored hash
/// that does not parse is an internal fault, not a wrong password.
pub fn validate_password_hash(expected_password: SecretString, password_candidate: SecretString) -> (r:
    Result<(), AuthError>)
    ensures
        r is Ok <==> phc_parses(expected_password@) && password_matches(
            expected_password@,
            password_candidate@,
        ),
        !phc_parses(expected_password@) ==> r == Err::<(), AuthError>(AuthError::UnexpectedError),
        phc_parses(expected_password@) && !password_matches(expected_password@, password_candidate@)
            ==> r == Err::<(), AuthError>(AuthError::InvalidCredentials),
{
    if !phc_string_parses(expected_password.expose_secret()) {
        return Err(AuthError::UnexpectedError);
    }
    if !argon2_verifies(expected_password.expose_secret(), password_candidate.expose_secret()) {
        return Err(AuthError::InvalidCredentials);
    }
    Ok(())
}

/// Verifies a username/password pair against the credential table and
/// hands back the user id on a verified match. An unknown username and
/// a wrong password fail the same way: the error never says which.
pub fn validate_credentials(credentials: Credentials, store: &SubscriberStore) -> (r: Result<
    u64,
    AuthError,
>)
    requires
        store@.wf(),
    ensures
        r is Ok <==> credentials_valid(store@, credentials.username@, credentials.password@),
        r matches Ok(id) ==> id == store@.credential_for_username(credentials.username@).user_id,
        !store@.has_user(credentials.username@) ==> r == Err::<u64, AuthError>(
            AuthError::InvalidCredentials,
        ),
        store@.has_user(credentials.username@) && !phc_parses(
            store@.credential_for_username(credentials.username@).password_hash,
        ) ==> r == Err::<u64, AuthError>(AuthError::UnexpectedError),
        store@.has_user(credentials.username@) && phc_parses(
            store@.credential_for_username(credentials.username@).password_hash,
        ) && !password_matches(
            store@.credential_for_username(credentials.username@).password_hash,
            credentials.password@,
        ) ==> r == Err::<u64, AuthError>(AuthError::InvalidCredentials),
{
    let row = match store.get_stored_credentials(credentials.username.as_str()) {
        Some(row) => row,
        None => {
            return Err(AuthError::InvalidCredentials);
        },
    };
    match validate_password_hash(row.1, credentials.password) {
        Ok(_) => Ok(row.0),
        Err(e) => Err(e),
    }
}

} // verus!
