//! The login operation: the same credential check the dispatcher uses,
//! surfaced under its own error type for the login route.

use vstd::prelude::*;

use crate::authentication::AuthError;
use crate::authentication::Credentials;
use crate::authentication::credentials_valid;
use crate::authentication::password_matches;
use crate::authentication::phc_parses;
use crate::authentication::validate_credentials;
use crate::secret::SecretString;
use crate::store::SubscriberStore;

verus! {

/// Why a login was refused: the caller could not be authenticated, or
/// the attempt could not be carried out.
#[derive(Clone, Copy, PartialEq, Eq, Structural, Debug)]
pub enum LoginError {
    UnexpectedError,
    AuthError,
}

/// Validates a login form against the credential table. On a verified
/// match the user id comes back and the boundary redirects; either
/// failure keeps the same opaque shape as `validate_credentials`.
pub fn login(store: &SubscriberStore, username: String, password: SecretString) -> (r: Result<
    u64,
    LoginError,
>)
    requires
        store@.wf(),
    ensures
        r is Ok <==> credentials_valid(store@, username@, password@),
        r matches Ok(id) ==> id == store@.credential_for_username(username@).user_id,
        !store@.has_user(username@) ==> r == Err::<u64, LoginError>(LoginError::AuthError),
        store@.has_user(username@) && !phc_parses(
            store@.credential_for_username(username@).password_hash,
        ) ==> r == Err::<u64, LoginError>(LoginError::UnexpectedError),
        store@.has_user(username@) && phc_parses(
            store@.credential_for_username(username@).password_hash,
        ) && !password_matches(
            store@.credential_for_username(username@).password_hash,
            password@,
        ) ==> r == Err::<u64, LoginError>(LoginError::AuthError),
{
    let credentials = Credentials { username, password };
    match validate_credentials(credentials, store) {
        Ok(id) => Ok(id),
        Err(AuthError::InvalidCredentials) => Err(LoginError::AuthError),
        Err(AuthError::UnexpectedError) => Err(LoginError::UnexpectedError),
    }
}

} // verus!
