//! Confirmation tokens: exactly 25 characters drawn from the
//! alphanumeric alphabet, minted from a cryptographically strong source.

use vstd::prelude::*;

use rand::Rng;

use crate::domain::char_is_alphanumeric;
use crate::domain::is_alphanumeric_char;

verus! {

/// Length of every confirmation token, in characters.
pub const SUBSCRIPTION_TOKEN_LENGTH: usize = 25;

pub open spec fn valid_token(s: Seq<char>) -> bool {
    &&& s.len() == SUBSCRIPTION_TOKEN_LENGTH
    &&& forall|i: int| 0 <= i < s.len() ==> is_alphanumeric_char(#[trigger] s[i])
}

/// Relies on rand's `thread_rng` and its `Alphanumeric` distribution:
/// every sample is documented to be one of `A-Z`, `a-z`, `0-9`, so the
/// collected string is 25 alphanumeric characters. Which ones come back
/// is chance, so nothing more is stated.
#[verifier::external_body]
pub fn generate_subscription_token() -> (r: String)
    ensures
        valid_token(r@),
{
    let mut rng = rand::thread_rng();
    std::iter::repeat_with(|| rng.sample(rand::distributions::Alphanumeric))
        .map(char::from)
        .take(25)
        .collect()
}

/// Accepts exactly the strings shaped like a minted token.
pub fn token_has_valid_shape(token: &str) -> (r: bool)
    ensures
        r == valid_token(token@),
{
    let n = token.unicode_len();
    if n != SUBSCRIPTION_TOKEN_LENGTH {
        return false;
    }
    let mut i: usize = 0;
    while i < n
        invariant
            i <= n,
            n == token@.len(),
            forall|j: int| 0 <= j < i ==> is_alphanumeric_char(#[trigger] token@[j]),
        decreases n - i,
    {
        if !char_is_alphanumeric(token.get_char(i)) {
            return false;
        }
        i += 1;
    }
    true
}

} // verus!
