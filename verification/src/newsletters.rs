//! The newsletter dispatcher: authenticates the caller through HTTP
//! Basic credentials, loads the confirmed subscribers, and plans one
//! email per deliverable recipient.
//!
//! A confirmed row whose stored email no longer parses is skipped, so
//! legacy data never aborts a batch; the remaining recipients are kept
//! in table order. The caller performs the planned sends one at a time
//! and stops at the first transport failure, surfacing it as an
//! internal error; recipients already served are not retried.

use vstd::prelude::*;

use base64::Engine;

use crate::authentication::AuthError;
use crate::authentication::Credentials;
use crate::authentication::credentials_valid;
use crate::authentication::password_matches;
use crate::authentication::phc_parses;
use crate::authentication::validate_credentials;
use crate::domain::valid_email;
use crate::email::EmailInstruction;
use crate::secret::SecretString;
use crate::store::StoreView;
use crate::store::SubscriberRec;
use crate::store::SubscriberStore;
use crate::store::confirmed_of;

verus! {

/// The JSON body of a publish request.
pub struct Content {
    pub html: String,
    pub text: String,
}

pub struct BodyData {
    pub title: String,
    pub content: Content,
}

/// Why a publish request was refused: the caller could not be
/// authenticated, or the operation could not be carried out. The
/// authentication variant never says what went wrong.
pub enum PublishError {
    UnexpectedError(String),
    AuthError(String),
}

impl PublishError {
    /// The HTTP reply the boundary builds from this error: status, and
    /// for an authentication failure the exact challenge header
    /// `WWW-Authenticate: Basic realm="publish"`.
    pub fn error_response(&self) -> (r: (u16, Option<(String, String)>))
        ensures
            self is UnexpectedError ==> r.0 == 500 && r.1 is None,
            self is AuthError ==> r.0 == 401 && (r.1 matches Some(h) && h.0@ == "WWW-Authenticate"@
                && h.1@ == "Basic realm=\"publish\""@),
    {
        match self {
            PublishError::UnexpectedError(_) => (500, None),
            PublishError::AuthError(_) => (
                401,
                Some(
                    (
                        String::from_str("WWW-Authenticate"),
                        String::from_str("Basic realm=\"publish\""),
                    ),
                ),
            ),
        }
    }
}

/// What the base64 standard engine decodes a string to: a function of
/// the string alone.
pub uninterp spec fn base64_standard_decode(s: Seq<char>) -> Option<Seq<u8>>;

/// What a byte string decodes to as UTF-8, when it is valid UTF-8: a
/// function of the bytes alone.
pub uninterp spec fn utf8_decode(bytes: Seq<u8>) -> Option<Seq<char>>;

/// The header value opens with the `Basic ` scheme tag.
pub open spec fn has_basic_prefix(h: Seq<char>) -> bool {
    &&& h.len() >= 6
    &&& h[0] == 'B'
    &&& h[1] == 'a'
    &&& h[2] == 's'
    &&& h[3] == 'i'
    &&& h[4] == 'c'
    &&& h[5] == ' '
}

pub open spec fn is_first_colon(s: Seq<char>, i: int) -> bool {
    &&& 0 <= i < s.len()
    &&& s[i] == ':'
    &&& (forall|j: int| 0 <= j < i ==> s[j] != ':')
}

/// Username and password: what stands before the first colon, and
/// everything after it. No colon means no password was provided.
pub open spec fn split_at_first_colon(s: Seq<char>) -> Option<(Seq<char>, Seq<char>)> {
    if exists|i: int| is_first_colon(s, i) {
        let i = choose|i: int| is_first_colon(s, i);
        Some((s.take(i), s.skip(i + 1)))
    } else {
        None
    }
}

/// The credentials an Authorization header value carries: the `Basic `
/// tag, then base64, then UTF-8, then the colon split.
pub open spec fn parsed_basic_credentials(header: Seq<char>) -> Option<(Seq<char>, Seq<char>)> {
    if has_basic_prefix(header) {
        match base64_standard_decode(header.skip(6)) {
            Some(bytes) => match utf8_decode(bytes) {
                Some(decoded) => split_at_first_colon(decoded),
                None => None,
            },
            None => None,
        }
    } else {
        None
    }
}

/// Relies on base64's `STANDARD` engine: what a string decodes to
/// depends on the string alone.
#[verifier::external_body]
fn b64_decode(encoded: &str) -> (r: Option<Vec<u8>>)
    ensures
        r is Some <==> base64_standard_decode(encoded@) is Some,
        r matches Some(bytes) ==> base64_standard_decode(encoded@) == Some(bytes@),
{
    match base64::engine::general_purpose::STANDARD.decode(encoded) {
        Ok(bytes) => Some(bytes),
        Err(_) => None,
    }
}

/// Relies on std's `String::from_utf8`: it succeeds exactly on valid
/// UTF-8, and what the bytes decode to depends on the bytes alone.
#[verifier::external_body]
fn bytes_to_utf8_string(bytes: Vec<u8>) -> (r: Option<String>)
    ensures
        r is Some <==> utf8_decode(bytes@) is Some,
        r matches Some(s) ==> utf8_decode(bytes@) == Some(s@),
{
    match String::from_utf8(bytes) {
        Ok(s) => Some(s),
        Err(_) => None,
    }
}

/// The credentials carried by a request: none when the header is
/// missing or does not parse.
pub open spec fn credentials_in_header(header: Option<&str>) -> Option<(Seq<char>, Seq<char>)> {
    match header {
        Some(h) => parsed_basic_credentials(h@),
        None => None,
    }
}

/// Reads HTTP Basic credentials out of an Authorization header value.
/// Every refusal — missing header, wrong scheme, bad base64, bad
/// UTF-8, no colon — is reported the same way, as a message for the
/// diagnostics only.
pub fn basic_authentication(authorization_header: Option<&str>) -> (r: Result<Credentials, String>)
    ensures
        r is Ok <==> credentials_in_header(authorization_header) is Some,
        credentials_in_header(authorization_header) is Some ==> (r matches Ok(c) && c.username@
            == credentials_in_header(authorization_header).unwrap().0 && c.password@
            == credentials_in_header(authorization_header).unwrap().1),
{
    let header = match authorization_header {
        Some(h) => h,
        None => {
            return Err(String::from_str("the Authorization header was missing"));
        },
    };
    let n = header.unicode_len();
    if n < 6 || header.get_char(0) != 'B' || header.get_char(1) != 'a' || header.get_char(2) != 's'
        || header.get_char(3) != 'i' || header.get_char(4) != 'c' || header.get_char(5) != ' ' {
        return Err(String::from_str("the authorization scheme was not Basic"));
    }
    let encoded = header.substring_char(6, n);
    proof {
        assert(encoded@ =~= header@.skip(6));
    }
    let bytes = match b64_decode(encoded) {
        Some(bytes) => bytes,
        None => {
            return Err(String::from_str("the Basic credentials were not valid base64"));
        },
    };
    let decoded = match bytes_to_utf8_string(bytes) {
        Some(decoded) => decoded,
        None => {
            return Err(String::from_str("the decoded credentials were not valid UTF-8"));
        },
    };
    proof {
        assert(credentials_in_header(authorization_header) == split_at_first_colon(decoded@));
    }
    let m = decoded.as_str().unicode_len();
    let mut i: usize = 0;
    while i < m
        invariant
            i <= m,
            m == decoded@.len(),
            credentials_in_header(authorization_header) == split_at_first_colon(decoded@),
            forall|j: int| 0 <= j < i ==> decoded@[j] != ':',
        decreases m - i,
    {
        if decoded.as_str().get_char(i) == ':' {
            let username = decoded.as_str().substring_char(0, i).to_owned();
            let password = SecretString::new(decoded.as_str().substring_char(i + 1, m).to_owned());
            proof {
                assert(is_first_colon(decoded@, i as int));
                let k = choose|k: int| is_first_colon(decoded@, k);
                assert(k == i) by {
                    if k < i {
                        assert(decoded@[k] != ':');
                    }
                    if k > i {
                        assert(decoded@[i as int] != ':');
                    }
                }
                assert(username@ =~= decoded@.take(i as int));
                assert(password@ =~= decoded@.skip(i as int + 1));
            }
            return Ok(Credentials { username, password });
        }
        i += 1;
    }
    proof {
        assert(!(exists|k: int| is_first_colon(decoded@, k))) by {
            if exists|k: int| is_first_colon(decoded@, k) {
                let k = choose|k: int| is_first_colon(decoded@, k);
                assert(decoded@[k] != ':');
            }
        }
    }
    Err(String::from_str("the Basic credentials held no password"))
}

/// The emails a newsletter run delivers to: the confirmed rows whose
/// stored address still parses, in table order.
pub open spec fn valid_rows_of(t: Seq<SubscriberRec>) -> Seq<Seq<char>>
    decreases t.len(),
{
    if t.len() == 0 {
        Seq::empty()
    } else {
        let rest = valid_rows_of(t.drop_last());
        if valid_email(t.last().email) {
            rest.push(t.last().email)
        } else {
            rest
        }
    }
}

pub open spec fn deliverable_emails(s: StoreView) -> Seq<Seq<char>> {
    valid_rows_of(confirmed_of(s.subscribers))
}

/// The planned email carries this recipient and the request's title
/// and bodies.
pub open spec fn newsletter_instruction_is(
    ins: EmailInstruction,
    recipient: Seq<char>,
    body: BodyData,
) -> bool {
    &&& ins.recipient@ == recipient
    &&& ins.subject@ == body.title@
    &&& ins.text_body@ == body.content.text@
    &&& ins.html_body@ == body.content.html@
}

/// The plan is one email per deliverable recipient, in order.
pub open spec fn newsletter_plan_matches(
    plan: Seq<EmailInstruction>,
    s: StoreView,
    body: BodyData,
) -> bool {
    &&& plan.len() == deliverable_emails(s).len()
    &&& (forall|i: int|
        0 <= i < plan.len() ==> newsletter_instruction_is(
            #[trigger] plan[i],
            deliverable_emails(s)[i],
            body,
        ))
}

/// Plans a newsletter run.
///
/// Authentication comes first and short-circuits: a missing or
/// malformed header, an unknown username and a wrong password all fail
/// as the same opaque authentication error, while a stored hash that
/// cannot be used is an internal fault. An authenticated caller gets
/// the full plan — one email per confirmed, still-parseable recipient,
/// in table order; an empty plan is a valid, successful no-op run.
pub fn publish_newsletter(
    store: &SubscriberStore,
    body: &BodyData,
    authorization_header: Option<&str>,
) -> (r: Result<Vec<EmailInstruction>, PublishError>)
    requires
        store@.wf(),
    ensures
        credentials_in_header(authorization_header) is None ==> (r matches Err(e) && e
            is AuthError),
        credentials_in_header(authorization_header) is Some ==> ({
            let username = credentials_in_header(authorization_header).unwrap().0;
            let password = credentials_in_header(authorization_header).unwrap().1;
            &&& (!store@.has_user(username) ==> (r matches Err(e) && e is AuthError))
            &&& (store@.has_user(username) && !phc_parses(
                store@.credential_for_username(username).password_hash,
            ) ==> (r matches Err(e) && e is UnexpectedError))
            &&& (store@.has_user(username) && phc_parses(
                store@.credential_for_username(username).password_hash,
            ) && !password_matches(
                store@.credential_for_username(username).password_hash,
                password,
            ) ==> (r matches Err(e) && e is AuthError))
            &&& (credentials_valid(store@, username, password) ==> (r matches Ok(plan)
                && newsletter_plan_matches(plan@, store@, *body)))
        }),
{
    let credentials = match basic_authentication(authorization_header) {
        Ok(credentials) => credentials,
        Err(_) => {
            return Err(PublishError::AuthError(String::from_str("authentication failed")));
        },
    };
    match validate_credentials(credentials, store) {
        Ok(_) => {},
        Err(AuthError::InvalidCredentials) => {
            return Err(PublishError::AuthError(String::from_str("authentication failed")));
        },
        Err(AuthError::UnexpectedError) => {
            return Err(
                PublishError::UnexpectedError(
                    String::from_str("the stored credentials could not be used"),
                ),
            );
        },
    }
    let rows = store.get_confirmed_subscribers();
    let ghost confirmed = store@.confirmed_subscribers();
    let mut plan: Vec<EmailInstruction> = Vec::new();
    let row_count = rows.len();
    let mut k: usize = 0;
    while k < row_count
        invariant
            k <= row_count,
            row_count == rows@.len(),
            rows@.len() == confirmed.len(),
            forall|i: int|
                0 <= i < rows@.len() ==> (#[trigger] rows@[i] is Ok <==> valid_email(
                    confirmed[i].email,
                )),
            forall|i: int|
                0 <= i < rows@.len() ==> (#[trigger] rows@[i] matches Ok(cs) ==> cs.email@
                    == confirmed[i].email),
            plan@.len() == valid_rows_of(confirmed.take(k as int)).len(),
            forall|i: int|
                0 <= i < plan@.len() ==> newsletter_instruction_is(
                    #[trigger] plan@[i],
                    valid_rows_of(confirmed.take(k as int))[i],
                    *body,
                ),
        decreases row_count - k,
    {
        proof {
            assert(confirmed.take(k + 1).drop_last() =~= confirmed.take(k as int));
            assert(confirmed.take(k + 1).last() == confirmed[k as int]);
        }
        match &rows[k] {
            Ok(row) => {
                plan.push(
                    EmailInstruction {
                        recipient: row.email.duplicate(),
                        subject: body.title.clone(),
                        text_body: body.content.text.clone(),
                        html_body: body.content.html.clone(),
                    },
                );
            },
            Err(_) => {
                // A confirmed row whose stored address no longer parses
                // is skipped; the batch goes on.
            },
        }
        k += 1;
    }
    proof {
        assert(confirmed.take(row_count as int) =~= confirmed);
    }
    Ok(plan)
}

} // verus!
