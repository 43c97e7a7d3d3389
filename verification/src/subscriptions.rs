//! The subscription service: accepts a request, deduplicates by email,
//! persists a new subscriber and token atomically, and prepares the
//! confirmation email.
//!
//! A request for an email already enrolled writes nothing and re-sends
//! the confirmation email with the stored token — resubmission is
//! idempotent at the storage level, while every call triggers one more
//! send. The caller performs the prepared send and maps a transport
//! failure to an internal error; the rows stay persisted either way.

use vstd::prelude::*;

use crate::domain::Subscriber;
use crate::domain::valid_email;
use crate::domain::valid_subscriber_name;
use crate::email::EmailInstruction;
use crate::store::StoreView;
use crate::store::SubscriberStatus;
use crate::store::SubscriberStore;
use crate::token::generate_subscription_token;
use crate::token::valid_token;

verus! {

/// Why a submission was refused: the client's input was malformed, or
/// the operation could not be carried out.
pub enum SubscribeError {
    ValidationError(String),
    UnexpectedError(String),
}

impl SubscribeError {
    /// The HTTP status the boundary maps this error to.
    pub fn status_code(&self) -> (r: u16)
        ensures
            self is ValidationError ==> r == 400,
            self is UnexpectedError ==> r == 500,
    {
        match self {
            SubscribeError::ValidationError(_) => 400,
            SubscribeError::UnexpectedError(_) => 500,
        }
    }
}

/// The confirmation link a subscriber is asked to visit.
pub open spec fn confirmation_link(base_url: Seq<char>, token: Seq<char>) -> Seq<char> {
    base_url + "/subscriptions/confirm?subscription_token="@ + token
}

pub open spec fn confirmation_text_body(link: Seq<char>) -> Seq<char> {
    "Welcome to our newsletter!\nVisit "@ + link + " to confirm subscription"@
}

pub open spec fn confirmation_html_body(link: Seq<char>) -> Seq<char> {
    "Welcome to our newsletter!<br />Click <a href=\""@ + link
        + "\"> here </a> to confirm your subscription."@
}

/// The prepared email is the confirmation email for this recipient,
/// carrying the link built from this base URL and token.
pub open spec fn instruction_is(
    ins: EmailInstruction,
    recipient: Seq<char>,
    base_url: Seq<char>,
    token: Seq<char>,
) -> bool {
    &&& ins.recipient@ == recipient
    &&& ins.subject@ == "Welcome"@
    &&& ins.text_body@ == confirmation_text_body(confirmation_link(base_url, token))
    &&& ins.html_body@ == confirmation_html_body(confirmation_link(base_url, token))
}

/// How `subscribe` ends when the email was never seen: with the fresh
/// token minted for the call, either the token string collides with a
/// stored one and nothing changes, or one subscriber row and one token
/// row appear together and the confirmation email is prepared.
pub open spec fn subscribe_fresh_outcome(
    pre: StoreView,
    post: StoreView,
    r: Result<EmailInstruction, SubscribeError>,
    name: Seq<char>,
    email: Seq<char>,
    base_url: Seq<char>,
    token: Seq<char>,
) -> bool {
    if pre.has_token(token) {
        &&& post == pre
        &&& r matches Err(e) && e is UnexpectedError
    } else {
        &&& post == pre.with_new_subscriber(
            name,
            email,
            SubscriberStatus::PendingConfirmation,
        ).with_new_token(pre.next_id, token)
        &&& r matches Ok(ins) && instruction_is(ins, email, base_url, token)
    }
}

/// How `subscribe` ends when the email is already enrolled: the store
/// is untouched; with a stored token the confirmation email is prepared
/// again around that same token, and a subscriber row that lost its
/// token is an internal inconsistency.
pub open spec fn subscribe_resend_outcome(
    pre: StoreView,
    post: StoreView,
    r: Result<EmailInstruction, SubscribeError>,
    email: Seq<char>,
    base_url: Seq<char>,
) -> bool {
    let sub = pre.subscriber_for_email(email);
    &&& post == pre
    &&& (pre.has_token_for_subscriber(sub.id) ==> (r matches Ok(ins) && instruction_is(
        ins,
        email,
        base_url,
        pre.token_for_subscriber(sub.id).subscription_token,
    )))
    &&& (!pre.has_token_for_subscriber(sub.id) ==> (r matches Err(e) && e is UnexpectedError))
}

/// Prepares the confirmation email: the link
/// `<base_url>/subscriptions/confirm?subscription_token=<token>` and
/// the two bodies around it. The caller hands the result to the
/// gateway.
pub fn send_confirmation_email(subscriber: Subscriber, base_url: &str, confirmation_token: &str) -> (r:
    EmailInstruction)
    ensures
        instruction_is(r, subscriber.email@, base_url@, confirmation_token@),
{
    let mut link = base_url.to_owned();
    link.append("/subscriptions/confirm?subscription_token=");
    link.append(confirmation_token);

    let mut text_body = String::from_str("Welcome to our newsletter!\nVisit ");
    text_body.append(link.as_str());
    text_body.append(" to confirm subscription");

    let mut html_body = String::from_str("Welcome to our newsletter!<br />Click <a href=\"");
    html_body.append(link.as_str());
    html_body.append("\"> here </a> to confirm your subscription.");

    EmailInstruction {
        recipient: subscriber.email,
        subject: String::from_str("Welcome"),
        text_body,
        html_body,
    }
}

/// Accepts a subscription request.
///
/// Input validation comes first: a malformed name or email is refused
/// with no storage access. A known email re-sends the stored token's
/// link without writing. A new email persists one subscriber row in
/// pending confirmation and one token row in a single all-or-nothing
/// write, then prepares the confirmation email.
pub fn subscribe(store: &mut SubscriberStore, base_url: &str, name: String, email: String) -> (r:
    Result<EmailInstruction, SubscribeError>)
    requires
        old(store)@.wf(),
        old(store)@.next_id < u64::MAX,
    ensures
        final(store)@.wf(),
        !(valid_subscriber_name(name@) && valid_email(email@)) ==> final(store)@ == old(store)@ && (
        r matches Err(e) && e is ValidationError),
        valid_subscriber_name(name@) && valid_email(email@) && old(store)@.has_subscriber_with_email(
            email@,
        ) ==> subscribe_resend_outcome(old(store)@, final(store)@, r, email@, base_url@),
        valid_subscriber_name(name@) && valid_email(email@)
            && !old(store)@.has_subscriber_with_email(email@) ==> exists|t: Seq<char>|
            valid_token(t) && subscribe_fresh_outcome(
                old(store)@,
                final(store)@,
                r,
                name@,
                email@,
                base_url@,
                t,
            ),
{
    let subscriber = match Subscriber::parse(name, email) {
        Ok(subscriber) => subscriber,
        Err(message) => {
            return Err(SubscribeError::ValidationError(message));
        },
    };

    if let Some(subscriber_id) = store.get_subscriber_id_from_email(subscriber.email.as_ref()) {
        let subscription_token = match store.get_subscription_token_from_id(subscriber_id) {
            Some(token) => token,
            None => {
                return Err(
                    SubscribeError::UnexpectedError(
                        String::from_str("an enrolled subscriber has no confirmation token"),
                    ),
                );
            },
        };
        return Ok(send_confirmation_email(subscriber, base_url, subscription_token.as_str()));
    }

    let ghost sub_name = subscriber.name@;
    let ghost sub_email = subscriber.email@;
    let subscription_token = generate_subscription_token();
    match store.subscribe_transaction(&subscriber, subscription_token.as_str()) {
        Ok(_) => {},
        Err(_) => {
            let refusal = SubscribeError::UnexpectedError(
                String::from_str("the new subscriber could not be persisted"),
            );
            proof {
                assert(subscribe_fresh_outcome(
                    old(store)@,
                    store@,
                    Err(refusal),
                    sub_name,
                    sub_email,
                    base_url@,
                    subscription_token@,
                ));
            }
            return Err(refusal);
        },
    }
    let instruction = send_confirmation_email(subscriber, base_url, subscription_token.as_str());
    proof {
        assert(subscribe_fresh_outcome(
            old(store)@,
            store@,
            Ok(instruction),
            sub_name,
            sub_email,
            base_url@,
            subscription_token@,
        ));
    }
    Ok(instruction)
}

/// For every valid pair never seen before, one successful submission
/// adds exactly one subscriber row, pending confirmation, and exactly
/// one token row bound to it, and prepares exactly one email carrying
/// that token's link.
pub proof fn lemma_submit_fresh_creates_one(
    pre: StoreView,
    post: StoreView,
    r: Result<EmailInstruction, SubscribeError>,
    name: Seq<char>,
    email: Seq<char>,
    base_url: Seq<char>,
    token: Seq<char>,
)
    requires
        pre.wf(),
        valid_subscriber_name(name),
        valid_email(email),
        !pre.has_subscriber_with_email(email),
        !pre.has_token(token),
        subscribe_fresh_outcome(pre, post, r, name, email, base_url, token),
    ensures
        post.subscribers.len() == pre.subscribers.len() + 1,
        post.tokens.len() == pre.tokens.len() + 1,
        post.subscribers.last().email == email,
        post.subscribers.last().name == name,
        post.subscribers.last().status == SubscriberStatus::PendingConfirmation,
        post.tokens.last().subscriber_id == post.subscribers.last().id,
        post.tokens.last().subscription_token == token,
        r matches Ok(ins) && instruction_is(ins, email, base_url, token),
{
}

/// Submitting twice for an email already enrolled and holding a token
/// never adds or changes a row, and each of the two calls prepares an
/// email carrying the identical confirmation link.
pub proof fn lemma_resubmit_sends_same_link(
    pre: StoreView,
    mid: StoreView,
    post: StoreView,
    r1: Result<EmailInstruction, SubscribeError>,
    r2: Result<EmailInstruction, SubscribeError>,
    email: Seq<char>,
    base_url: Seq<char>,
)
    requires
        pre.wf(),
        pre.has_subscriber_with_email(email),
        pre.has_token_for_subscriber(pre.subscriber_for_email(email).id),
        subscribe_resend_outcome(pre, mid, r1, email, base_url),
        subscribe_resend_outcome(mid, post, r2, email, base_url),
    ensures
        mid == pre,
        post == pre,
        r1 matches Ok(i1) && instruction_is(
            i1,
            email,
            base_url,
            pre.token_for_subscriber(pre.subscriber_for_email(email).id).subscription_token,
        ),
        r2 matches Ok(i2) && instruction_is(
            i2,
            email,
            base_url,
            pre.token_for_subscriber(pre.subscriber_for_email(email).id).subscription_token,
        ),
{
}

} // verus!
