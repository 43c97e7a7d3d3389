//! The confirmation service: validates a confirmation token and moves
//! the owning subscriber to confirmed.
//!
//! A token that is malformed or unknown is treated the same way —
//! unauthorized — so the reply never hints at which tokens exist. The
//! status update itself is unconditional, which makes confirming twice
//! indistinguishable from confirming once.

use vstd::prelude::*;

use crate::domain::valid_email;
use crate::domain::valid_subscriber_name;
use crate::email::EmailInstruction;
use crate::store::StoreView;
use crate::store::SubscriberStatus;
use crate::store::SubscriberStore;
use crate::store::lemma_wf_after_confirm;
use crate::store::lemma_wf_after_new_subscriber;
use crate::store::lemma_wf_after_new_token;
use crate::subscriptions::SubscribeError;
use crate::subscriptions::subscribe_fresh_outcome;
use crate::token::token_has_valid_shape;
use crate::token::valid_token;

verus! {

/// The query parameters of a confirmation request.
pub struct Parameters {
    pub subscription_token: String,
}

/// How a confirmation request ends at the HTTP boundary.
#[derive(Clone, Copy, PartialEq, Eq, Structural, Debug)]
pub enum ConfirmOutcome {
    Success,
    Unauthorized,
}

/// Confirms a pending subscription.
///
/// The token's shape is checked before any storage access; a malformed
/// or unknown token is unauthorized and mutates nothing. A known token
/// marks its subscriber confirmed, whatever the status was before.
pub fn confirm(store: &mut SubscriberStore, parameters: &Parameters) -> (r: ConfirmOutcome)
    requires
        old(store)@.wf(),
    ensures
        final(store)@.wf(),
        valid_token(parameters.subscription_token@) && old(store)@.has_token(
            parameters.subscription_token@,
        ) ==> r == ConfirmOutcome::Success && final(store)@ == old(store)@.with_subscriber_confirmed(
            old(store)@.token_rec(parameters.subscription_token@).subscriber_id,
        ),
        !(valid_token(parameters.subscription_token@) && old(store)@.has_token(
            parameters.subscription_token@,
        )) ==> r == ConfirmOutcome::Unauthorized && final(store)@ == old(store)@,
{
    if !token_has_valid_shape(parameters.subscription_token.as_str()) {
        return ConfirmOutcome::Unauthorized;
    }
    match store.get_subscriber_id_from_token(parameters.subscription_token.as_str()) {
        None => ConfirmOutcome::Unauthorized,
        Some(subscriber_id) => {
            store.confirm_subscriber(subscriber_id);
            ConfirmOutcome::Success
        },
    }
}

/// The round trip behind the confirmation link: the token a fresh
/// submission stores is known to the store, bound to the one subscriber
/// that submission created in pending confirmation, and confirming it
/// moves exactly that subscriber to confirmed.
pub proof fn lemma_submitted_token_confirms_the_new_subscriber(
    pre: StoreView,
    post: StoreView,
    r: Result<EmailInstruction, SubscribeError>,
    name: Seq<char>,
    email: Seq<char>,
    base_url: Seq<char>,
    token: Seq<char>,
)
    requires
        pre.wf(),
        pre.next_id < u64::MAX,
        valid_subscriber_name(name),
        valid_email(email),
        valid_token(token),
        !pre.has_subscriber_with_email(email),
        !pre.has_token(token),
        subscribe_fresh_outcome(pre, post, r, name, email, base_url, token),
    ensures
        post.wf(),
        post.has_token(token),
        post.token_rec(token).subscriber_id == pre.next_id,
        post.has_subscriber_with_id(pre.next_id),
        post.subscriber_for_id(pre.next_id).email == email,
        post.subscriber_for_id(pre.next_id).status == SubscriberStatus::PendingConfirmation,
        post.with_subscriber_confirmed(pre.next_id).subscriber_for_id(pre.next_id).status
            == SubscriberStatus::Confirmed,
{
    let mid = pre.with_new_subscriber(name, email, SubscriberStatus::PendingConfirmation);
    lemma_wf_after_new_subscriber(pre, name, email, SubscriberStatus::PendingConfirmation);
    assert(mid.has_subscriber_with_id(pre.next_id)) by {
        assert(mid.subscribers[mid.subscribers.len() - 1].id == pre.next_id);
    }
    assert(!mid.has_token(token)) by {
        if mid.has_token(token) {
            let k = choose|k: int|
                0 <= k < mid.tokens.len() && #[trigger] mid.tokens[k].subscription_token == token;
            assert(pre.tokens[k].subscription_token == token);
            assert(pre.has_token(token));
        }
    }
    pre.lemma_no_token_for_fresh_id();
    assert(!mid.has_token_for_subscriber(pre.next_id)) by {
        if mid.has_token_for_subscriber(pre.next_id) {
            let k = choose|k: int|
                0 <= k < mid.tokens.len() && #[trigger] mid.tokens[k].subscriber_id == pre.next_id;
            assert(pre.tokens[k].subscriber_id == pre.next_id);
            assert(pre.has_token_for_subscriber(pre.next_id));
        }
    }
    lemma_wf_after_new_token(mid, pre.next_id, token);
    let ti = post.tokens.len() - 1;
    assert(post.tokens[ti].subscription_token == token);
    post.lemma_token_rec(token, ti);
    let si = post.subscribers.len() - 1;
    assert(post.subscribers[si].id == pre.next_id);
    post.lemma_subscriber_for_id(pre.next_id, si);
    let once = post.with_subscriber_confirmed(pre.next_id);
    lemma_wf_after_confirm(post, pre.next_id);
    assert(once.subscribers[si].id == pre.next_id && once.subscribers[si].status
        == SubscriberStatus::Confirmed);
    once.lemma_subscriber_for_id(pre.next_id, si);
}

/// Confirming the same token twice reports success both times and
/// leaves the same store as confirming it once: the second update
/// finds the subscriber already confirmed and changes nothing.
pub proof fn lemma_confirm_idempotent(s: StoreView, token: Seq<char>)
    requires
        s.wf(),
        valid_token(token),
        s.has_token(token),
    ensures
        ({
            let id = s.token_rec(token).subscriber_id;
            let once = s.with_subscriber_confirmed(id);
            &&& once.wf()
            &&& once.has_token(token)
            &&& once.token_rec(token) == s.token_rec(token)
            &&& once.with_subscriber_confirmed(id) == once
            &&& (s.has_subscriber_with_id(id) ==> once.subscriber_for_id(id).status
                == SubscriberStatus::Confirmed)
        }),
{
    let id = s.token_rec(token).subscriber_id;
    let once = s.with_subscriber_confirmed(id);
    crate::store::lemma_wf_after_confirm(s, id);
    let i = choose|i: int|
        0 <= i < s.tokens.len() && #[trigger] s.tokens[i].subscription_token == token;
    assert(once.tokens[i] == s.tokens[i]);
    once.lemma_token_rec(token, i);
    s.lemma_token_rec(token, i);
    assert(once.with_subscriber_confirmed(id) =~~= once);
    if s.has_subscriber_with_id(id) {
        let j = choose|j: int| 0 <= j < s.subscribers.len() && #[trigger] s.subscribers[j].id == id;
        assert(once.subscribers[j].id == id && once.subscribers[j].status
            == SubscriberStatus::Confirmed);
        once.lemma_subscriber_for_id(id, j);
    }
}

} // verus!
