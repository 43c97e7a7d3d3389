use zero2prod::store::SubscriberStatus;
use zero2prod::store::SubscriberStore;
use zero2prod::subscriptions::subscribe;
use zero2prod::subscriptions_confirm::ConfirmOutcome;
use zero2prod::subscriptions_confirm::Parameters;
use zero2prod::subscriptions_confirm::confirm;

const BASE_URL: &str = "https://newsletter.example";

fn subscribe_and_take_token(store: &mut SubscriberStore, name: &str, email: &str) -> String {
    let instruction = subscribe(store, BASE_URL, name.to_string(), email.to_string())
        .ok()
        .expect("subscribe refused valid data");
    let marker = "subscription_token=";
    let body = instruction.text_body;
    let start = body.find(marker).expect("no confirmation link in the body") + marker.len();
    body[start..start + 25].to_string()
}

#[test]
fn the_link_returned_by_subscribe_returns_a_200_if_called() {
    let mut store = SubscriberStore::new();
    let token = subscribe_and_take_token(&mut store, "Jon Doe", "jondoe@email.com");
    let outcome = confirm(&mut store, &Parameters { subscription_token: token });
    assert_eq!(outcome, ConfirmOutcome::Success);
}

#[test]
fn clicking_confirmation_link_set_status_to_confirmed_in_db() {
    let mut store = SubscriberStore::new();
    let token = subscribe_and_take_token(&mut store, "Jon Doe", "jondoe@email.com");
    let outcome = confirm(&mut store, &Parameters { subscription_token: token });
    assert_eq!(outcome, ConfirmOutcome::Success);
    let id = store.get_subscriber_id_from_email("jondoe@email.com").expect("subscriber not saved");
    assert_eq!(store.subscriber_status(id), Some(SubscriberStatus::Confirmed));
}

#[test]
fn an_unknown_token_is_unauthorized_and_mutates_nothing() {
    let mut store = SubscriberStore::new();
    let known = subscribe_and_take_token(&mut store, "Jon Doe", "jondoe@email.com");
    // A well-shaped token that differs from the stored one.
    let mut unknown: String = std::iter::repeat('A').take(25).collect();
    if unknown == known {
        unknown = std::iter::repeat('B').take(25).collect();
    }
    let outcome = confirm(&mut store, &Parameters { subscription_token: unknown });
    assert_eq!(outcome, ConfirmOutcome::Unauthorized);
    assert_eq!(store.subscriber_count(), 1);
    assert_eq!(store.token_count(), 1);
    let id = store.get_subscriber_id_from_email("jondoe@email.com").expect("subscriber not saved");
    assert_eq!(store.subscriber_status(id), Some(SubscriberStatus::PendingConfirmation));
}

#[test]
fn a_malformed_token_is_unauthorized() {
    let mut store = SubscriberStore::new();
    subscribe_and_take_token(&mut store, "Jon Doe", "jondoe@email.com");
    for bad in ["", "short", "thistokenhas25characters!", "aaaaaaaaaaaaaaaaaaaaaaaaaa"] {
        let outcome = confirm(&mut store, &Parameters { subscription_token: bad.to_string() });
        assert_eq!(outcome, ConfirmOutcome::Unauthorized, "token {:?}", bad);
    }
    let id = store.get_subscriber_id_from_email("jondoe@email.com").expect("subscriber not saved");
    assert_eq!(store.subscriber_status(id), Some(SubscriberStatus::PendingConfirmation));
}

#[test]
fn confirming_twice_succeeds_both_times() {
    let mut store = SubscriberStore::new();
    let token = subscribe_and_take_token(&mut store, "Jon Doe", "jondoe@email.com");
    let first = confirm(&mut store, &Parameters { subscription_token: token.clone() });
    let second = confirm(&mut store, &Parameters { subscription_token: token });
    assert_eq!(first, ConfirmOutcome::Success);
    assert_eq!(second, ConfirmOutcome::Success);
    let id = store.get_subscriber_id_from_email("jondoe@email.com").expect("subscriber not saved");
    assert_eq!(store.subscriber_status(id), Some(SubscriberStatus::Confirmed));
}
