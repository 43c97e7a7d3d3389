use zero2prod::domain::Subscriber;
use zero2prod::secret::SecretString;
use zero2prod::store::SubscriberStatus;
use zero2prod::store::SubscriberStore;
use zero2prod::token::SUBSCRIPTION_TOKEN_LENGTH;
use zero2prod::token::generate_subscription_token;
use zero2prod::token::token_has_valid_shape;

fn a_subscriber(name: &str, email: &str) -> Subscriber {
    Subscriber::parse(name.to_string(), email.to_string()).ok().expect("invalid test data")
}

#[test]
fn inserting_the_same_email_twice_is_refused() {
    let mut store = SubscriberStore::new();
    let jon = a_subscriber("Jon Doe", "jondoe@email.com");
    assert!(store.insert_subscriber(&jon).is_ok());
    let again = a_subscriber("Jon Doe", "jondoe@email.com");
    assert!(store.insert_subscriber(&again).is_err());
    assert_eq!(store.subscriber_count(), 1);
}

#[test]
fn a_token_needs_an_existing_subscriber() {
    let mut store = SubscriberStore::new();
    assert!(store.store_token(7, "aaaaaaaaaaaaaaaaaaaaaaaaa").is_err());
    assert_eq!(store.token_count(), 0);
}

#[test]
fn a_subscriber_holds_at_most_one_token() {
    let mut store = SubscriberStore::new();
    let jon = a_subscriber("Jon Doe", "jondoe@email.com");
    let id = store.insert_subscriber(&jon).ok().expect("insert failed");
    assert!(store.store_token(id, "aaaaaaaaaaaaaaaaaaaaaaaaa").is_ok());
    assert!(store.store_token(id, "bbbbbbbbbbbbbbbbbbbbbbbbb").is_err());
    assert_eq!(store.token_count(), 1);
}

#[test]
fn a_token_string_is_unique() {
    let mut store = SubscriberStore::new();
    let jon = a_subscriber("Jon Doe", "jondoe@email.com");
    let jane = a_subscriber("Jane Doe", "jane@email.com");
    let first = store.insert_subscriber(&jon).ok().expect("insert failed");
    let second = store.insert_subscriber(&jane).ok().expect("insert failed");
    assert!(store.store_token(first, "aaaaaaaaaaaaaaaaaaaaaaaaa").is_ok());
    assert!(store.store_token(second, "aaaaaaaaaaaaaaaaaaaaaaaaa").is_err());
}

#[test]
fn the_transaction_is_all_or_nothing() {
    let mut store = SubscriberStore::new();
    let jon = a_subscriber("Jon Doe", "jondoe@email.com");
    let id = store.insert_subscriber(&jon).ok().expect("insert failed");
    store.store_token(id, "aaaaaaaaaaaaaaaaaaaaaaaaa").ok().expect("token refused");
    // A colliding token string rolls the whole write back.
    let jane = a_subscriber("Jane Doe", "jane@email.com");
    assert!(store.subscribe_transaction(&jane, "aaaaaaaaaaaaaaaaaaaaaaaaa").is_err());
    assert_eq!(store.subscriber_count(), 1);
    assert_eq!(store.token_count(), 1);
    assert!(store.get_subscriber_id_from_email("jane@email.com").is_none());
}

#[test]
fn confirming_an_unknown_id_changes_nothing() {
    let mut store = SubscriberStore::new();
    let jon = a_subscriber("Jon Doe", "jondoe@email.com");
    let id = store.insert_subscriber(&jon).ok().expect("insert failed");
    store.confirm_subscriber(id + 41);
    assert_eq!(store.subscriber_status(id), Some(SubscriberStatus::PendingConfirmation));
}

#[test]
fn lookups_find_what_was_stored() {
    let mut store = SubscriberStore::new();
    let jon = a_subscriber("Jon Doe", "jondoe@email.com");
    let id = store.insert_subscriber(&jon).ok().expect("insert failed");
    store.store_token(id, "ccccccccccccccccccccccccc").ok().expect("token refused");
    assert_eq!(store.get_subscriber_id_from_email("jondoe@email.com"), Some(id));
    assert_eq!(store.get_subscriber_id_from_email("other@email.com"), None);
    assert_eq!(store.get_subscriber_id_from_token("ccccccccccccccccccccccccc"), Some(id));
    assert_eq!(store.get_subscriber_id_from_token("ddddddddddddddddddddddddd"), None);
    assert_eq!(
        store.get_subscription_token_from_id(id),
        Some("ccccccccccccccccccccccccc".to_string()),
    );
}

#[test]
fn stored_credentials_come_back_as_stored() {
    let mut store = SubscriberStore::new();
    let user_id = store
        .seed_credential("operator".to_string(), SecretString::new("a-phc-string".to_string()))
        .ok()
        .expect("seeding failed");
    let (found_id, hash) = store.get_stored_credentials("operator").expect("user not found");
    assert_eq!(found_id, user_id);
    assert_eq!(hash.expose_secret(), "a-phc-string");
    assert!(store.get_stored_credentials("nobody").is_none());
}

#[test]
fn a_username_is_unique() {
    let mut store = SubscriberStore::new();
    store
        .seed_credential("operator".to_string(), SecretString::new("hash-one".to_string()))
        .ok()
        .expect("seeding failed");
    assert!(
        store
            .seed_credential("operator".to_string(), SecretString::new("hash-two".to_string()))
            .is_err()
    );
}

#[test]
fn generated_tokens_are_25_alphanumeric_characters() {
    let token = generate_subscription_token();
    assert_eq!(token.chars().count(), SUBSCRIPTION_TOKEN_LENGTH);
    assert!(token.chars().all(|c| c.is_ascii_alphanumeric()));
    assert!(token_has_valid_shape(token.as_str()));
    // Two draws almost surely differ; equality would mean the source
    // is not random at all.
    let other = generate_subscription_token();
    assert_ne!(token, other);
}

#[test]
fn the_shape_check_rejects_what_is_not_a_token() {
    let just_right: String = std::iter::repeat('a').take(25).collect();
    let too_long: String = std::iter::repeat('a').take(26).collect();
    let bad_character: String = format!("{}!", std::iter::repeat('a').take(24).collect::<String>());
    assert!(!token_has_valid_shape(""));
    assert!(!token_has_valid_shape("too-short"));
    assert!(!token_has_valid_shape(bad_character.as_str()));
    assert!(token_has_valid_shape(just_right.as_str()));
    assert!(!token_has_valid_shape(too_long.as_str()));
}
