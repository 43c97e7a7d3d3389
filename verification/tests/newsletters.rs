use argon2::Argon2;
use argon2::password_hash::PasswordHasher;
use argon2::password_hash::SaltString;
use base64::Engine;

use zero2prod::newsletters::BodyData;
use zero2prod::newsletters::Content;
use zero2prod::newsletters::PublishError;
use zero2prod::newsletters::publish_newsletter;
use zero2prod::secret::SecretString;
use zero2prod::store::SubscriberStatus;
use zero2prod::store::SubscriberStore;

fn newsletter_body() -> BodyData {
    BodyData {
        title: "Newsletter Title".to_string(),
        content: Content {
            text: "Newsletter body as plain text".to_string(),
            html: "<p> Newsletter body as HTML </p>".to_string(),
        },
    }
}

fn phc_hash_of(password: &str) -> String {
    let salt = SaltString::from_b64("YWJjZGVmZ2hpamtsbW5vcA").expect("bad salt literal");
    Argon2::default()
        .hash_password(password.as_bytes(), &salt)
        .expect("hashing failed")
        .to_string()
}

fn seed_user(store: &mut SubscriberStore, username: &str, password: &str) {
    let hash = SecretString::new(phc_hash_of(password));
    store.seed_credential(username.to_string(), hash).ok().expect("seeding the user failed");
}

fn auth_header(username: &str, password: &str) -> String {
    let encoded = base64::engine::general_purpose::STANDARD
        .encode(format!("{}:{}", username, password));
    format!("Basic {}", encoded)
}

fn seed_subscriber(store: &mut SubscriberStore, email: &str, status: SubscriberStatus) {
    store
        .seed_subscriber(email.to_string(), "A Subscriber".to_string(), status)
        .ok()
        .expect("seeding the subscriber failed");
}

#[test]
fn newsletter_are_not_delivered_to_unconfirmed_subscribers() {
    let mut store = SubscriberStore::new();
    seed_user(&mut store, "operator", "hunter2hunter2");
    seed_subscriber(&mut store, "pending@email.com", SubscriberStatus::PendingConfirmation);
    let header = auth_header("operator", "hunter2hunter2");
    let plan = publish_newsletter(&store, &newsletter_body(), Some(header.as_str()))
        .ok()
        .expect("publish refused valid credentials");
    assert_eq!(plan.len(), 0);
}

#[test]
fn newsletters_are_delivered_to_confirmed_subscribers() {
    let mut store = SubscriberStore::new();
    seed_user(&mut store, "operator", "hunter2hunter2");
    seed_subscriber(&mut store, "confirmed@email.com", SubscriberStatus::Confirmed);
    let header = auth_header("operator", "hunter2hunter2");
    let plan = publish_newsletter(&store, &newsletter_body(), Some(header.as_str()))
        .ok()
        .expect("publish refused valid credentials");
    assert_eq!(plan.len(), 1);
    assert_eq!(plan[0].recipient.as_ref(), "confirmed@email.com");
    assert_eq!(plan[0].subject, "Newsletter Title");
    assert_eq!(plan[0].text_body, "Newsletter body as plain text");
    assert_eq!(plan[0].html_body, "<p> Newsletter body as HTML </p>");
}

#[test]
fn requests_without_authorization_header_are_rejected() {
    let store = SubscriberStore::new();
    let outcome = publish_newsletter(&store, &newsletter_body(), None);
    let error = match outcome {
        Err(error) => error,
        Ok(_) => panic!("a request without credentials was accepted"),
    };
    assert!(matches!(error, PublishError::AuthError(_)));
    let (status, challenge) = error.error_response();
    assert_eq!(status, 401);
    let (header_name, header_value) = challenge.expect("no challenge header");
    assert_eq!(header_name, "WWW-Authenticate");
    assert_eq!(header_value, r#"Basic realm="publish""#);
}

#[test]
fn non_existing_user_is_rejected() {
    let store = SubscriberStore::new();
    let header = auth_header("nobody", "whatever-password");
    let outcome = publish_newsletter(&store, &newsletter_body(), Some(header.as_str()));
    let error = match outcome {
        Err(error) => error,
        Ok(_) => panic!("an unknown user was accepted"),
    };
    assert!(matches!(error, PublishError::AuthError(_)));
    let (status, challenge) = error.error_response();
    assert_eq!(status, 401);
    let (header_name, header_value) = challenge.expect("no challenge header");
    assert_eq!(header_name, "WWW-Authenticate");
    assert_eq!(header_value, r#"Basic realm="publish""#);
}

#[test]
fn invalid_password_is_rejected() {
    let mut store = SubscriberStore::new();
    seed_user(&mut store, "operator", "the-right-password");
    let header = auth_header("operator", "the-wrong-password");
    let outcome = publish_newsletter(&store, &newsletter_body(), Some(header.as_str()));
    let error = match outcome {
        Err(error) => error,
        Ok(_) => panic!("a wrong password was accepted"),
    };
    assert!(matches!(error, PublishError::AuthError(_)));
    let (status, challenge) = error.error_response();
    assert_eq!(status, 401);
    let (header_name, header_value) = challenge.expect("no challenge header");
    assert_eq!(header_name, "WWW-Authenticate");
    assert_eq!(header_value, r#"Basic realm="publish""#);
}

#[test]
fn only_the_confirmed_subscriber_is_planned() {
    let mut store = SubscriberStore::new();
    seed_user(&mut store, "operator", "hunter2hunter2");
    seed_subscriber(&mut store, "a@email.com", SubscriberStatus::Confirmed);
    seed_subscriber(&mut store, "b@email.com", SubscriberStatus::PendingConfirmation);
    let header = auth_header("operator", "hunter2hunter2");
    let plan = publish_newsletter(&store, &newsletter_body(), Some(header.as_str()))
        .ok()
        .expect("publish refused valid credentials");
    assert_eq!(plan.len(), 1);
    assert_eq!(plan[0].recipient.as_ref(), "a@email.com");
}

#[test]
fn a_malformed_stored_email_is_skipped() {
    let mut store = SubscriberStore::new();
    seed_user(&mut store, "operator", "hunter2hunter2");
    seed_subscriber(&mut store, "broken-email-without-at", SubscriberStatus::Confirmed);
    seed_subscriber(&mut store, "fine@email.com", SubscriberStatus::Confirmed);
    let header = auth_header("operator", "hunter2hunter2");
    let plan = publish_newsletter(&store, &newsletter_body(), Some(header.as_str()))
        .ok()
        .expect("publish refused valid credentials");
    assert_eq!(plan.len(), 1);
    assert_eq!(plan[0].recipient.as_ref(), "fine@email.com");
}

#[test]
fn an_empty_confirmed_list_is_a_successful_no_op() {
    let mut store = SubscriberStore::new();
    seed_user(&mut store, "operator", "hunter2hunter2");
    let header = auth_header("operator", "hunter2hunter2");
    let plan = publish_newsletter(&store, &newsletter_body(), Some(header.as_str()))
        .ok()
        .expect("publish refused valid credentials");
    assert!(plan.is_empty());
}

#[test]
fn a_non_basic_scheme_is_rejected() {
    let store = SubscriberStore::new();
    let outcome = publish_newsletter(&store, &newsletter_body(), Some("Bearer abcdef"));
    assert!(matches!(outcome, Err(PublishError::AuthError(_))));
}

#[test]
fn garbage_base64_credentials_are_rejected() {
    let store = SubscriberStore::new();
    let outcome = publish_newsletter(&store, &newsletter_body(), Some("Basic !!!not-base64!!!"));
    assert!(matches!(outcome, Err(PublishError::AuthError(_))));
}

#[test]
fn credentials_without_a_colon_are_rejected() {
    let store = SubscriberStore::new();
    let encoded = base64::engine::general_purpose::STANDARD.encode("no-colon-here");
    let header = format!("Basic {}", encoded);
    let outcome = publish_newsletter(&store, &newsletter_body(), Some(header.as_str()));
    assert!(matches!(outcome, Err(PublishError::AuthError(_))));
}

#[test]
fn credentials_that_are_not_utf8_are_rejected() {
    let store = SubscriberStore::new();
    let encoded = base64::engine::general_purpose::STANDARD.encode([0xffu8, 0xfe, 0xfd]);
    let header = format!("Basic {}", encoded);
    let outcome = publish_newsletter(&store, &newsletter_body(), Some(header.as_str()));
    assert!(matches!(outcome, Err(PublishError::AuthError(_))));
}
