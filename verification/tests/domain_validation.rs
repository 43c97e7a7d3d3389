use zero2prod::domain::Subscriber;
use zero2prod::domain::SubscriberEmail;
use zero2prod::domain::SubscriberName;

#[test]
fn a_valid_name_is_accepted() {
    let name = SubscriberName::parse("Jon Doe".to_string()).ok().expect("valid name refused");
    assert_eq!(name.as_ref(), "Jon Doe");
}

#[test]
fn an_empty_name_is_rejected() {
    assert!(SubscriberName::parse("".to_string()).is_err());
}

#[test]
fn a_whitespace_only_name_is_rejected() {
    assert!(SubscriberName::parse("   \t\n".to_string()).is_err());
}

#[test]
fn a_256_character_name_is_accepted() {
    let name: String = std::iter::repeat('a').take(256).collect();
    assert!(SubscriberName::parse(name).is_ok());
}

#[test]
fn a_257_character_name_is_rejected() {
    let name: String = std::iter::repeat('a').take(257).collect();
    assert!(SubscriberName::parse(name).is_err());
}

#[test]
fn names_with_disallowed_characters_are_rejected() {
    for c in ['/', '(', ')', '"', '<', '>', '\\', '{', '}'] {
        let name = format!("Jon{}Doe", c);
        assert!(SubscriberName::parse(name).is_err());
    }
}

#[test]
fn a_valid_email_is_accepted() {
    let email = SubscriberEmail::parse("jondoe@email.com".to_string()).ok().expect(
        "valid email refused",
    );
    assert_eq!(email.as_ref(), "jondoe@email.com");
}

#[test]
fn an_empty_email_is_rejected() {
    assert!(SubscriberEmail::parse("".to_string()).is_err());
}

#[test]
fn an_email_without_an_at_is_rejected() {
    assert!(SubscriberEmail::parse("not-an-email".to_string()).is_err());
}

#[test]
fn an_email_without_a_local_part_is_rejected() {
    assert!(SubscriberEmail::parse("@email.com".to_string()).is_err());
}

#[test]
fn an_email_without_a_domain_is_rejected() {
    assert!(SubscriberEmail::parse("jondoe@".to_string()).is_err());
}

#[test]
fn an_email_with_two_ats_is_rejected() {
    assert!(SubscriberEmail::parse("jon@doe@email.com".to_string()).is_err());
}

#[test]
fn an_email_with_a_space_is_rejected() {
    assert!(SubscriberEmail::parse("jon doe@email.com".to_string()).is_err());
}

#[test]
fn a_subscriber_needs_both_parts_valid() {
    assert!(Subscriber::parse("Jon Doe".to_string(), "jondoe@email.com".to_string()).is_ok());
    assert!(Subscriber::parse("".to_string(), "jondoe@email.com".to_string()).is_err());
    assert!(Subscriber::parse("Jon Doe".to_string(), "not-an-email".to_string()).is_err());
}
