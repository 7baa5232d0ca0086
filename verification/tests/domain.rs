use fake::faker::internet::en::SafeEmail;
use fake::Fake;

use zero2prod_core::FormData;
use zero2prod_core::NewSubscriber;
use zero2prod_core::SubscriberEmail;
use zero2prod_core::SubscriberName;

#[test]
fn a_256_char_long_name_is_valid() {
    let name = "a".repeat(256);
    assert!(SubscriberName::parse(&name).is_ok());
}

#[test]
fn a_name_longer_than_256_chars_is_rejected() {
    let name = "a".repeat(257);
    assert!(SubscriberName::parse(&name).is_err());
}

#[test]
fn whitespace_only_names_are_rejected() {
    let name = " ".to_string();
    assert!(SubscriberName::parse(&name).is_err());
}

#[test]
fn emtpy_string_is_rejected() {
    let name = "".to_string();
    assert!(SubscriberName::parse(&name).is_err());
}

#[test]
fn names_contanining_an_invalid_character_are_rejected() {
    for name in &['/', '(', ')', '"', '<', '>', '\\', '{', '}'] {
        let name = name.to_string();
        assert!(SubscriberName::parse(&name).is_err());
    }
}

#[test]
fn a_valid_name_is_parsed_successfully() {
    let name = "Ursula Le Guin".to_string();
    assert!(SubscriberName::parse(&name).is_ok());
}

#[test]
fn valied_emails_are_parsed_successfully() {
    let mut rng = rand::thread_rng();
    for _ in 0..100 {
        let valid_email: String = SafeEmail().fake_with_rng(&mut rng);
        assert!(SubscriberEmail::parse(&valid_email).is_ok());
    }
}

#[test]
fn empty_string_is_rejected() {
    let email = "".to_string();
    assert!(SubscriberEmail::parse(&email).is_err())
}

#[test]
fn email_missing_at_symbol_is_rejected() {
    let email = "ursuladomail.com".to_string();
    assert!(SubscriberEmail::parse(&email).is_err())
}

#[test]
fn email_missing_subject_is_rejected() {
    let email = "@domail.com".to_string();
    assert!(SubscriberEmail::parse(&email).is_err())
}

#[test]
fn valid_emails_are_parsed_successfully() {
    let email: String = SafeEmail().fake();
    assert!(SubscriberEmail::parse(&email).is_ok())
}

#[test]
fn parsed_values_keep_their_text() {
    let name = SubscriberName::parse("le guin").unwrap();
    assert_eq!(name.as_str(), "le guin");
    let email = SubscriberEmail::parse("ursula_le_guin@gmail.com").unwrap();
    assert_eq!(email.as_str(), "ursula_le_guin@gmail.com");
    let copy = email.duplicate();
    assert_eq!(copy.as_str(), "ursula_le_guin@gmail.com");
}

#[test]
fn a_form_parses_into_a_new_subscriber() {
    let form = FormData {
        email: "ursula_le_guin@gmail.com".to_string(),
        name: "le guin".to_string(),
    };
    let sub = NewSubscriber::parse(&form).unwrap();
    assert_eq!(sub.name.as_str(), "le guin");
    assert_eq!(sub.email.as_str(), "ursula_le_guin@gmail.com");
}

#[test]
fn a_form_with_a_bad_field_is_rejected() {
    let bad_name = FormData {
        email: "ursula_le_guin@gmail.com".to_string(),
        name: "".to_string(),
    };
    assert!(NewSubscriber::parse(&bad_name).is_err());
    let bad_email = FormData {
        email: "definetely-not-an-email".to_string(),
        name: "Ursula".to_string(),
    };
    assert!(NewSubscriber::parse(&bad_email).is_err());
}
