use zero2prod_core::SubscriberToken;

#[test]
fn a_25_char_alphanumeric_token_is_valid() {
    let token = "a".repeat(25);
    assert!(SubscriberToken::parse(&token).is_ok());
}

#[test]
fn a_token_of_the_wrong_length_is_rejected() {
    assert!(SubscriberToken::parse(&"a".repeat(24)).is_err());
    assert!(SubscriberToken::parse(&"a".repeat(26)).is_err());
    assert!(SubscriberToken::parse("").is_err());
}

#[test]
fn a_token_with_a_non_alphanumeric_char_is_rejected() {
    let token = format!("{}!", "a".repeat(24));
    assert!(SubscriberToken::parse(&token).is_err());
    let token = format!("{} {}", "a".repeat(12), "b".repeat(12));
    assert!(SubscriberToken::parse(&token).is_err());
}

#[test]
fn a_whitespace_only_token_is_rejected() {
    let token = " ".repeat(25);
    assert!(SubscriberToken::parse(&token).is_err());
}

#[test]
fn generated_tokens_parse_back() {
    for _ in 0..20 {
        let token = SubscriberToken::generate();
        let text = token.as_str();
        assert_eq!(text.chars().count(), 25);
        assert!(text.chars().all(|c| c.is_ascii_alphanumeric()));
        assert!(SubscriberToken::parse(text).is_ok());
    }
}
