use zero2prod_core::ConfirmOutcome;
use zero2prod_core::FormData;
use zero2prod_core::NewSubscriber;
use zero2prod_core::SubscribeOutcome;
use zero2prod_core::SubscriberEmail;
use zero2prod_core::SubscriberStatus;
use zero2prod_core::SubscriberStore;
use zero2prod_core::SubscriberToken;

fn new_subscriber(name: &str, email: &str) -> NewSubscriber {
    let form = FormData {
        email: email.to_string(),
        name: name.to_string(),
    };
    NewSubscriber::parse(&form).unwrap()
}

fn email(raw: &str) -> SubscriberEmail {
    SubscriberEmail::parse(raw).unwrap()
}

#[test]
fn subscribing_a_new_email_leaves_it_pending_with_a_token() {
    let mut store = SubscriberStore::new();
    let token = SubscriberToken::generate();
    let token_text = token.as_str().to_string();
    let sub = new_subscriber("le guin", "ursula_le_guin@gmail.com");

    let out = store.subscribe(1, 100, token, sub, true);
    assert_eq!(out, SubscribeOutcome::Success);
    assert_eq!(
        store.get_subscriber_status(&email("ursula_le_guin@gmail.com")),
        SubscriberStatus::Pending
    );
    // The stored token is live: it confirms.
    assert_eq!(store.confirm(&token_text), ConfirmOutcome::Success);
}

#[test]
fn an_unknown_email_is_non_existing() {
    let store = SubscriberStore::new();
    assert_eq!(
        store.get_subscriber_status(&email("nobody@example.com")),
        SubscriberStatus::NonExisting
    );
}

#[test]
fn a_failed_delivery_rolls_the_subscription_back() {
    let mut store = SubscriberStore::new();
    let token = SubscriberToken::generate();
    let token_text = token.as_str().to_string();
    let sub = new_subscriber("le guin", "ursula_le_guin@gmail.com");

    let out = store.subscribe(1, 100, token, sub, false);
    assert_eq!(out, SubscribeOutcome::InternalError);
    assert_eq!(
        store.get_subscriber_status(&email("ursula_le_guin@gmail.com")),
        SubscriberStatus::NonExisting
    );
    assert_eq!(store.confirm(&token_text), ConfirmOutcome::NotFound);
}

#[test]
fn confirming_the_same_token_twice_succeeds_both_times() {
    let mut store = SubscriberStore::new();
    let token = SubscriberToken::generate();
    let token_text = token.as_str().to_string();
    let sub = new_subscriber("le guin", "ursula_le_guin@gmail.com");
    assert_eq!(store.subscribe(1, 100, token, sub, true), SubscribeOutcome::Success);

    assert_eq!(store.confirm(&token_text), ConfirmOutcome::Success);
    let emails_after_first: Vec<String> = store
        .fetch_confirmed_emails()
        .iter()
        .map(|e| e.as_str().to_string())
        .collect();

    assert_eq!(store.confirm(&token_text), ConfirmOutcome::Success);
    let emails_after_second: Vec<String> = store
        .fetch_confirmed_emails()
        .iter()
        .map(|e| e.as_str().to_string())
        .collect();

    assert_eq!(emails_after_first, emails_after_second);
    assert_eq!(
        store.get_subscriber_status(&email("ursula_le_guin@gmail.com")),
        SubscriberStatus::Confirmed
    );
}

#[test]
fn subscribing_a_confirmed_email_is_a_conflict() {
    let mut store = SubscriberStore::new();
    let token = SubscriberToken::generate();
    let token_text = token.as_str().to_string();
    let sub = new_subscriber("le guin", "ursula_le_guin@gmail.com");
    assert_eq!(store.subscribe(1, 100, token, sub, true), SubscribeOutcome::Success);
    assert_eq!(store.confirm(&token_text), ConfirmOutcome::Success);

    let token2 = SubscriberToken::generate();
    let sub2 = new_subscriber("le guin", "ursula_le_guin@gmail.com");
    assert_eq!(store.subscribe(2, 200, token2, sub2, true), SubscribeOutcome::Conflict);
    // The row is untouched and the prior token still resolves.
    assert_eq!(
        store.get_subscriber_status(&email("ursula_le_guin@gmail.com")),
        SubscriberStatus::Confirmed
    );
    assert_eq!(store.confirm(&token_text), ConfirmOutcome::Success);
}

#[test]
fn resubscribing_while_pending_replaces_the_token() {
    let mut store = SubscriberStore::new();
    let first = SubscriberToken::generate();
    let first_text = first.as_str().to_string();
    let sub = new_subscriber("le guin", "ursula_le_guin@gmail.com");
    assert_eq!(store.subscribe(1, 100, first, sub, true), SubscribeOutcome::Success);

    let second = SubscriberToken::generate();
    let second_text = second.as_str().to_string();
    let sub2 = new_subscriber("le guin", "ursula_le_guin@gmail.com");
    assert_eq!(store.subscribe(2, 200, second, sub2, true), SubscribeOutcome::Success);

    // Still pending, under its original row.
    assert_eq!(
        store.get_subscriber_status(&email("ursula_le_guin@gmail.com")),
        SubscriberStatus::Pending
    );
    // The old token no longer confirms; the new one does.
    assert_eq!(store.confirm(&first_text), ConfirmOutcome::NotFound);
    assert_eq!(store.confirm(&second_text), ConfirmOutcome::Success);
    assert_eq!(
        store.get_subscriber_status(&email("ursula_le_guin@gmail.com")),
        SubscriberStatus::Confirmed
    );
}

#[test]
fn a_malformed_token_is_a_bad_request() {
    let mut store = SubscriberStore::new();
    assert_eq!(store.confirm("not-a-token"), ConfirmOutcome::BadRequest);
    assert_eq!(store.confirm(""), ConfirmOutcome::BadRequest);
}

#[test]
fn an_unknown_token_is_not_found() {
    let mut store = SubscriberStore::new();
    let unknown = "a".repeat(25);
    assert_eq!(store.confirm(&unknown), ConfirmOutcome::NotFound);
}

#[test]
fn the_whole_lifecycle_reaches_the_broadcast_list_once() {
    let mut store = SubscriberStore::new();
    assert!(store.fetch_confirmed_emails().is_empty());

    let token = SubscriberToken::generate();
    let token_text = token.as_str().to_string();
    let sub = new_subscriber("le guin", "ursula_le_guin@gmail.com");
    assert_eq!(store.subscribe(1, 100, token, sub, true), SubscribeOutcome::Success);

    // Pending subscribers are not broadcast to.
    assert!(store.fetch_confirmed_emails().is_empty());

    assert_eq!(store.confirm(&token_text), ConfirmOutcome::Success);
    let recipients = store.fetch_confirmed_emails();
    assert_eq!(recipients.len(), 1);
    assert_eq!(recipients[0].as_str(), "ursula_le_guin@gmail.com");
}

#[test]
fn two_subscribers_are_kept_apart() {
    let mut store = SubscriberStore::new();
    let t1 = SubscriberToken::generate();
    let t1_text = t1.as_str().to_string();
    let t2 = SubscriberToken::generate();
    assert_eq!(
        store.subscribe(1, 100, t1, new_subscriber("le guin", "ursula_le_guin@gmail.com"), true),
        SubscribeOutcome::Success
    );
    assert_eq!(
        store.subscribe(2, 200, t2, new_subscriber("john smit", "johnsmit@gmail.com"), true),
        SubscribeOutcome::Success
    );
    assert_eq!(store.confirm(&t1_text), ConfirmOutcome::Success);
    assert_eq!(
        store.get_subscriber_status(&email("ursula_le_guin@gmail.com")),
        SubscriberStatus::Confirmed
    );
    assert_eq!(
        store.get_subscriber_status(&email("johnsmit@gmail.com")),
        SubscriberStatus::Pending
    );
    let recipients = store.fetch_confirmed_emails();
    assert_eq!(recipients.len(), 1);
    assert_eq!(recipients[0].as_str(), "ursula_le_guin@gmail.com");
}
