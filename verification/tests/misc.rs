use zero2prod_core::BodyData;
use zero2prod_core::ConfirmOutcome;
use zero2prod_core::SubscribeOutcome;
use zero2prod_core::Content;
use zero2prod_core::EmailDeliveryService;
use zero2prod_core::Environment;
use zero2prod_core::LoginError;
use zero2prod_core::PublishError;
use zero2prod_core::QueryParams;
use zero2prod_core::SubscriberToken;
use zero2prod_core::VerifyEmailTemplate;
use zero2prod_core::collect_valid_emails;
use zero2prod_core::confirmation_link;
use zero2prod_core::login_error_fragment;
use zero2prod_core::plain_text_body;
use zero2prod_core::str_eq;
use zero2prod_core::AuthError;

#[test]
fn environments_parse_in_any_ascii_case() {
    assert_eq!(Environment::parse("local"), Ok(Environment::Local));
    assert_eq!(Environment::parse("LOCAL"), Ok(Environment::Local));
    assert_eq!(Environment::parse("Production"), Ok(Environment::Production));
    assert_eq!(Environment::parse("production"), Ok(Environment::Production));
    assert_eq!(
        Environment::parse("staging"),
        Err("staging is not a supported environment. Use either `local` or `production`."
            .to_string())
    );
}

#[test]
fn environments_print_their_names() {
    assert_eq!(Environment::Local.as_str(), "local");
    assert_eq!(Environment::Production.as_str(), "production");
}

#[test]
fn delivery_services_parse_their_two_spellings() {
    assert_eq!(
        EmailDeliveryService::parse("postmark"),
        Ok(EmailDeliveryService::Postmark)
    );
    assert_eq!(
        EmailDeliveryService::parse("Postmark"),
        Ok(EmailDeliveryService::Postmark)
    );
    assert_eq!(EmailDeliveryService::parse("smtp"), Ok(EmailDeliveryService::SMTP));
    assert_eq!(EmailDeliveryService::parse("SMTP"), Ok(EmailDeliveryService::SMTP));
    assert_eq!(
        EmailDeliveryService::parse("pigeon"),
        Err("Can't construct EmailDeliveryService type from pigeon".to_string())
    );
}

#[test]
fn the_confirmation_link_embeds_the_token() {
    let token = SubscriberToken::parse(&"a".repeat(25)).unwrap();
    let link = confirmation_link("https://example.com", &token);
    assert_eq!(
        link,
        format!(
            "https://example.com/subscriptions/confirm?subscription_token={}",
            "a".repeat(25)
        )
    );
    let body = plain_text_body(&link);
    assert_eq!(
        body,
        format!("Welcome to our newsletter!\nVisit {} to confirm your subscription.", link)
    );
}

#[test]
fn the_template_keeps_name_and_link() {
    let template = VerifyEmailTemplate::new("le guin", "https://example.com/confirm");
    assert_eq!(template.name(), "le guin");
    assert_eq!(template.link(), "https://example.com/confirm");
}

#[test]
fn outcomes_map_to_their_statuses() {
    assert_eq!(SubscribeOutcome::Success.status_code(), 200);
    assert_eq!(SubscribeOutcome::Conflict.status_code(), 409);
    assert_eq!(SubscribeOutcome::InternalError.status_code(), 500);
    assert_eq!(ConfirmOutcome::Success.status_code(), 200);
    assert_eq!(ConfirmOutcome::BadRequest.status_code(), 400);
    assert_eq!(ConfirmOutcome::NotFound.status_code(), 404);
}

#[test]
fn publish_errors_map_to_their_statuses() {
    assert_eq!(PublishError::AuthError.status_code(), 401);
    assert_eq!(PublishError::UnexpectedError.status_code(), 500);
    assert_eq!(PublishError::InternalError.status_code(), 500);
    assert_eq!(PublishError::challenge(), "Basic realm=\"publish\"");
    assert_eq!(
        PublishError::from_auth(AuthError::InvalidCredentials),
        PublishError::AuthError
    );
    assert_eq!(
        PublishError::from_auth(AuthError::UnexpectedError),
        PublishError::UnexpectedError
    );
}

#[test]
fn login_errors_redirect_with_an_encoded_message() {
    assert_eq!(
        LoginError::from_auth(AuthError::InvalidCredentials),
        LoginError::AuthError
    );
    assert_eq!(LoginError::AuthError.message(), "Authentication failed");
    assert_eq!(LoginError::UnexpectedError.message(), "Something went wrong");
    assert_eq!(
        LoginError::AuthError.redirect_target(),
        "/login?error=Authentication%20failed"
    );
    assert_eq!(
        LoginError::UnexpectedError.redirect_target(),
        "/login?error=Something%20went%20wrong"
    );
}

#[test]
fn the_login_form_shows_the_error_when_there_is_one() {
    let with_error = QueryParams {
        error: Some("Authentication failed".to_string()),
    };
    assert_eq!(
        login_error_fragment(&with_error),
        "<p><i>Authentication failed</i></p>"
    );
    let without = QueryParams { error: None };
    assert_eq!(login_error_fragment(&without), "");
}

#[test]
fn corrupt_rows_are_skipped_not_fatal() {
    let rows = vec![
        "ursula_le_guin@gmail.com".to_string(),
        "not an email".to_string(),
        "johnsmit@gmail.com".to_string(),
    ];
    let emails = collect_valid_emails(&rows);
    assert_eq!(emails.len(), 2);
    assert_eq!(emails[0].as_str(), "ursula_le_guin@gmail.com");
    assert_eq!(emails[1].as_str(), "johnsmit@gmail.com");
}

#[test]
fn newsletter_bodies_carry_both_renderings() {
    let body = BodyData {
        title: "Newsletter title".to_string(),
        content: Content {
            html: "<p>Newsletter body as HTML</p>".to_string(),
            text: "Newsletter body as a plain text".to_string(),
        },
    };
    assert_eq!(body.title, "Newsletter title");
    assert_eq!(body.content.html, "<p>Newsletter body as HTML</p>");
    assert_eq!(body.content.text, "Newsletter body as a plain text");
}

#[test]
fn string_equality_compares_by_characters() {
    assert!(str_eq("hello", "hello"));
    assert!(!str_eq("hello", "hell"));
    assert!(!str_eq("hello", "hellp"));
    assert!(str_eq("", ""));
}
