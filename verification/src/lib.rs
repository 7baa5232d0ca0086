//! Core logic of a newsletter-subscription service: validated identity
//! primitives, the subscriber lifecycle state machine with its
//! confirmation-token protocol, credential verification, and Basic-Auth
//! header parsing.

mod auth;
mod chars;
mod config;
mod domain;
mod email;
mod login;
mod newsletter;
mod store;
mod strutil;
mod token;

pub use auth::AuthError;
pub use auth::BasicAuthError;
pub use auth::Credentials;
pub use auth::StoredCredentials;
pub use auth::basic_authentication;
pub use auth::split_credentials;
pub use auth::validate_credentials;
pub use auth::verify_password_hash;
pub use config::EmailDeliveryService;
pub use config::Environment;
pub use domain::FormData;
pub use email::VerifyEmailTemplate;
pub use email::confirmation_link;
pub use email::plain_text_body;
pub use login::LoginError;
pub use login::QueryParams;
pub use login::login_error_fragment;
pub use store::Parameters;
pub use newsletter::BodyData;
pub use newsletter::Content;
pub use newsletter::PublishError;
pub use newsletter::collect_valid_emails;
pub use domain::NewSubscriber;
pub use domain::SubscriberEmail;
pub use domain::SubscriberName;
pub use store::ConfirmOutcome;
pub use store::SubscribeOutcome;
pub use store::SubscriberRecord;
pub use store::SubscriberStatus;
pub use store::SubscriberStore;
pub use store::TokenRecord;
pub use strutil::str_eq;
pub use token::SubscriberToken;

// The store's laws are part of the public statement of this crate.
pub use store::confirm_transition;
pub use store::confirmed_emails;
pub use store::email_views;
pub use store::lemma_confirm_idempotent;
pub use store::lemma_confirm_preserves_wf;
pub use store::lemma_resubscribe_rotates_token;
pub use store::lemma_subscribe_confirmed_is_conflict;
pub use store::lemma_subscribe_new_yields_pending;
pub use store::lemma_subscribe_preserves_wf;
pub use store::status_of;
pub use store::store_wf;
pub use store::subscribe_transition;
pub use store::StoreModel;
pub use store::SubModel;
pub use store::TokModel;
