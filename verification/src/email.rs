//! What a confirmation email carries: the link that redeems the token,
//! the plain-text body, and the data the HTML template is filled with.

use vstd::prelude::*;
use vstd::string::StringExecFns;

use crate::token::SubscriberToken;

verus! {

/// The data the verification-email template is rendered from.
pub struct VerifyEmailTemplate<'a> {
    name: &'a str,
    link: &'a str,
}

impl<'a> VerifyEmailTemplate<'a> {
    pub closed spec fn name_spec(&self) -> Seq<char> {
        self.name@
    }

    pub closed spec fn link_spec(&self) -> Seq<char> {
        self.link@
    }

    pub fn new(name: &'a str, reference: &'a str) -> (r: Self)
        ensures
            r.name_spec() == name@,
            r.link_spec() == reference@,
    {
        VerifyEmailTemplate { name, link: reference }
    }

    pub fn name(&self) -> (r: &str)
        ensures
            r@ == self.name_spec(),
    {
        self.name
    }

    pub fn link(&self) -> (r: &str)
        ensures
            r@ == self.link_spec(),
    {
        self.link
    }
}

/// The address a subscriber visits to redeem a confirmation token.
pub fn confirmation_link(base_url: &str, subscription_token: &SubscriberToken) -> (r: String)
    ensures
        r@ == base_url@ + "/subscriptions/confirm?subscription_token="@ + subscription_token@,
{
    let link = base_url.to_owned().concat("/subscriptions/confirm?subscription_token=");
    link.concat(subscription_token.as_str())
}

/// The plain-text body of the confirmation email.
pub fn plain_text_body(confirmation_link: &str) -> (r: String)
    ensures
        r@ == "Welcome to our newsletter!\nVisit "@ + confirmation_link@
            + " to confirm your subscription."@,
{
    let body = String::from_str("Welcome to our newsletter!\nVisit ").concat(confirmation_link);
    body.concat(" to confirm your subscription.")
}

} // verus!
