//! Publishing a newsletter issue: the request body, the failure
//! taxonomy of the publish endpoint, and the defensive filter over
//! stored addresses.

use vstd::prelude::*;

use crate::auth::AuthError;
use crate::domain::SubscriberEmail;
use crate::domain::email_accepted;

verus! {

/// The JSON body of a publish request.
pub struct BodyData {
    pub title: String,
    pub content: Content,
}

/// The two renderings of the issue.
pub struct Content {
    pub html: String,
    pub text: String,
}

/// How a publish request can fail.
#[derive(PartialEq, Eq, Structural, Clone, Copy, Debug)]
pub enum PublishError {
    /// The caller could not be authenticated.
    AuthError,
    /// An infrastructure fault with no business meaning.
    UnexpectedError,
    /// A connection could not be had.
    InternalError,
}

impl PublishError {
    /// The HTTP status this failure surfaces as: authentication
    /// failures are 401, everything else an opaque 500.
    pub fn status_code(&self) -> (r: u16)
        ensures
            r == (match self {
                PublishError::AuthError => 401u16,
                _ => 500u16,
            }),
    {
        match self {
            PublishError::AuthError => 401,
            PublishError::UnexpectedError => 500,
            PublishError::InternalError => 500,
        }
    }

    /// The `WWW-Authenticate` challenge sent with every 401.
    pub fn challenge() -> (r: &'static str)
        ensures
            r@ == "Basic realm=\"publish\""@,
    {
        "Basic realm=\"publish\""
    }

    /// How a credential-verification failure surfaces on this endpoint.
    pub fn from_auth(e: AuthError) -> (r: PublishError)
        ensures
            r == (match e {
                AuthError::InvalidCredentials => PublishError::AuthError,
                AuthError::UnexpectedError => PublishError::UnexpectedError,
            }),
    {
        match e {
            AuthError::InvalidCredentials => PublishError::AuthError,
            AuthError::UnexpectedError => PublishError::UnexpectedError,
        }
    }
}

/// Of the first `n` stored rows, the ones that still parse as
/// addresses, in order.
pub open spec fn accepted_rows_upto(rows: Seq<Seq<char>>, n: int) -> Seq<Seq<char>>
    decreases n,
{
    if n <= 0 {
        Seq::empty()
    } else {
        let p = accepted_rows_upto(rows, n - 1);
        if email_accepted(rows[n - 1]) {
            p.push(rows[n - 1])
        } else {
            p
        }
    }
}

/// Parses each stored row back into an address, skipping any row that
/// no longer validates: one corrupt row must not abort a broadcast.
pub fn collect_valid_emails(rows: &Vec<String>) -> (r: Vec<SubscriberEmail>)
    ensures
        crate::store::email_views(r@) == accepted_rows_upto(
            rows@.map_values(|s: String| s@),
            rows@.len() as int,
        ),
{
    let ghost views = rows@.map_values(|s: String| s@);
    let n = rows.len();
    let mut r: Vec<SubscriberEmail> = Vec::new();
    proof {
        assert(crate::store::email_views(r@) =~= accepted_rows_upto(views, 0));
    }
    let mut i: usize = 0;
    while i < n
        invariant
            i <= n,
            n == rows@.len(),
            views == rows@.map_values(|s: String| s@),
            crate::store::email_views(r@) == accepted_rows_upto(views, i as int),
        decreases n - i,
    {
        let ghost before = r@;
        assert(views[i as int] == rows@[i as int]@);
        match SubscriberEmail::parse(rows[i].as_str()) {
            Ok(e) => {
                proof {
                    let ghost ev = e@;
                    assert(ev == views[i as int]);
                }
                let ghost ev = e@;
                r.push(e);
                proof {
                    assert(crate::store::email_views(r@) =~= crate::store::email_views(
                        before,
                    ).push(ev));
                }
            },
            Err(_) => {},
        }
        i = i + 1;
    }
    r
}

} // verus!
