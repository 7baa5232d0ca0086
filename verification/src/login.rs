//! The login endpoint's failure taxonomy and the strings it answers
//! with: a redirect target carrying the encoded error, and the snippet
//! the form page shows.

use vstd::prelude::*;
use vstd::string::StringExecFns;

use crate::auth::AuthError;

verus! {

/// How a login attempt can fail.
#[derive(PartialEq, Eq, Structural, Clone, Copy, Debug)]
pub enum LoginError {
    /// The credentials did not verify.
    AuthError,
    /// An infrastructure fault with no business meaning.
    UnexpectedError,
}

pub uninterp spec fn url_encoded(s: Seq<char>) -> Seq<char>;

/// Relies on urlencoding::encode: percent-encoding is a function of
/// the string alone.
#[verifier::external_body]
fn url_encode(s: &str) -> (r: String)
    ensures
        r@ == url_encoded(s@),
{
    urlencoding::encode(s).into_owned()
}

impl LoginError {
    /// How a credential-verification failure surfaces on this endpoint.
    pub fn from_auth(e: AuthError) -> (r: LoginError)
        ensures
            r == (match e {
                AuthError::InvalidCredentials => LoginError::AuthError,
                AuthError::UnexpectedError => LoginError::UnexpectedError,
            }),
    {
        match e {
            AuthError::InvalidCredentials => LoginError::AuthError,
            AuthError::UnexpectedError => LoginError::UnexpectedError,
        }
    }

    /// The message shown to the user; it never says whether the
    /// username or the password was wrong.
    pub fn message(&self) -> (r: &'static str)
        ensures
            r@ == (match self {
                LoginError::AuthError => "Authentication failed"@,
                LoginError::UnexpectedError => "Something went wrong"@,
            }),
    {
        match self {
            LoginError::AuthError => "Authentication failed",
            LoginError::UnexpectedError => "Something went wrong",
        }
    }

    /// Where a failed login redirects to: the form page, with the
    /// encoded message in the query string.
    pub fn redirect_target(&self) -> (r: String)
        ensures
            r@ == "/login?error="@ + url_encoded(
                match self {
                    LoginError::AuthError => "Authentication failed"@,
                    LoginError::UnexpectedError => "Something went wrong"@,
                },
            ),
    {
        let prefix = String::from_str("/login?error=");
        prefix.concat(url_encode(self.message()).as_str())
    }
}

/// The query parameters of the login form page.
pub struct QueryParams {
    pub error: Option<String>,
}

/// The fragment the form page shows above the form: the error message
/// in italics, or nothing.
pub fn login_error_fragment(query: &QueryParams) -> (r: String)
    ensures
        r@ == (match query.error {
            Some(m) => "<p><i>"@ + m@ + "</i></p>"@,
            None => Seq::<char>::empty(),
        }),
{
    match &query.error {
        Some(m) => {
            let s = String::from_str("<p><i>");
            let s = s.concat(m.as_str());
            s.concat("</i></p>")
        },
        None => {
            let r = String::new();
            proof {
                assert(r@ =~= Seq::<char>::empty());
            }
            r
        },
    }
}

} // verus!
