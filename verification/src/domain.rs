//! Validated identity primitives: subscriber names and email addresses.

use vstd::prelude::*;

use crate::chars::forbidden_name_char;
use crate::chars::is_whitespace_char;
use crate::chars::unicode_whitespace;

verus! {

/// Every character of the string is whitespace; an empty string counts.
/// This is exactly the strings whose trimmed form is empty.
pub open spec fn all_whitespace(s: Seq<char>) -> bool {
    forall|i: int| 0 <= i < s.len() ==> unicode_whitespace(s[i])
}

/// The constraints on a subscriber name: non-empty after trimming, at
/// most 256 characters, none of the markup-hostile characters.
pub open spec fn name_valid(s: Seq<char>) -> bool {
    &&& !all_whitespace(s)
    &&& s.len() <= 256
    &&& forall|i: int| 0 <= i < s.len() ==> !forbidden_name_char(s[i])
}

pub uninterp spec fn email_accepted(s: Seq<char>) -> bool;

/// Relies on validator::validate_email: an HTML5-shape syntax check, a
/// function of the string alone. Its source rejects the empty string and
/// any string without an '@' before anything else.
#[verifier::external_body]
fn check_email_syntax(s: &str) -> (r: bool)
    ensures
        r == email_accepted(s@),
        s@.len() == 0 ==> !r,
        (forall|i: int| 0 <= i < s@.len() ==> s@[i] != '@') ==> !r,
{
    validator::validate_email(s)
}

/// This type guarantees us that `SubscriberName` is properly formed.
pub struct SubscriberName {
    name: String,
}

impl View for SubscriberName {
    type V = Seq<char>;

    closed spec fn view(&self) -> Seq<char> {
        self.name@
    }
}

impl SubscriberName {
    /// Only validated names exist: the constructor below is the one way
    /// to obtain a value of this type.
    #[verifier::type_invariant]
    pub open spec fn inv(self) -> bool {
        name_valid(self@)
    }

    /// Returns an instance of `SubscriberName` if the input satisfies
    /// our validation constraints on subscriber names.
    pub fn parse(name: &str) -> (r: Result<SubscriberName, &'static str>)
        ensures
            r is Ok <==> name_valid(name@),
            r matches Ok(n) ==> n@ == name@,
    {
        let len = name.unicode_len();

        let mut i: usize = 0;
        let mut blank = true;
        while i < len
            invariant
                i <= len,
                len == name@.len(),
                blank <==> all_whitespace(name@.take(i as int)),
            decreases len - i,
        {
            if !is_whitespace_char(name.get_char(i)) {
                blank = false;
            }
            assert(name@.take(i + 1).drop_last() =~= name@.take(i as int));
            assert(name@.take(i + 1).last() == name@[i as int]);
            i = i + 1;
        }
        assert(name@.take(len as int) =~= name@);
        if blank {
            return Err("String is emtpy");
        }

        if len > 256 {
            return Err("String is too long");
        }

        let mut i: usize = 0;
        while i < len
            invariant
                i <= len,
                len == name@.len(),
                forall|j: int| 0 <= j < i ==> !forbidden_name_char(name@[j]),
            decreases len - i,
        {
            if is_forbidden_name_char(name.get_char(i)) {
                return Err("String contains forbidden chars");
            }
            i = i + 1;
        }

        Ok(SubscriberName { name: name.to_owned() })
    }

    pub fn as_str(&self) -> (r: &str)
        ensures
            r@ == self@,
    {
        self.name.as_str()
    }
}

/// The executable test for the characters a name may not contain.
fn is_forbidden_name_char(c: char) -> (r: bool)
    ensures
        r == forbidden_name_char(c),
{
    c == '/' || c == '(' || c == ')' || c == '"' || c == '<' || c == '>' || c == '\\' || c == '{'
        || c == '}'
}

/// This type guarantees correctness of `subscriber's` email address.
pub struct SubscriberEmail {
    email: String,
}

impl View for SubscriberEmail {
    type V = Seq<char>;

    closed spec fn view(&self) -> Seq<char> {
        self.email@
    }
}

impl SubscriberEmail {
    /// Only addresses that passed the syntax check exist.
    #[verifier::type_invariant]
    pub open spec fn inv(self) -> bool {
        email_accepted(self@)
    }

    pub fn parse(email: &str) -> (r: Result<SubscriberEmail, &'static str>)
        ensures
            r is Ok <==> email_accepted(email@),
            r matches Ok(e) ==> e@ == email@,
    {
        if check_email_syntax(email) {
            Ok(SubscriberEmail { email: email.to_owned() })
        } else {
            Err("{} is not a valid subscriber email.")
        }
    }

    pub fn as_str(&self) -> (r: &str)
        ensures
            r@ == self@,
    {
        self.email.as_str()
    }

    /// A copy of the address, sharing nothing with the original.
    pub fn duplicate(&self) -> (r: SubscriberEmail)
        ensures
            r@ == self@,
    {
        proof {
            use_type_invariant(self);
        }
        SubscriberEmail { email: self.email.clone() }
    }
}

/// A pair of form fields as they arrive with a subscribe request,
/// before any validation.
pub struct FormData {
    pub email: String,
    pub name: String,
}

/// A validated subscribe request: both fields parsed.
pub struct NewSubscriber {
    pub email: SubscriberEmail,
    pub name: SubscriberName,
}

impl NewSubscriber {
    /// Validates a form, name first: the name's error is reported when
    /// both fields are invalid.
    pub fn parse(form: &FormData) -> (r: Result<NewSubscriber, &'static str>)
        ensures
            r is Ok <==> name_valid(form.name@) && email_accepted(form.email@),
            r matches Ok(n) ==> n.name@ == form.name@ && n.email@ == form.email@,
    {
        let name = match SubscriberName::parse(form.name.as_str()) {
            Ok(v) => v,
            Err(e) => {
                return Err(e);
            },
        };
        let email = match SubscriberEmail::parse(form.email.as_str()) {
            Ok(v) => v,
            Err(e) => {
                return Err(e);
            },
        };
        Ok(NewSubscriber { email, name })
    }
}

} // verus!
