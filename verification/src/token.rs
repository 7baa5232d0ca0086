//! Confirmation tokens: 25 alphanumeric characters proving control of a
//! pending subscriber's email address.

use rand::Rng;
use vstd::prelude::*;

use crate::chars::ascii_alphanumeric;
use crate::chars::is_alphanumeric_char;
use crate::chars::is_whitespace_char;
use crate::chars::unicode_alphanumeric;
use crate::chars::unicode_whitespace;
use crate::domain::all_whitespace;

verus! {

/// The constraints on a confirmation token: non-empty after trimming,
/// exactly 25 characters, all of them alphanumeric.
pub open spec fn token_valid(s: Seq<char>) -> bool {
    &&& !all_whitespace(s)
    &&& s.len() == 25
    &&& forall|i: int| 0 <= i < s.len() ==> unicode_alphanumeric(s[i])
}

/// Relies on rand's Alphanumeric distribution: every sampled character is
/// an ASCII letter or digit, so alphanumeric and not whitespace.
#[verifier::external_body]
fn sample_token_string() -> (r: String)
    ensures
        r@.len() == 25,
        forall|i: int| 0 <= i < r@.len() ==> ascii_alphanumeric(r@[i]),
        forall|i: int| 0 <= i < r@.len() ==> unicode_alphanumeric(r@[i]),
        forall|i: int| 0 <= i < r@.len() ==> !unicode_whitespace(r@[i]),
{
    let mut rng = rand::thread_rng();
    std::iter::repeat_with(|| rng.sample(rand::distributions::Alphanumeric))
        .map(char::from)
        .take(25)
        .collect()
}

#[derive(Debug)]
pub struct SubscriberToken {
    token: String,
}

impl View for SubscriberToken {
    type V = Seq<char>;

    closed spec fn view(&self) -> Seq<char> {
        self.token@
    }
}

impl SubscriberToken {
    /// Only well-formed tokens exist: they come from `parse` or
    /// `generate`, nowhere else.
    #[verifier::type_invariant]
    pub open spec fn inv(self) -> bool {
        token_valid(self@)
    }

    pub fn parse(name: &str) -> (r: Result<SubscriberToken, &'static str>)
        ensures
            r is Ok <==> token_valid(name@),
            r matches Ok(t) ==> t@ == name@,
    {
        let len = name.unicode_len();

        let mut i: usize = 0;
        let mut blank = true;
        while i < len
            invariant
                i <= len,
                len == name@.len(),
                blank <==> all_whitespace(name@.take(i as int)),
            decreases len - i,
        {
            if !is_whitespace_char(name.get_char(i)) {
                blank = false;
            }
            assert(name@.take(i + 1).drop_last() =~= name@.take(i as int));
            assert(name@.take(i + 1).last() == name@[i as int]);
            i = i + 1;
        }
        assert(name@.take(len as int) =~= name@);
        if blank {
            return Err("String is emtpy");
        }

        if len != 25 {
            return Err("String is too long");
        }

        let mut i: usize = 0;
        while i < len
            invariant
                i <= len,
                len == name@.len(),
                forall|j: int| 0 <= j < i ==> unicode_alphanumeric(name@[j]),
            decreases len - i,
        {
            if !is_alphanumeric_char(name.get_char(i)) {
                return Err("String contains forbidden chars");
            }
            i = i + 1;
        }

        Ok(SubscriberToken { token: name.to_owned() })
    }

    /// Using 25 characters we get roughly ~10^45 possible tokens -
    /// it should be more than enough for our use case.
    pub fn generate() -> (r: SubscriberToken)
        ensures
            token_valid(r@),
    {
        let token = sample_token_string();
        proof {
            assert(!unicode_whitespace(token@[0]));
        }
        SubscriberToken { token }
    }

    pub fn as_str(&self) -> (r: &str)
        ensures
            r@ == self@,
    {
        self.token.as_str()
    }
}

} // verus!
