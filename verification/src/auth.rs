//! Authentication: Basic-Auth header decoding and credential
//! verification against stored password hashes.

use argon2::PasswordVerifier;
use base64::Engine;
use vstd::prelude::*;

use crate::strutil::trim_str;
use crate::strutil::trimmed;

verus! {

/// A username and password as presented by a client.
#[derive(PartialEq, Eq, Debug)]
pub struct Credentials {
    pub username: String,
    pub password: String,
}

/// How credential verification can fail. A wrong password and an
/// unknown username are intentionally the same variant.
#[derive(PartialEq, Eq, Structural, Clone, Copy, Debug)]
pub enum AuthError {
    InvalidCredentials,
    UnexpectedError,
}

/// The distinct ways an `Authorization` header can fail to yield
/// credentials. All of them surface to the client as one authentication
/// failure.
#[derive(PartialEq, Eq, Structural, Clone, Copy, Debug)]
pub enum BasicAuthError {
    /// The header was absent.
    MissingHeader,
    /// The header does not carry the `Basic` scheme.
    NotBasic,
    /// The payload is not valid base64.
    BadBase64,
    /// The decoded payload is not valid UTF-8.
    BadUtf8,
    /// The decoded payload has no `:` to split on.
    MissingPassword,
}

pub uninterp spec fn base64_decoded(s: Seq<char>) -> Option<Seq<u8>>;

/// Relies on base64's standard-alphabet engine: whether and how a
/// string decodes is a function of the string alone.
#[verifier::external_body]
fn base64_decode(s: &str) -> (r: Option<Vec<u8>>)
    ensures
        r is Some <==> base64_decoded(s@) is Some,
        r matches Some(v) ==> v@ == base64_decoded(s@).unwrap(),
{
    base64::engine::general_purpose::STANDARD.decode(s).ok()
}

pub uninterp spec fn utf8_decoded(b: Seq<u8>) -> Option<Seq<char>>;

/// Relies on String::from_utf8: whether and how bytes decode is a
/// function of the bytes alone.
#[verifier::external_body]
fn bytes_to_utf8(b: Vec<u8>) -> (r: Option<String>)
    ensures
        r is Some <==> utf8_decoded(b@) is Some,
        r matches Some(s) ==> s@ == utf8_decoded(b@).unwrap(),
{
    String::from_utf8(b).ok()
}

/// Splitting a string at its first `:`: the part before it and the part
/// after it, or nothing when no `:` occurs.
pub open spec fn split_at_first_colon(s: Seq<char>) -> Option<(Seq<char>, Seq<char>)>
    decreases s.len(),
{
    if s.len() == 0 {
        None
    } else if s[0] == ':' {
        Some((Seq::empty(), s.drop_first()))
    } else {
        match split_at_first_colon(s.drop_first()) {
            None => None,
            Some(up) => Some((seq![s[0]] + up.0, up.1)),
        }
    }
}

proof fn lemma_split_at_colon_index(s: Seq<char>, i: int)
    requires
        0 <= i < s.len(),
        s[i] == ':',
        forall|j: int| 0 <= j < i ==> s[j] != ':',
    ensures
        split_at_first_colon(s) == Some((s.take(i), s.skip(i + 1))),
    decreases i,
{
    if i == 0 {
        assert(s.take(0) =~= Seq::<char>::empty());
        assert(s.skip(1) =~= s.drop_first());
    } else {
        lemma_split_at_colon_index(s.drop_first(), i - 1);
        assert(seq![s[0]] + s.drop_first().take(i - 1) =~= s.take(i));
        assert(s.drop_first().skip(i) =~= s.skip(i + 1));
    }
}

proof fn lemma_split_at_colon_none(s: Seq<char>)
    requires
        forall|j: int| 0 <= j < s.len() ==> s[j] != ':',
    ensures
        split_at_first_colon(s) is None,
    decreases s.len(),
{
    if s.len() > 0 {
        lemma_split_at_colon_none(s.drop_first());
    }
}

/// Splits a decoded `username:password` payload at the first `:` only,
/// so the password may itself contain `:`.
pub fn split_credentials(decoded: &str) -> (r: Result<Credentials, BasicAuthError>)
    ensures
        match split_at_first_colon(decoded@) {
            Some(up) => r matches Ok(c) && c.username@ == up.0 && c.password@ == up.1,
            None => r == Err::<Credentials, BasicAuthError>(BasicAuthError::MissingPassword),
        },
{
    let len = decoded.unicode_len();
    let mut i: usize = 0;
    while i < len
        invariant
            i <= len,
            len == decoded@.len(),
            forall|j: int| 0 <= j < i ==> decoded@[j] != ':',
        decreases len - i,
    {
        if decoded.get_char(i) == ':' {
            let username = decoded.substring_char(0, i).to_owned();
            let password = decoded.substring_char(i + 1, len).to_owned();
            proof {
                lemma_split_at_colon_index(decoded@, i as int);
                assert(decoded@.subrange(0, i as int) =~= decoded@.take(i as int));
                assert(decoded@.subrange(i + 1, len as int) =~= decoded@.skip(i + 1));
            }
            return Ok(Credentials { username, password });
        }
        i = i + 1;
    }
    proof {
        lemma_split_at_colon_none(decoded@);
    }
    Err(BasicAuthError::MissingPassword)
}

/// What decoding an `Authorization` header yields: the username and
/// password, or the first failure along the way.
pub open spec fn basic_auth_spec(h: Option<Seq<char>>) -> Result<
    (Seq<char>, Seq<char>),
    BasicAuthError,
> {
    match h {
        None => Err(BasicAuthError::MissingHeader),
        Some(s) => if !(s.len() >= 5 && s.take(5) == "Basic"@) {
            Err(BasicAuthError::NotBasic)
        } else {
            match base64_decoded(trimmed(s.skip(5))) {
                None => Err(BasicAuthError::BadBase64),
                Some(bytes) => match utf8_decoded(bytes) {
                    None => Err(BasicAuthError::BadUtf8),
                    Some(d) => match split_at_first_colon(d) {
                        None => Err(BasicAuthError::MissingPassword),
                        Some(up) => Ok(up),
                    },
                },
            }
        },
    }
}

/// Decodes an `Authorization: Basic` header value into credentials:
/// scheme check, base64, UTF-8, then the split at the first `:`.
pub fn basic_authentication(header_value: Option<&str>) -> (r: Result<Credentials, BasicAuthError>)
    ensures
        match basic_auth_spec(
            match header_value {
                Some(h) => Some(h@),
                None => None,
            },
        ) {
            Ok(up) => r matches Ok(c) && c.username@ == up.0 && c.password@ == up.1,
            Err(e) => r == Err::<Credentials, BasicAuthError>(e),
        },
{
    let header = match header_value {
        Some(h) => h,
        None => {
            return Err(BasicAuthError::MissingHeader);
        },
    };
    let len = header.unicode_len();
    if len < 5 {
        return Err(BasicAuthError::NotBasic);
    }
    let is_basic = header.get_char(0) == 'B' && header.get_char(1) == 'a' && header.get_char(2)
        == 's' && header.get_char(3) == 'i' && header.get_char(4) == 'c';
    proof {
        reveal_strlit("Basic");
        assert("Basic"@.len() == 5);
        if is_basic {
            assert(header@.take(5) =~= "Basic"@);
        } else {
            assert(header@.take(5) != "Basic"@) by {
                if header@.take(5) == "Basic"@ {
                    assert(header@.take(5)[0] == 'B' && header@.take(5)[1] == 'a' && header@.take(
                        5,
                    )[2] == 's' && header@.take(5)[3] == 'i' && header@.take(5)[4] == 'c');
                }
            }
        }
    }
    if !is_basic {
        return Err(BasicAuthError::NotBasic);
    }
    let payload = trim_str(header.substring_char(5, len));
    proof {
        assert(header@.subrange(5, len as int) =~= header@.skip(5));
    }
    let decoded_bytes = match base64_decode(payload) {
        Some(v) => v,
        None => {
            return Err(BasicAuthError::BadBase64);
        },
    };
    let decoded = match bytes_to_utf8(decoded_bytes) {
        Some(s) => s,
        None => {
            return Err(BasicAuthError::BadUtf8);
        },
    };
    split_credentials(decoded.as_str())
}

/// How one password-hash comparison can end.
#[derive(PartialEq, Eq, Structural, Clone, Copy, Debug)]
enum HashVerdict {
    /// The stored string is not a PHC-format hash.
    BadHash,
    /// The candidate password produced the stored hash.
    Match,
    /// The candidate password did not produce the stored hash.
    NoMatch,
}

pub uninterp spec fn phc_valid(h: Seq<char>) -> bool;

pub uninterp spec fn password_matches(password: Seq<char>, h: Seq<char>) -> bool;

/// Relies on the PHC-string parser (PasswordHash::new) and on argon2's
/// verify_password: both are functions of the candidate password and
/// the stored hash string alone (the hash string embeds algorithm,
/// parameters and salt). The two calls share this one wrapper because
/// the parsed hash exists only to be handed straight to the verifier.
#[verifier::external_body]
fn argon2_check(password_candidate: &str, expected_password_hash: &str) -> (r: HashVerdict)
    ensures
        r == (if !phc_valid(expected_password_hash@) {
            HashVerdict::BadHash
        } else if password_matches(password_candidate@, expected_password_hash@) {
            HashVerdict::Match
        } else {
            HashVerdict::NoMatch
        }),
{
    let parsed = match argon2::PasswordHash::new(expected_password_hash) {
        Ok(p) => p,
        Err(_) => {
            return HashVerdict::BadHash;
        },
    };
    match argon2::Argon2::default().verify_password(password_candidate.as_bytes(), &parsed) {
        Ok(()) => HashVerdict::Match,
        Err(_) => HashVerdict::NoMatch,
    }
}

/// Checks a candidate password against a stored PHC-format hash.
/// A malformed stored hash is an operational fault; a mismatch is the
/// expected user error.
pub fn verify_password_hash(expected_password_hash: &str, password_candidate: &str) -> (r: Result<
    (),
    AuthError,
>)
    ensures
        r is Ok <==> phc_valid(expected_password_hash@) && password_matches(
            password_candidate@,
            expected_password_hash@,
        ),
        r == Err::<(), AuthError>(AuthError::UnexpectedError) <==> !phc_valid(
            expected_password_hash@,
        ),
        r == Err::<(), AuthError>(AuthError::InvalidCredentials) <==> phc_valid(
            expected_password_hash@,
        ) && !password_matches(password_candidate@, expected_password_hash@),
{
    match argon2_check(password_candidate, expected_password_hash) {
        HashVerdict::BadHash => Err(AuthError::UnexpectedError),
        HashVerdict::Match => Ok(()),
        HashVerdict::NoMatch => Err(AuthError::InvalidCredentials),
    }
}

/// A credentials row as the store holds it.
pub struct StoredCredentials {
    pub user_id: u128,
    pub password_hash: String,
}

/// The precomputed hash compared against when the username is unknown,
/// so that the unknown-user path costs a full hash comparison too.
pub open spec fn fallback_hash() -> Seq<char> {
    "$argon2id$v=19$m=15000,t=2,p=1$gZiV/M1gPc22ElAH/Jh1Hw$CWOrkoo7oJBQ/iyh7uJ0LO2aLEfrHwTWllSAxT0zRno"@
}

fn fallback_hash_str() -> (r: &'static str)
    ensures
        r@ == fallback_hash(),
{
    "$argon2id$v=19$m=15000,t=2,p=1$gZiV/M1gPc22ElAH/Jh1Hw$CWOrkoo7oJBQ/iyh7uJ0LO2aLEfrHwTWllSAxT0zRno"
}

/// Verifies a credential pair against what the store returned for the
/// username. When the username is unknown (`stored` is `None`) the
/// comparison still runs, against a fixed dummy hash, and fails with
/// the same `InvalidCredentials` as a wrong password would: the two
/// cases are indistinguishable to the caller.
pub fn validate_credentials(credentials: &Credentials, stored: Option<StoredCredentials>) -> (r:
    Result<u128, AuthError>)
    ensures
        stored matches Some(sc) ==> {
            &&& r is Ok <==> phc_valid(sc.password_hash@) && password_matches(
                credentials.password@,
                sc.password_hash@,
            )
            &&& r matches Ok(uid) ==> uid == sc.user_id
            &&& r == Err::<u128, AuthError>(AuthError::UnexpectedError) <==> !phc_valid(
                sc.password_hash@,
            )
        },
        stored is None ==> {
            &&& r is Err
            &&& r == Err::<u128, AuthError>(AuthError::UnexpectedError) <==> !phc_valid(
                fallback_hash(),
            )
            &&& r == Err::<u128, AuthError>(AuthError::InvalidCredentials) <==> phc_valid(
                fallback_hash(),
            )
        },
{
    let (user_id, expected_hash): (Option<u128>, &str) = match &stored {
        Some(sc) => (Some(sc.user_id), sc.password_hash.as_str()),
        None => (None, fallback_hash_str()),
    };
    match verify_password_hash(expected_hash, credentials.password.as_str()) {
        Err(e) => Err(e),
        Ok(()) => match user_id {
            Some(uid) => Ok(uid),
            None => Err(AuthError::InvalidCredentials),
        },
    }
}

} // verus!
