//! The small configuration vocabulary the service understands: which
//! environment it runs in and which delivery service relays its mail.

use vstd::prelude::*;
use vstd::string::StringExecFns;

use crate::strutil::str_eq;

verus! {

/// The uppercase form of an ASCII lowercase letter; anything else is
/// itself.
pub open spec fn upper_ascii(c: char) -> char {
    match c {
        'a' => 'A',
        'b' => 'B',
        'c' => 'C',
        'd' => 'D',
        'e' => 'E',
        'f' => 'F',
        'g' => 'G',
        'h' => 'H',
        'i' => 'I',
        'j' => 'J',
        'k' => 'K',
        'l' => 'L',
        'm' => 'M',
        'n' => 'N',
        'o' => 'O',
        'p' => 'P',
        'q' => 'Q',
        'r' => 'R',
        's' => 'S',
        't' => 'T',
        'u' => 'U',
        'v' => 'V',
        'w' => 'W',
        'x' => 'X',
        'y' => 'Y',
        'z' => 'Z',
        _ => c,
    }
}

/// The string equals the lowercase keyword up to ASCII case.
pub open spec fn matches_keyword_ci(s: Seq<char>, w: Seq<char>) -> bool {
    s.len() == w.len() && forall|i: int|
        0 <= i < s.len() ==> ((#[trigger] s[i]) == w[i] || s[i] == upper_ascii(w[i]))
}

fn upper_ascii_char(c: char) -> (r: char)
    ensures
        r == upper_ascii(c),
{
    match c {
        'a' => 'A',
        'b' => 'B',
        'c' => 'C',
        'd' => 'D',
        'e' => 'E',
        'f' => 'F',
        'g' => 'G',
        'h' => 'H',
        'i' => 'I',
        'j' => 'J',
        'k' => 'K',
        'l' => 'L',
        'm' => 'M',
        'n' => 'N',
        'o' => 'O',
        'p' => 'P',
        'q' => 'Q',
        'r' => 'R',
        's' => 'S',
        't' => 'T',
        'u' => 'U',
        'v' => 'V',
        'w' => 'W',
        'x' => 'X',
        'y' => 'Y',
        'z' => 'Z',
        _ => c,
    }
}

/// Compares a string against a lowercase keyword, ignoring ASCII case.
fn eq_keyword_ci(s: &str, w: &str) -> (r: bool)
    ensures
        r == matches_keyword_ci(s@, w@),
{
    let s_len = s.unicode_len();
    let w_len = w.unicode_len();
    if s_len != w_len {
        return false;
    }
    let mut i: usize = 0;
    while i < s_len
        invariant
            i <= s_len,
            s_len == s@.len(),
            s_len == w@.len(),
            forall|j: int| 0 <= j < i ==> ((#[trigger] s@[j]) == w@[j] || s@[j] == upper_ascii(w@[j])),
        decreases s_len - i,
    {
        let sc = s.get_char(i);
        let wc = w.get_char(i);
        if !(sc == wc || sc == upper_ascii_char(wc)) {
            return false;
        }
        i = i + 1;
    }
    true
}

/// Which environment the application runs in.
#[derive(PartialEq, Eq, Structural, Clone, Copy, Debug)]
pub enum Environment {
    Local,
    Production,
}

impl Environment {
    pub fn as_str(&self) -> (r: &'static str)
        ensures
            r@ == (match self {
                Environment::Local => "local"@,
                Environment::Production => "production"@,
            }),
    {
        match self {
            Environment::Local => "local",
            Environment::Production => "production",
        }
    }

    /// Reads an environment name, any ASCII casing accepted.
    pub fn parse(s: &str) -> (r: Result<Environment, String>)
        ensures
            r == Ok::<Environment, String>(Environment::Local) <==> matches_keyword_ci(
                s@,
                "local"@,
            ),
            r == Ok::<Environment, String>(Environment::Production) <==> matches_keyword_ci(
                s@,
                "production"@,
            ) && !matches_keyword_ci(s@, "local"@),
            r matches Err(m) ==> m@ == s@
                + " is not a supported environment. Use either `local` or `production`."@,
    {
        if eq_keyword_ci(s, "local") {
            Ok(Environment::Local)
        } else if eq_keyword_ci(s, "production") {
            Ok(Environment::Production)
        } else {
            let m = s.to_owned().concat(
                " is not a supported environment. Use either `local` or `production`.",
            );
            Err(m)
        }
    }
}

/// Which outside service relays the mail.
#[derive(PartialEq, Eq, Structural, Clone, Copy, Debug)]
pub enum EmailDeliveryService {
    Postmark,
    SMTP,
}

impl EmailDeliveryService {
    /// Reads a service name; the two spellings the configuration files
    /// use are accepted for each.
    pub fn parse(value: &str) -> (r: Result<EmailDeliveryService, String>)
        ensures
            r == Ok::<EmailDeliveryService, String>(EmailDeliveryService::Postmark) <==> value@
                == "postmark"@ || value@ == "Postmark"@,
            r == Ok::<EmailDeliveryService, String>(EmailDeliveryService::SMTP) <==> value@
                == "smtp"@ || value@ == "SMTP"@,
            r matches Err(m) ==> m@ == "Can't construct EmailDeliveryService type from "@
                + value@,
    {
        proof {
            reveal_strlit("postmark");
            reveal_strlit("Postmark");
            reveal_strlit("smtp");
            reveal_strlit("SMTP");
        }
        if str_eq(value, "postmark") || str_eq(value, "Postmark") {
            proof {
                assert(value@ == "postmark"@ || value@ == "Postmark"@);
                assert("postmark"@.len() == 8 && "Postmark"@.len() == 8);
                assert("smtp"@.len() == 4 && "SMTP"@.len() == 4);
                assert(value@ != "smtp"@ && value@ != "SMTP"@);
            }
            Ok(EmailDeliveryService::Postmark)
        } else if str_eq(value, "smtp") || str_eq(value, "SMTP") {
            Ok(EmailDeliveryService::SMTP)
        } else {
            let m = String::from_str("Can't construct EmailDeliveryService type from ").concat(
                value,
            );
            Err(m)
        }
    }
}

} // verus!
