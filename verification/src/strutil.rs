//! Small verified helpers on strings that the rest of the crate shares.

use vstd::prelude::*;

use crate::chars::is_whitespace_char;
use crate::chars::unicode_whitespace;

verus! {

/// The string with its leading whitespace removed.
pub open spec fn trim_front_spec(s: Seq<char>) -> Seq<char>
    decreases s.len(),
{
    if s.len() == 0 {
        s
    } else if unicode_whitespace(s[0]) {
        trim_front_spec(s.drop_first())
    } else {
        s
    }
}

/// The string with its trailing whitespace removed.
pub open spec fn trim_back_spec(s: Seq<char>) -> Seq<char>
    decreases s.len(),
{
    if s.len() == 0 {
        s
    } else if unicode_whitespace(s.last()) {
        trim_back_spec(s.drop_last())
    } else {
        s
    }
}

/// The string with whitespace removed from both ends.
pub open spec fn trimmed(s: Seq<char>) -> Seq<char> {
    trim_back_spec(trim_front_spec(s))
}

/// Removes leading and trailing whitespace, character by character.
pub fn trim_str(s: &str) -> (r: &str)
    ensures
        r@ == trimmed(s@),
{
    let len = s.unicode_len();
    proof {
        assert(s@.skip(0) =~= s@);
    }
    let mut a: usize = 0;
    while a < len && is_whitespace_char(s.get_char(a))
        invariant
            a <= len,
            len == s@.len(),
            trim_front_spec(s@) == trim_front_spec(s@.skip(a as int)),
        decreases len - a,
    {
        proof {
            assert(s@.skip(a as int).drop_first() =~= s@.skip(a + 1));
        }
        a = a + 1;
    }
    proof {
        if a < len {
            assert(!unicode_whitespace(s@.skip(a as int)[0]));
        } else {
            assert(s@.skip(a as int).len() == 0);
        }
        assert(trim_front_spec(s@) == s@.skip(a as int));
    }
    let ghost t = s@.skip(a as int);
    proof {
        assert(t.take(len - a) =~= t);
    }
    let mut b: usize = len;
    while b > a && is_whitespace_char(s.get_char(b - 1))
        invariant
            a <= b <= len,
            len == s@.len(),
            t == s@.skip(a as int),
            trim_back_spec(t) == trim_back_spec(t.take(b - a)),
        decreases b,
    {
        proof {
            assert(t.take(b - a).last() == s@[b - 1]);
            assert(t.take(b - a).drop_last() =~= t.take(b - a - 1));
        }
        b = b - 1;
    }
    proof {
        if b > a {
            assert(t.take(b - a).last() == s@[b - 1]);
            assert(!unicode_whitespace(t.take(b - a).last()));
        } else {
            assert(t.take(b - a).len() == 0);
        }
        assert(trim_back_spec(t) == t.take(b - a));
    }
    let r = s.substring_char(a, b);
    proof {
        assert(r@ =~= t.take(b - a));
    }
    r
}

/// Compares two string slices character by character.
///
/// Rust's `==` on `&str` carries no specification here, so the crate
/// compares through this helper wherever a contract depends on the result.
pub fn str_eq(a: &str, b: &str) -> (r: bool)
    ensures
        r <==> a@ == b@,
{
    let a_len = a.unicode_len();
    let b_len = b.unicode_len();
    if a_len != b_len {
        assert(a@ != b@);
        return false;
    }
    let mut i: usize = 0;
    while i < a_len
        invariant
            i <= a_len,
            a_len == a@.len(),
            a_len == b@.len(),
            forall|j: int| 0 <= j < i ==> a@[j] == b@[j],
        decreases a_len - i,
    {
        if a.get_char(i) != b.get_char(i) {
            assert(a@[i as int] != b@[i as int]);
            return false;
        }
        i = i + 1;
    }
    assert(a@ =~= b@);
    true
}

} // verus!
