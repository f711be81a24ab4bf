//! Building the query strings of URLs and the bodies of form-encoded requests.
use vstd::prelude::*;
use vstd::string::{StrSliceExecFns, StringExecFns};

verus! {

/// What `push_param_query` puts between the string and the new pair: `?` when
/// the string holds no `?` yet, and `&` otherwise.
pub open spec fn query_separator(s: Seq<char>) -> Seq<char> {
    if !s.contains('?') {
        seq!['?']
    } else {
        seq!['&']
    }
}

/// `s` with the query parameter `key=value` appended.
pub open spec fn with_query_param(s: Seq<char>, key: Seq<char>, value: Seq<char>) -> Seq<char> {
    s + query_separator(s) + key + seq!['='] + value
}

/// `s` with the body parameter `key=value` appended; body parameters are
/// always introduced by `&`.
pub open spec fn with_body_param(s: Seq<char>, key: Seq<char>, value: Seq<char>) -> Seq<char> {
    s + seq!['&'] + key + seq!['='] + value
}

/// A trait for building query and body parameters in a string.
pub trait ParamBuilder: Sized {
    /// Appends a key-value pair to the string as a query parameter. If the
    /// string doesn't contain any query parameters, it adds a '?' character.
    /// Otherwise, it appends '&'.
    fn push_param_query(self, key: &str, value: &str) -> Self;

    /// Appends a key-value pair to the string as a body parameter.
    /// It always appends '&'.
    fn push_param_body(self, key: &str, value: &str) -> Self;
}

/// Implementation of the `ParamBuilder` trait for the `String` type.
impl ParamBuilder for String {
    fn push_param_query(self, key: &str, value: &str) -> (r: String)
        ensures
            r@ == with_query_param(self@, key@, value@),
    {
        let mut s = self;
        if !str_contains_char(s.as_str(), '?') {
            string_push(&mut s, '?');
        } else {
            string_push(&mut s, '&');
        }
        s.append(key);
        string_push(&mut s, '=');
        s.append(value);
        s
    }

    fn push_param_body(self, key: &str, value: &str) -> (r: String)
        ensures
            r@ == with_body_param(self@, key@, value@),
    {
        let mut s = self;
        string_push(&mut s, '&');
        s.append(key);
        string_push(&mut s, '=');
        s.append(value);
        s
    }
}

/// `String::push`: appends the character at the end (std documentation).
#[verifier::external_body]
fn string_push(s: &mut String, c: char)
    ensures
        final(s)@ == old(s)@.push(c),
{
    s.push(c);
}

/// Whether the character `c` occurs in `s`.
fn str_contains_char(s: &str, c: char) -> (r: bool)
    ensures
        r == s@.contains(c),
{
    let n = s.unicode_len();
    let mut i: usize = 0;
    while i < n
        invariant
            n == s@.len(),
            i <= n,
            forall|j: int| 0 <= j < i ==> s@[j] != c,
        decreases n - i,
    {
        if s.get_char(i) == c {
            assert(s@[i as int] == c);
            return true;
        }
        i = i + 1;
    }
    false
}

} // verus!
