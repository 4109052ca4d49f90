//! Checks that a configured transport URL is usable and uses TLS.

use crate::error::{Error, Result};
use crate::text::{chars_of, is_digit, str_eq};
use vstd::prelude::*;
use vstd::string::StringExecFns;

verus! {

/// An ASCII letter.
pub open spec fn is_ascii_letter(c: char) -> bool {
    ('a' <= c && c <= 'z') || ('A' <= c && c <= 'Z')
}

/// A character that may stand in a URL scheme: a letter, a digit, `+`, `-` or `.`.
pub open spec fn is_scheme_char(c: char) -> bool {
    is_ascii_letter(c) || is_digit(c) || c == '+' || c == '-' || c == '.'
}

/// A URL scheme: a letter, then letters, digits, `+`, `-` or `.`.
pub open spec fn is_scheme(s: Seq<char>) -> bool {
    &&& s.len() > 0
    &&& is_ascii_letter(s[0])
    &&& forall|i: int| 0 <= i < s.len() ==> is_scheme_char(#[trigger] s[i])
}

/// The URL starts with a scheme of `k` characters, then `://`, then at least
/// one more character.
pub open spec fn scheme_ends_at(url: Seq<char>, k: int) -> bool {
    &&& 0 < k
    &&& k + 3 < url.len()
    &&& is_scheme(url.take(k))
    &&& url[k] == ':'
    &&& url[k + 1] == '/'
    &&& url[k + 2] == '/'
}

/// The scheme of a URL of the form `scheme://rest` with a non-empty rest,
/// or nothing when the URL does not have that form.
pub open spec fn url_scheme(url: Seq<char>) -> Option<Seq<char>> {
    if exists|k: int| scheme_ends_at(url, k) {
        Some(url.take(choose|k: int| scheme_ends_at(url, k)))
    } else {
        None
    }
}

/// A URL has its scheme at one place only: `:` cannot stand in a scheme.
pub proof fn lemma_scheme_end_unique(url: Seq<char>, k1: int, k2: int)
    requires
        scheme_ends_at(url, k1),
        scheme_ends_at(url, k2),
    ensures
        k1 == k2,
{
    if k1 < k2 {
        assert(url.take(k2)[k1] == url[k1]);
        assert(is_scheme_char(url.take(k2)[k1]));
    } else if k2 < k1 {
        assert(url.take(k1)[k2] == url[k2]);
        assert(is_scheme_char(url.take(k1)[k2]));
    }
}

/// Finds the scheme of a URL of the form `scheme://rest`.
pub fn scheme_of(url: &str) -> (r: Option<String>)
    ensures
        r.deep_view() == url_scheme(url@),
{
    let chars = chars_of(url);
    let n = chars.len();
    let mut k: usize = 0;
    while k < n && (('a' <= chars[k] && chars[k] <= 'z') || ('A' <= chars[k] && chars[k] <= 'Z')
        || ('0' <= chars[k] && chars[k] <= '9') || chars[k] == '+' || chars[k] == '-' || chars[k] == '.')
        invariant
            chars@ == url@,
            n == chars@.len(),
            k <= n,
            forall|i: int| 0 <= i < k ==> is_scheme_char(#[trigger] chars@[i]),
        decreases n - k,
    {
        k = k + 1;
    }
    let found = k > 0 && k < n && n - k > 3 && (('a' <= chars[0] && chars[0] <= 'z') || ('A' <= chars[0] && chars[0] <= 'Z'))
        && chars[k] == ':' && chars[k + 1] == '/' && chars[k + 2] == '/';
    if found {
        let mut scheme = String::new();
        let mut i: usize = 0;
        while i < k
            invariant
                i <= k,
                k < n,
                n == chars@.len(),
                scheme@ == chars@.take(i as int),
            decreases k - i,
        {
            scheme.push(chars[i]);
            assert(scheme@ =~= chars@.take(i + 1));
            i = i + 1;
        }
        proof {
            assert(scheme_ends_at(url@, k as int));
            let j = choose|j: int| scheme_ends_at(url@, j);
            lemma_scheme_end_unique(url@, j, k as int);
        }
        Some(scheme)
    } else {
        proof {
            if exists|j: int| scheme_ends_at(url@, j) {
                let j = choose|j: int| scheme_ends_at(url@, j);
                if j < k {
                    assert(is_scheme_char(chars@[j]));
                } else if j > k {
                    assert(url@.take(j)[k as int] == url@[k as int]);
                    assert(is_scheme_char(url@.take(j)[k as int]));
                } else {
                    assert(url@.take(j)[0] == url@[0]);
                }
                assert(false);
            }
        }
        None
    }
}

/// The URL is acceptable: its scheme is the secure one, or the insecure one
/// when insecure transport is allowed.
pub open spec fn scheme_accepted(scheme: Seq<char>, secure: Seq<char>, insecure: Seq<char>, allow_insecure: bool) -> bool {
    scheme == secure || (allow_insecure && scheme == insecure)
}

/// Checks a configured transport URL: `InvalidUrl` unless it has the form
/// `scheme://rest`; `InsecureTransport` unless its scheme is the secure one,
/// or the insecure one while insecure transport is allowed.
pub fn validate_transport_url(
    url: &str,
    transport: &str,
    secure_scheme: &str,
    insecure_scheme: &str,
    allow_insecure: bool,
) -> (r: Result<()>)
    ensures
        url_scheme(url@) is None ==> (r matches Err(Error::InvalidUrl { transport: t }) && t@ == transport@),
        url_scheme(url@) matches Some(s) ==> (scheme_accepted(s, secure_scheme@, insecure_scheme@, allow_insecure)
            ==> r is Ok),
        url_scheme(url@) matches Some(s) ==> (!scheme_accepted(s, secure_scheme@, insecure_scheme@, allow_insecure)
            ==> (r matches Err(Error::InsecureTransport { transport: t, required_scheme: q })
            && t@ == transport@ && q@ == secure_scheme@)),
{
    match scheme_of(url) {
        None => Err(Error::InvalidUrl { transport: String::from_str(transport) }),
        Some(scheme) => {
            if str_eq(scheme.as_str(), secure_scheme) || (allow_insecure && str_eq(scheme.as_str(), insecure_scheme)) {
                Ok(())
            } else {
                Err(Error::InsecureTransport {
                    transport: String::from_str(transport),
                    required_scheme: String::from_str(secure_scheme),
                })
            }
        },
    }
}

} // verus!
