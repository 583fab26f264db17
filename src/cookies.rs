//! Browsers whose cookies a client can be seeded with, and the origin a
//! stored cookie is filed under.
use vstd::prelude::*;

verus! {

/// A browser whose profile holds cookies.
#[derive(Debug, Clone, Copy, PartialEq, Eq, Structural)]
pub enum Browser {
    Brave,
    Chrome,
    Edge,
    Firefox,
    Opera,
    Safari,
}

impl Default for Browser {
    fn default() -> (r: Self)
        ensures
            r == Browser::Firefox,
    {
        Browser::Firefox
    }
}

/// The first index at or after `i` that does not hold a `.`.
pub open spec fn first_non_dot(s: Seq<char>, i: nat) -> nat
    decreases s.len() - i,
{
    if i < s.len() && s[i as int] == '.' {
        first_non_dot(s, i + 1)
    } else {
        i
    }
}

/// `s` without its leading dots.
pub open spec fn trim_leading_dots(s: Seq<char>) -> Seq<char> {
    s.skip(first_non_dot(s, 0) as int)
}

proof fn lemma_first_non_dot_bound(s: Seq<char>, i: nat)
    requires
        i <= s.len(),
    ensures
        i <= first_non_dot(s, i) <= s.len(),
    decreases s.len() - i,
{
    if i < s.len() && s[i as int] == '.' {
        lemma_first_non_dot_bound(s, i + 1);
    }
}

/// The URL a cookie of `domain` and `path` is stored for: the domain
/// without its leading dots, over HTTPS.
pub fn cookie_url(domain: &str, path: &str) -> (r: String)
    ensures
        r@ == "https://"@ + trim_leading_dots(domain@) + path@,
{
    let n = domain.unicode_len();
    let mut i: usize = 0;
    while i < n && domain.get_char(i) == '.'
        invariant
            n == domain@.len(),
            i <= n,
            first_non_dot(domain@, 0) == first_non_dot(domain@, i as nat),
        decreases n - i,
    {
        i = i + 1;
    }
    proof {
        lemma_first_non_dot_bound(domain@, i as nat);
    }
    let host = domain.substring_char(i, n);
    let mut r = String::from_str("https://");
    r.append(host);
    r.append(path);
    r
}

} // verus!
