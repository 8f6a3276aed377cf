//! Resolving and normalizing the server address.
//!
//! An address is normalized so that it begins with `http://` and ends with
//! `/`. The scheme check is a literal prefix match: an address that already
//! starts with `http://` is left alone, and any other address (including one
//! with a different scheme) gets `http://` prepended.

use vstd::prelude::*;

verus! {

/// The scheme prefix that the client recognizes on a server address.
pub open spec fn scheme_prefix() -> Seq<char> {
    "http://"@
}

/// The address used when neither a flag nor the environment provides one.
pub open spec fn default_server_addr() -> Seq<char> {
    "http://localhost:9999"@
}

/// The address with the scheme prefix prepended when it is missing.
pub open spec fn with_scheme(s: Seq<char>) -> Seq<char> {
    if scheme_prefix().is_prefix_of(s) {
        s
    } else {
        scheme_prefix() + s
    }
}

/// The address with a single `/` appended when it does not end in one.
pub open spec fn with_trailing_slash(s: Seq<char>) -> Seq<char> {
    if s.len() > 0 && s.last() == '/' {
        s
    } else {
        s + "/"@
    }
}

/// A fully normalized server address.
pub open spec fn normalized_addr(s: Seq<char>) -> Seq<char> {
    with_trailing_slash(with_scheme(s))
}

/// Whether `prefix@` is a prefix of `s@`, checked character by character.
pub fn str_starts_with(s: &str, prefix: &str) -> (r: bool)
    ensures
        r == prefix@.is_prefix_of(s@),
{
    let n: usize = s.unicode_len();
    let m: usize = prefix.unicode_len();
    if m > n {
        return false;
    }
    let mut i: usize = 0;
    while i < m
        invariant
            m <= n,
            n == s@.len(),
            m == prefix@.len(),
            i <= m,
            forall|j: int| 0 <= j < i ==> s@[j] == prefix@[j],
        decreases m - i,
    {
        if s.get_char(i) != prefix.get_char(i) {
            assert(s@.subrange(0, m as int)[i as int] != prefix@[i as int]);
            return false;
        }
        i += 1;
    }
    assert(prefix@ =~= s@.subrange(0, m as int));
    true
}

/// Whether `s@` is non-empty and its last character is `c`.
pub fn str_ends_with_char(s: &str, c: char) -> (r: bool)
    ensures
        r == (s@.len() > 0 && s@.last() == c),
{
    let n: usize = s.unicode_len();
    if n == 0 {
        false
    } else {
        s.get_char(n - 1) == c
    }
}

/// Normalizes a server address: prepends `http://` when the address does not
/// already start with it, then appends `/` when the address does not already
/// end with it.
pub fn fix_server_addr(server_addr: String) -> (r: String)
    ensures
        r@ == normalized_addr(server_addr@),
{
    let with_scheme_addr: String = if str_starts_with(server_addr.as_str(), "http://") {
        server_addr
    } else {
        let mut t: String = String::from_str("http://");
        t.append(server_addr.as_str());
        t
    };
    if str_ends_with_char(with_scheme_addr.as_str(), '/') {
        with_scheme_addr
    } else {
        let mut t: String = with_scheme_addr;
        t.append("/");
        t
    }
}

/// The address that wins before normalization: an explicit flag beats the
/// environment, which beats the built-in default.
pub open spec fn chosen_addr(explicit: Option<String>, env_value: Option<String>) -> Seq<char> {
    match explicit {
        Some(s) => s@,
        None => match env_value {
            Some(e) => e@,
            None => default_server_addr(),
        },
    }
}

/// Resolves the server address from an optional explicit flag and an optional
/// environment value, then normalizes it.
pub fn resolve_server_addr(explicit: Option<String>, env_value: Option<String>) -> (r: String)
    ensures
        r@ == normalized_addr(chosen_addr(explicit, env_value)),
{
    match explicit {
        Some(s) => fix_server_addr(s),
        None => match env_value {
            Some(e) => fix_server_addr(e),
            None => fix_server_addr(String::from_str("http://localhost:9999")),
        },
    }
}

/// A normalized address always starts with the scheme prefix and always ends
/// with a slash.
pub proof fn lemma_normalized_has_scheme_and_slash(s: Seq<char>)
    ensures
        scheme_prefix().is_prefix_of(normalized_addr(s)),
        normalized_addr(s).len() > 0,
        normalized_addr(s).last() == '/',
{
    reveal_strlit("http://");
    reveal_strlit("/");
    let p = scheme_prefix();
    let w = with_scheme(s);
    assert(p.is_prefix_of(w)) by {
        if !p.is_prefix_of(s) {
            assert((p + s).subrange(0, p.len() as int) =~= p);
        }
    }
    if !(w.len() > 0 && w.last() == '/') {
        assert((w + "/"@).subrange(0, p.len() as int) =~= w.subrange(0, p.len() as int));
        assert((w + "/"@).last() == '/');
    }
}

/// Normalizing twice is the same as normalizing once.
pub proof fn lemma_normalize_idempotent(s: Seq<char>)
    ensures
        normalized_addr(normalized_addr(s)) == normalized_addr(s),
{
    lemma_normalized_has_scheme_and_slash(s);
}

/// Exactly what normalization produces, case by case: one scheme prefix is
/// prepended only when missing, and one slash is appended only when missing.
pub proof fn lemma_normalize_exact(s: Seq<char>)
    ensures
        scheme_prefix().is_prefix_of(s) && s.last() == '/' ==> normalized_addr(s) == s,
        scheme_prefix().is_prefix_of(s) && s.last() != '/' ==> normalized_addr(s) == s + "/"@,
        !scheme_prefix().is_prefix_of(s) && s.len() == 0 ==> normalized_addr(s) == scheme_prefix(),
        !scheme_prefix().is_prefix_of(s) && s.len() > 0 && s.last() == '/' ==> normalized_addr(s)
            == scheme_prefix() + s,
        !scheme_prefix().is_prefix_of(s) && s.len() > 0 && s.last() != '/' ==> normalized_addr(s)
            == (scheme_prefix() + s) + "/"@,
{
    reveal_strlit("http://");
    reveal_strlit("/");
    let p = scheme_prefix();
    if p.is_prefix_of(s) {
        assert(s.len() >= p.len());
        assert(p.len() == 7);
    } else {
        if s.len() == 0 {
            assert(p + s =~= p);
            assert((p + s).last() == '/');
        } else {
            assert((p + s).last() == s.last());
        }
    }
}

} // verus!
