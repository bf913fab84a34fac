//! Resolution of scheme-qualified URIs into fetchable locations.

use vstd::prelude::*;
use vstd::string::*;

verus! {

/// `p` is a prefix of `s`.
pub open spec fn has_prefix(s: Seq<char>, p: Seq<char>) -> bool {
    p.len() <= s.len() && s.subrange(0, p.len() as int) == p
}

/// The fetch location of a URI: content-addressed and permaweb schemes are
/// rewritten to their public gateways, anything else is left as it is.
pub open spec fn resolve_spec(uri: Seq<char>) -> Seq<char> {
    if has_prefix(uri, "ipfs://"@) {
        "https://ipfs.io/ipfs/"@ + uri.skip("ipfs://"@.len() as int)
    } else if has_prefix(uri, "ar://"@) {
        "https://arweave.net/"@ + uri.skip("ar://"@.len() as int)
    } else {
        uri
    }
}

/// Whether `s` begins with `prefix`, character by character.
pub fn starts_with(s: &str, prefix: &str) -> (b: bool)
    ensures
        b == has_prefix(s@, prefix@),
{
    let n: usize = s.unicode_len();
    let m: usize = prefix.unicode_len();
    if m > n {
        return false;
    }
    let mut i: usize = 0;
    while i < m
        invariant
            i <= m <= n,
            n == s@.len(),
            m == prefix@.len(),
            forall|j: int| 0 <= j < i ==> s@[j] == prefix@[j],
        decreases m - i,
    {
        if s.get_char(i) != prefix.get_char(i) {
            assert(s@.subrange(0, m as int)[i as int] == s@[i as int]);
            return false;
        }
        i += 1;
    }
    assert(s@.subrange(0, m as int) =~= prefix@);
    true
}

/// Maps a URI to the location it is fetched from.
pub fn resolve_uri(uri: &str) -> (out: String)
    ensures
        out@ == resolve_spec(uri@),
{
    let n: usize = uri.unicode_len();
    if starts_with(uri, "ipfs://") {
        proof {
            reveal_strlit("ipfs://");
        }
        let rest = uri.substring_char(7, n);
        String::from_str("https://ipfs.io/ipfs/").concat(rest)
    } else if starts_with(uri, "ar://") {
        proof {
            reveal_strlit("ar://");
        }
        let rest = uri.substring_char(5, n);
        String::from_str("https://arweave.net/").concat(rest)
    } else {
        uri.to_owned()
    }
}

/// A URI that carries neither rewritten scheme resolves to itself.
pub proof fn lemma_resolve_unmatched(uri: Seq<char>)
    requires
        !has_prefix(uri, "ipfs://"@),
        !has_prefix(uri, "ar://"@),
    ensures
        resolve_spec(uri) == uri,
{
}

/// A resolved location carries neither rewritten scheme.
pub proof fn lemma_resolved_is_plain(uri: Seq<char>)
    requires
        has_prefix(uri, "ipfs://"@) || has_prefix(uri, "ar://"@),
    ensures
        !has_prefix(resolve_spec(uri), "ipfs://"@),
        !has_prefix(resolve_spec(uri), "ar://"@),
{
    reveal_strlit("ipfs://");
    reveal_strlit("ar://");
    reveal_strlit("https://ipfs.io/ipfs/");
    reveal_strlit("https://arweave.net/");
    let out = resolve_spec(uri);
    assert(out[0] == 'h');
    assert(out.subrange(0, 7)[0] == out[0]);
    assert(out.subrange(0, 5)[0] == out[0]);
    assert("ipfs://"@[0] == 'i');
    assert("ar://"@[0] == 'a');
}

/// Resolving is idempotent: resolving a resolved location changes nothing.
pub proof fn lemma_resolve_idempotent(uri: Seq<char>)
    ensures
        resolve_spec(resolve_spec(uri)) == resolve_spec(uri),
{
    if has_prefix(uri, "ipfs://"@) || has_prefix(uri, "ar://"@) {
        lemma_resolved_is_plain(uri);
    }
}

} // verus!
