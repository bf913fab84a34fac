//! Content-derived storage keys and mirror locations for media.

use vstd::prelude::*;
use vstd::string::*;
use crate::digest::{hex_spec, sha256, sha256_hex};
use crate::uri::{resolve_spec, resolve_uri};

verus! {

/// The position of the last `.` in `s`, or -1 where there is none.
pub open spec fn last_dot(s: Seq<char>) -> int
    decreases s.len(),
{
    if s.len() == 0 {
        -1
    } else if s.last() == '.' {
        s.len() - 1
    } else {
        last_dot(s.drop_last())
    }
}

/// What follows the last `.` of `s`; empty where `s` has no `.`.
pub open spec fn suffix_after_dot(s: Seq<char>) -> Seq<char> {
    if last_dot(s) < 0 {
        Seq::empty()
    } else {
        s.skip(last_dot(s) + 1)
    }
}

/// The file extension of a resolved location: what follows its last `.`,
/// unless that is empty or runs across a path separator, in which case `bin`.
pub open spec fn extension_spec(resolved: Seq<char>) -> Seq<char> {
    let tail = suffix_after_dot(resolved);
    if tail.len() == 0 || tail.contains('/') || tail.contains('\\') {
        "bin"@
    } else {
        tail
    }
}

/// The storage key of a media URL: the digest of the URL as written (its
/// UTF-8 bytes), in hexadecimal, a dot, and the extension of the resolved
/// location.
pub open spec fn storage_key_spec(url: Seq<char>, resolved: Seq<char>) -> Seq<char> {
    hex_spec(sha256(vstd::utf8::encode_utf8(url))) + "."@ + extension_spec(resolved)
}

/// The public location of an object in a bucket.
pub open spec fn mirror_url_spec(bucket: Seq<char>, key: Seq<char>) -> Seq<char> {
    "https://"@ + bucket + ".s3.amazonaws.com/"@ + key
}

/// The last `.` of `s` is at `k` when a `.` stands there (or `k` is -1) and
/// none stands after it.
pub proof fn lemma_last_dot_is(s: Seq<char>, k: int)
    requires
        -1 <= k < s.len(),
        k >= 0 ==> s[k] == '.',
        forall|j: int| k < j < s.len() ==> s[j] != '.',
    ensures
        last_dot(s) == k,
    decreases s.len(),
{
    if s.len() > 0 && k < s.len() - 1 {
        lemma_last_dot_is(s.drop_last(), k);
    }
}

/// The character at place `i`. Where the caller knows the text to be ASCII
/// the character is read from its byte, without decoding what precedes it.
fn char_at(s: &str, ascii: bool, i: usize) -> (c: char)
    requires
        i < s@.len(),
        ascii ==> is_ascii(s),
    ensures
        c == s@[i as int],
{
    if ascii {
        let b: u8 = s.get_ascii(i);
        assert('\0' <= s@[i as int] <= '\u{7f}');
        b as char
    } else {
        s.get_char(i)
    }
}

/// The file extension that a resolved location is stored under.
pub fn extension_of(resolved: &str) -> (out: String)
    ensures
        out@ == extension_spec(resolved@),
{
    let ascii: bool = resolved.is_ascii();
    let n: usize = resolved.unicode_len();
    let mut i: usize = n;
    let mut found: bool = false;
    while i > 0 && !found
        invariant
            i <= n,
            n == resolved@.len(),
            ascii ==> is_ascii(resolved),
            found ==> i < n && resolved@[i as int] == '.',
            forall|j: int| (if found { i + 1 } else { i as int }) <= j < n ==> resolved@[j] != '.',
        decreases i + (if found { 0int } else { 1int }),
    {
        i -= 1;
        if char_at(resolved, ascii, i) == '.' {
            found = true;
        }
    }
    if !found {
        proof {
            lemma_last_dot_is(resolved@, -1);
        }
        return "bin".to_owned();
    }
    proof {
        lemma_last_dot_is(resolved@, i as int);
    }
    let tail = resolved.substring_char(i + 1, n);
    assert(tail@ == suffix_after_dot(resolved@));
    assert(ascii ==> is_ascii(tail)) by {
        if ascii {
            assert forall|j: int| 0 <= j < tail@.len() implies '\0' <= #[trigger] tail@[j]
                <= '\u{7f}' by {
                assert(tail@[j] == resolved@[i + 1 + j]);
            }
        }
    }
    let m: usize = n - (i + 1);
    if m == 0 {
        return "bin".to_owned();
    }
    let mut k: usize = 0;
    while k < m
        invariant
            k <= m,
            m == tail@.len(),
            m > 0,
            ascii ==> is_ascii(tail),
            tail@ == suffix_after_dot(resolved@),
            forall|j: int| 0 <= j < k ==> tail@[j] != '/' && tail@[j] != '\\',
        decreases m - k,
    {
        let c = char_at(tail, ascii, k);
        if c == '/' || c == '\\' {
            assert(tail@[k as int] == c);
            assert(tail@.contains('/') || tail@.contains('\\'));
            return "bin".to_owned();
        }
        k += 1;
    }
    tail.to_owned()
}

/// The key under which the bytes behind `url` are stored, given the location
/// that `url` resolves to.
pub fn storage_key(url: &str, resolved: &str) -> (out: String)
    ensures
        out@ == storage_key_spec(url@, resolved@),
{
    let digest = sha256_hex(url.as_bytes());
    let ext = extension_of(resolved);
    digest.concat(".").concat(ext.as_str())
}

/// The location at which an object stored under `key` in `bucket` is read.
pub fn mirror_url(bucket: &str, key: &str) -> (out: String)
    ensures
        out@ == mirror_url_spec(bucket@, key@),
{
    "https://".to_owned().concat(bucket).concat(".s3.amazonaws.com/").concat(key)
}

/// An upload that mirrors one media URL.
pub struct UploadPlan {
    /// The bucket to write to.
    pub bucket: String,
    /// The object's key.
    pub key: String,
    /// Where the object is read once written.
    pub cached_url: String,
    /// The location the bytes were fetched from.
    pub resolved_url: String,
}

impl UploadPlan {
    /// The plan that mirrors `url` into `bucket`.
    pub open spec fn is_plan_for(self, url: Seq<char>, bucket: Seq<char>) -> bool {
        &&& self.bucket@ == bucket
        &&& self.resolved_url@ == resolve_spec(url)
        &&& self.key@ == storage_key_spec(url, resolve_spec(url))
        &&& self.cached_url@ == mirror_url_spec(bucket, self.key@)
    }
}

/// Plans the upload that mirrors `url` into `bucket`.
pub fn plan_upload(url: &str, bucket: &str) -> (out: UploadPlan)
    ensures
        out.is_plan_for(url@, bucket@),
{
    let resolved_url = resolve_uri(url);
    let key = storage_key(url, resolved_url.as_str());
    let cached_url = mirror_url(bucket, key.as_str());
    UploadPlan { bucket: bucket.to_owned(), key, cached_url, resolved_url }
}

/// Mirroring the same URL into the same bucket again gives the same key and
/// the same mirror location.
pub proof fn lemma_mirror_is_stable(
    first: UploadPlan,
    second: UploadPlan,
    url: Seq<char>,
    bucket: Seq<char>,
)
    requires
        first.is_plan_for(url, bucket),
        second.is_plan_for(url, bucket),
    ensures
        first.key@ == second.key@,
        first.cached_url@ == second.cached_url@,
{
}

} // verus!
