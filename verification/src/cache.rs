//! Where a candidate is cached: a file in one flat directory, named by the
//! content hash of the candidate's address.

use vstd::prelude::*;
use vstd::utf8::{decode_utf8, encode_utf8, encode_utf8_decode_utf8};

use crate::digest::{
    content_hash_of, digest_text, lemma_content_hash_collides_with_digest, sha256_of,
};
use crate::hex::is_hex_text;

verus! {

/// What every cache file's name ends in.
pub open spec fn extension() -> Seq<char> {
    seq!['.', 'i', 'c', 'o']
}

/// The cache key of the candidate at `url`: the content hash of the address,
/// character for character as it was tried.
pub open spec fn cache_key_of(url: Seq<char>) -> Seq<char> {
    content_hash_of(url)
}

/// The name of the cache file of the candidate at `url`.
pub open spec fn entry_name_of(url: Seq<char>) -> Seq<char> {
    cache_key_of(url) + extension()
}

/// The path of the file `name` in `directory`. One `/` parts the two, unless
/// the directory is the empty path or ends in one.
pub open spec fn joined(directory: Seq<char>, name: Seq<char>) -> Seq<char> {
    if directory.len() == 0 || directory.last() == '/' {
        directory + name
    } else {
        directory + seq!['/'] + name
    }
}

/// The path of the cache file of the candidate at `url`, in `directory`.
pub open spec fn entry_path_of(directory: Seq<char>, url: Seq<char>) -> Seq<char> {
    joined(directory, entry_name_of(url))
}

/// The cache key of the candidate at `url`: 64 hexadecimal digits.
pub fn cache_key(url: &str) -> (key: String)
    ensures
        key@ == cache_key_of(url@),
        key@.len() == 64,
        is_hex_text(key@),
{
    digest_text(url.as_bytes())
}

/// The name of the cache file of the candidate at `url`.
pub fn entry_name(url: &str) -> (name: String)
    ensures
        name@ == entry_name_of(url@),
        name@.len() == 68,
{
    proof {
        reveal_strlit(".ico");
        assert(".ico"@ =~= extension());
    }
    let mut name = cache_key(url);
    name.append(".ico");
    name
}

/// Whether a file name must be parted from `directory` by a separator.
fn needs_separator(directory: &str) -> (needed: bool)
    ensures
        needed == !(directory@.len() == 0 || directory@.last() == '/'),
{
    let length = directory.unicode_len();
    length > 0 && directory.get_char(length - 1) != '/'
}

/// The path of the cache file of the candidate at `url`, in `directory`.
pub fn entry_path(directory: &str, url: &str) -> (path: String)
    ensures
        path@ == entry_path_of(directory@, url@),
{
    proof {
        reveal_strlit("/");
        assert("/"@ =~= seq!['/']);
    }
    let name = entry_name(url);
    let mut path = directory.to_owned();
    if needs_separator(directory) {
        path.append("/");
    }
    path.append(name.as_str());
    path
}

/// Different texts have different UTF-8 bytes.
pub proof fn lemma_utf8_tells_apart(a: Seq<char>, b: Seq<char>)
    requires
        a != b,
    ensures
        encode_utf8(a) != encode_utf8(b),
{
    encode_utf8_decode_utf8(a);
    encode_utf8_decode_utf8(b);
    assert(decode_utf8(encode_utf8(a)) == a);
    assert(decode_utf8(encode_utf8(b)) == b);
}

/// The cache key depends on nothing but the address: the same address has the
/// same key and the same file whenever it is tried.
pub proof fn lemma_cache_key_is_determined(a: Seq<char>, b: Seq<char>, directory: Seq<char>)
    requires
        a == b,
    ensures
        cache_key_of(a) == cache_key_of(b),
        entry_name_of(a) == entry_name_of(b),
        entry_path_of(directory, a) == entry_path_of(directory, b),
{
}

/// Two addresses share a cache key exactly when SHA-256 gives their UTF-8
/// bytes the same digest. For two different addresses these are different
/// byte strings, so that they share a key only where SHA-256 collides.
pub proof fn lemma_cache_keys_collide_with_digest(a: Seq<char>, b: Seq<char>)
    ensures
        cache_key_of(a) == cache_key_of(b) <==> sha256_of(encode_utf8(a)) == sha256_of(
            encode_utf8(b),
        ),
        a != b ==> encode_utf8(a) != encode_utf8(b),
{
    lemma_content_hash_collides_with_digest(a, b);
    if a != b {
        lemma_utf8_tells_apart(a, b);
    }
}

/// In one directory, two candidates have the same cache file exactly when
/// they have the same cache key: the files of the directory are its index.
pub proof fn lemma_entry_path_tells_keys_apart(directory: Seq<char>, a: Seq<char>, b: Seq<char>)
    ensures
        entry_path_of(directory, a) == entry_path_of(directory, b) <==> cache_key_of(a)
            == cache_key_of(b),
{
    if entry_path_of(directory, a) == entry_path_of(directory, b) {
        let stem = if directory.len() == 0 || directory.last() == '/' {
            directory
        } else {
            directory + seq!['/']
        };
        let name_a = entry_name_of(a);
        let name_b = entry_name_of(b);
        assert(entry_path_of(directory, a) == stem + name_a);
        assert(entry_path_of(directory, b) == stem + name_b);
        assert(name_a =~= (stem + name_a).subrange(stem.len() as int, (stem + name_a).len() as int));
        assert(name_b =~= (stem + name_b).subrange(stem.len() as int, (stem + name_b).len() as int));
        assert(name_a == name_b);
        let key_a = cache_key_of(a);
        let key_b = cache_key_of(b);
        assert(name_a.len() == key_a.len() + 4);
        assert(name_b.len() == key_b.len() + 4);
        assert(key_a =~= name_a.subrange(0, key_a.len() as int));
        assert(key_b =~= name_b.subrange(0, key_b.len() as int));
    }
}

} // verus!
