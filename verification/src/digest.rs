//! SHA-256 digests of byte strings and text.

use sha2::{Digest, Sha256};
use vstd::prelude::*;
use vstd::utf8::encode_utf8;

use crate::hex::{encode, hex_text, is_hex_text, lemma_hex_text_injective, lemma_hex_text_shape};

verus! {

/// The SHA-256 digest of `data`.
pub uninterp spec fn sha256_of(data: Seq<u8>) -> Seq<u8>;

/// The content hash of `content`: the hexadecimal text of the SHA-256 digest
/// of its UTF-8 bytes.
pub open spec fn content_hash_of(content: Seq<char>) -> Seq<char> {
    hex_text(sha256_of(encode_utf8(content)))
}

/// Calls `sha2::Sha256::digest`, which hashes the whole of `data` in one go
/// and hands back the 32 bytes of the digest. The contract names that digest
/// `sha256_of(data)`; it is not computed or checked here.
#[verifier::external_body]
fn sha256(data: &[u8]) -> (digest: [u8; 32])
    ensures
        digest@ == sha256_of(data@),
{
    Sha256::digest(data).into()
}

/// The hexadecimal text of the SHA-256 digest of `data`: 64 lowercase digits.
pub fn digest_text(data: &[u8]) -> (text: String)
    ensures
        text@ == hex_text(sha256_of(data@)),
        text@.len() == 64,
        is_hex_text(text@),
{
    let digest = sha256(data);
    proof {
        lemma_hex_text_shape(digest@);
    }
    encode(digest.as_slice())
}

/// The content hash of `content`, a fixed-length key for it.
pub fn get_content_hash(content: String) -> (hash: String)
    ensures
        hash@ == content_hash_of(content@),
        hash@.len() == 64,
        is_hex_text(hash@),
{
    digest_text(content.as_str().as_bytes())
}

/// Two texts have the same content hash exactly when the SHA-256 digests of
/// their UTF-8 bytes are the same: the hexadecimal form loses nothing.
pub proof fn lemma_content_hash_collides_with_digest(a: Seq<char>, b: Seq<char>)
    ensures
        content_hash_of(a) == content_hash_of(b) <==> sha256_of(encode_utf8(a)) == sha256_of(
            encode_utf8(b),
        ),
{
    if content_hash_of(a) == content_hash_of(b) {
        lemma_hex_text_injective(sha256_of(encode_utf8(a)), sha256_of(encode_utf8(b)));
    }
}

} // verus!
