//! Content addressing: a value's canonical bytes are hashed with SHA-256 and
//! the digest is written in lower-case hexadecimal, which is safe to use as a
//! single path segment.
use vstd::prelude::*;

verus! {

/// Number of bytes in a digest.
pub const DIGEST_BYTES: usize = 32;

/// Number of characters in the hexadecimal form of a digest.
pub const DIGEST_CHARS: usize = 64;

/// The SHA-256 digest of a byte string.
pub uninterp spec fn sha256(data: Seq<u8>) -> Seq<u8>;

/// The compact binary encoding of a string as a single root value.
pub uninterp spec fn flexbuffer_of_string(text: Seq<char>) -> Seq<u8>;

/// The lower-case hexadecimal digit for a value below sixteen.
pub open spec fn hex_digit(nibble: int) -> char {
    if nibble < 10 {
        (48 + nibble) as char
    } else {
        (87 + nibble) as char
    }
}

/// The character at position `i` of the hexadecimal form of `bytes`: the high
/// half of a byte comes first, then its low half.
pub open spec fn hex_char_at(bytes: Seq<u8>, i: int) -> char {
    if i % 2 == 0 {
        hex_digit(bytes[i / 2] as int / 16)
    } else {
        hex_digit(bytes[i / 2] as int % 16)
    }
}

/// The lower-case hexadecimal form of a byte string, two characters per byte.
pub open spec fn hex_string(bytes: Seq<u8>) -> Seq<char> {
    Seq::new(2 * bytes.len(), |i: int| hex_char_at(bytes, i))
}

/// The path segment under which a value with the given canonical bytes is
/// stored.
pub open spec fn content_address(encoded: Seq<u8>) -> Seq<char> {
    hex_string(sha256(encoded))
}

/// Whether a character is one of `0`-`9` or `a`-`f`.
pub open spec fn is_hex_char(c: char) -> bool {
    ('0' <= c && c <= '9') || ('a' <= c && c <= 'f')
}

/// Whether a name has the shape of a content address: 64 hexadecimal digits.
pub open spec fn is_address(name: Seq<char>) -> bool {
    &&& name.len() == DIGEST_CHARS
    &&& forall|i: int| 0 <= i < name.len() ==> is_hex_char(#[trigger] name[i])
}

/// Calls `Sha256::digest` of the `sha2` crate. The contract names the digest
/// and records that SHA-256 produces 32 bytes.
#[verifier::external_body]
fn sha256_digest(data: &[u8]) -> (digest: Vec<u8>)
    ensures
        digest@ == sha256(data@),
        digest@.len() == DIGEST_BYTES,
{
    <sha2::Sha256 as sha2::Digest>::digest(data).to_vec()
}

/// Calls `hex::encode`. The contract states that each byte becomes two
/// characters of `0123456789abcdef`, the high half first.
#[verifier::external_body]
fn hex_encode(bytes: &[u8]) -> (text: String)
    ensures
        text@ == hex_string(bytes@),
{
    hex::encode(bytes)
}

/// Calls `flexbuffers::singleton` on a string. The contract names the bytes
/// that it builds.
#[verifier::external_body]
fn flexbuffer_string(text: &str) -> (encoded: Vec<u8>)
    ensures
        encoded@ == flexbuffer_of_string(text@),
{
    flexbuffers::singleton(text)
}

/// Distinct values below sixteen have distinct digits.
pub proof fn lemma_hex_digit_injective(a: int, b: int)
    requires
        0 <= a < 16,
        0 <= b < 16,
        hex_digit(a) == hex_digit(b),
    ensures
        a == b,
{
}

/// Every character of a hexadecimal form is a hexadecimal digit, so none is a
/// path separator.
pub proof fn lemma_hex_string_chars(bytes: Seq<u8>)
    ensures
        hex_string(bytes).len() == 2 * bytes.len(),
        forall|i: int| 0 <= i < hex_string(bytes).len() ==> is_hex_char(#[trigger] hex_string(bytes)[i]),
{
    assert forall|i: int| 0 <= i < hex_string(bytes).len() implies is_hex_char(
        #[trigger] hex_string(bytes)[i],
    ) by {
        let b = bytes[i / 2] as int;
        assert(0 <= b / 16 < 16);
        assert(0 <= b % 16 < 16);
    }
}

/// Hexadecimal encoding loses nothing: equal forms come from equal bytes.
pub proof fn lemma_hex_string_injective(a: Seq<u8>, b: Seq<u8>)
    requires
        hex_string(a) == hex_string(b),
    ensures
        a == b,
{
    assert(hex_string(a).len() == 2 * a.len());
    assert(hex_string(b).len() == 2 * b.len());
    assert(a.len() == b.len());
    assert forall|k: int| 0 <= k < a.len() implies a[k] == b[k] by {
        let x = a[k] as int;
        let y = b[k] as int;
        assert(hex_string(a)[2 * k] == hex_digit(x / 16));
        assert(hex_string(b)[2 * k] == hex_digit(y / 16));
        assert(hex_string(a)[2 * k + 1] == hex_digit(x % 16));
        assert(hex_string(b)[2 * k + 1] == hex_digit(y % 16));
        lemma_hex_digit_injective(x / 16, y / 16);
        lemma_hex_digit_injective(x % 16, y % 16);
    }
    assert(a =~= b);
}

/// Two values whose digests differ are stored under different path segments.
pub proof fn lemma_content_address_distinct(a: Seq<u8>, b: Seq<u8>)
    requires
        sha256(a) != sha256(b),
    ensures
        content_address(a) != content_address(b),
{
    if content_address(a) == content_address(b) {
        lemma_hex_string_injective(sha256(a), sha256(b));
    }
}

/// Hashes the canonical bytes of a value.
pub fn hash_serialize(encoded: &[u8]) -> (digest: Vec<u8>)
    ensures
        digest@ == sha256(encoded@),
        digest@.len() == DIGEST_BYTES,
{
    sha256_digest(encoded)
}

/// Writes a digest in lower-case hexadecimal.
pub fn encode_digest(digest: &[u8]) -> (text: String)
    ensures
        text@ == hex_string(digest@),
        text@.len() == 2 * digest@.len(),
{
    hex_encode(digest)
}

/// The path segment for a value, given its canonical bytes.
pub fn address_of(encoded: &[u8]) -> (name: String)
    ensures
        name@ == content_address(encoded@),
        is_address(name@),
{
    let digest = hash_serialize(encoded);
    proof {
        lemma_hex_string_chars(digest@);
    }
    encode_digest(digest.as_slice())
}

/// The path segment of the bucket that belongs to an identifier.
pub fn identifier_address(id: &str) -> (name: String)
    ensures
        name@ == content_address(flexbuffer_of_string(id@)),
        is_address(name@),
{
    let encoded = flexbuffer_string(id);
    address_of(encoded.as_slice())
}

} // verus!
