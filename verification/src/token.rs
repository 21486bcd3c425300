//! API tokens: fresh random identifiers, new tokens, and the SHA-256 hex
//! digest under which a token is stored and looked up.
use vstd::prelude::*;
use vstd::utf8::encode_utf8;
use sha2::Digest;
use crate::text::{push_char, push_str};

verus! {

/// The SHA-256 digest of `data`.
pub uninterp spec fn sha256_digest(data: Seq<u8>) -> Seq<u8>;

/// SHA-256 of `data`, through `sha2::Sha256::digest`.
///
/// Trusted: the result is named `sha256_digest` of the input bytes and is
/// 32 bytes long (the output size of `Sha256`); what the digest is beyond
/// that is not stated.
#[verifier::external_body]
fn sha256(data: &[u8]) -> (res: Vec<u8>)
    ensures
        res@ == sha256_digest(data@),
        res@.len() == 32,
{
    sha2::Sha256::digest(data).to_vec()
}

/// The lower-case hex digit of a value below 16.
pub open spec fn hex_digit(n: int) -> char {
    if n < 10 {
        ((n + 48) as u8) as char
    } else {
        ((n + 87) as u8) as char
    }
}

/// Lower-case hex text of `data`: two digits per byte, high nibble first.
pub open spec fn hex_lower(data: Seq<u8>) -> Seq<char>
    decreases data.len(),
{
    if data.len() == 0 {
        seq![]
    } else {
        hex_lower(data.drop_last()) + seq![
            hex_digit(data.last() as int / 16),
            hex_digit(data.last() as int % 16),
        ]
    }
}

/// Whether `c` is one of `0-9a-f`.
pub open spec fn is_lower_hex(c: char) -> bool {
    ('0' <= c && c <= '9') || ('a' <= c && c <= 'f')
}

/// Hex text of `data`, through `hex::encode`.
///
/// Trusted: `hex::encode` writes each byte as two lower-case hex digits,
/// high nibble first (the table `0123456789abcdef` in the crate source).
#[verifier::external_body]
fn hex_encode(data: &[u8]) -> (res: String)
    ensures
        res@ == hex_lower(data@),
{
    hex::encode(data)
}

/// Hex text is twice as long as its bytes and made of `0-9a-f` only.
pub proof fn lemma_hex_lower_shape(data: Seq<u8>)
    ensures
        hex_lower(data).len() == 2 * data.len(),
        forall|i: int| 0 <= i < hex_lower(data).len() ==> is_lower_hex(#[trigger] hex_lower(data)[i]),
    decreases data.len(),
{
    if data.len() > 0 {
        lemma_hex_lower_shape(data.drop_last());
        let b = data.last() as int;
        assert(is_lower_hex(hex_digit(b / 16)));
        assert(is_lower_hex(hex_digit(b % 16)));
        let h = hex_lower(data);
        let p = hex_lower(data.drop_last());
        assert forall|i: int| 0 <= i < h.len() implies is_lower_hex(#[trigger] h[i]) by {
            if i < p.len() {
                assert(h[i] == p[i]);
            }
        }
    }
}

/// The stored form of a token: the lower-case hex SHA-256 digest of its
/// UTF-8 bytes.
pub open spec fn token_hash(token: Seq<char>) -> Seq<char> {
    hex_lower(sha256_digest(encode_utf8(token)))
}

/// Hashes a token for storage and lookup.
pub fn hash_token(token: &str) -> (res: String)
    ensures
        res@ == token_hash(token@),
        res@.len() == 64,
        forall|i: int| 0 <= i < res@.len() ==> is_lower_hex(#[trigger] res@[i]),
{
    let bytes = token.as_bytes();
    let digest = sha256(bytes);
    proof {
        lemma_hex_lower_shape(digest@);
    }
    hex_encode(digest.as_slice())
}

/// Whether `s` is a version-4 UUID in lower-case hyphenated form:
/// 36 characters, `-` at 8, 13, 18 and 23, lower-case hex digits
/// elsewhere, the version digit `4` at 14 and a variant digit among
/// `8`, `9`, `a`, `b` at 19.
pub open spec fn is_uuid_v4_text(s: Seq<char>) -> bool {
    &&& s.len() == 36
    &&& forall|i: int|
        0 <= i < 36 ==> if i == 8 || i == 13 || i == 18 || i == 23 {
            s[i] == '-'
        } else {
            is_lower_hex(#[trigger] s[i])
        }
    &&& s[14] == '4'
    &&& (s[19] == '8' || s[19] == '9' || s[19] == 'a' || s[19] == 'b')
}

/// A fresh random identifier, through `uuid::Uuid::new_v4` and its
/// `Display` form.
///
/// Trusted: the text is a version-4 UUID in lower-case hyphenated form
/// (`Uuid::new_v4` sets the version and variant bits, and `Display`
/// writes the hyphenated lower-case hex). Which identifier comes out is
/// random and is not stated.
#[verifier::external_body]
pub(crate) fn new_uuid_v4() -> (res: String)
    ensures
        is_uuid_v4_text(res@),
{
    uuid::Uuid::new_v4().to_string()
}

/// A fresh random identifier for a new record: a version-4 UUID in
/// lower-case hyphenated form.
pub fn new_id() -> (res: String)
    ensures
        is_uuid_v4_text(res@),
{
    new_uuid_v4()
}

/// The prefix of every API token.
pub open spec fn token_prefix() -> Seq<char> {
    seq!['o', 'c', 'l', 'w', '_']
}

/// A token made from a given random identifier, with its stored hash:
/// the token is `oclw_` followed by the identifier.
pub fn token_from_uuid(uuid: &str) -> (res: (String, String))
    ensures
        res.0@ == token_prefix() + uuid@,
        res.1@ == token_hash(res.0@),
{
    let mut raw = String::new();
    push_char(&mut raw, 'o');
    push_char(&mut raw, 'c');
    push_char(&mut raw, 'l');
    push_char(&mut raw, 'w');
    push_char(&mut raw, '_');
    push_str(&mut raw, uuid);
    assert(raw@ =~= token_prefix() + uuid@);
    let hash = hash_token(raw.as_str());
    (raw, hash)
}

/// Issues a new API token: `oclw_` followed by a fresh version-4 UUID,
/// together with the hash under which it is stored. The hash is what
/// `hash_token` gives for the token, so the token authenticates against
/// it.
pub fn new_token() -> (res: (String, String))
    ensures
        res.0@.len() == 41,
        res.0@.subrange(0, 5) == token_prefix(),
        is_uuid_v4_text(res.0@.subrange(5, 41)),
        res.1@ == token_hash(res.0@),
{
    let id = new_uuid_v4();
    let res = token_from_uuid(id.as_str());
    assert(res.0@.subrange(0, 5) =~= token_prefix());
    assert(res.0@.subrange(5, 41) =~= id@);
    res
}

/// A token issued by `new_token` is found again by hashing what the
/// caller presents: hashing the same text always gives the stored hash,
/// and two tokens with different hashes are different tokens.
pub proof fn lemma_issued_token_matches(raw: Seq<char>, stored: Seq<char>, presented: Seq<char>)
    requires
        stored == token_hash(raw),
    ensures
        presented == raw ==> token_hash(presented) == stored,
        token_hash(presented) != stored ==> presented != raw,
{
}

} // verus!
