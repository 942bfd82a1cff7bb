use vstd::prelude::*;
use vstd::string::StringSliceAdditionalSpecFns;

verus! {

/// The SHA-256 digest of a byte sequence.
pub uninterp spec fn sha256_of(bytes: Seq<u8>) -> Seq<u8>;

/// The unsigned integer whose big-endian encoding is the first four bytes of `b`.
pub open spec fn be_u32(b: Seq<u8>) -> u32
    recommends
        b.len() >= 4,
{
    (b[0] as int * 0x1000000 + b[1] as int * 0x10000 + b[2] as int * 0x100 + b[3] as int) as u32
}

/// The integer that a key's color is derived from: the first four bytes of
/// the SHA-256 digest of its bytes, read as a big-endian integer.
pub open spec fn key_hash(bytes: Seq<u8>) -> u32 {
    be_u32(sha256_of(bytes))
}

/// Relies on hmac_sha256::Hash::hash: the SHA-256 digest of the input, which
/// depends on the input bytes alone.
#[verifier::external_body]
fn sha256(input: &[u8]) -> (r: [u8; 32])
    ensures
        r@ == sha256_of(input@),
{
    hmac_sha256::Hash::hash(input)
}

/// Relies on byteorder's BigEndian::read_u32: the first four bytes of `buf`,
/// most significant first. It panics on fewer than four bytes.
#[verifier::external_body]
fn read_be_u32(buf: &[u8]) -> (r: u32)
    requires
        buf@.len() >= 4,
    ensures
        r == be_u32(buf@),
{
    <byteorder::BigEndian as byteorder::ByteOrder>::read_u32(buf)
}

/// Reduces a digest to the integer that colors are derived from.
pub fn digest_index(digest: &[u8; 32]) -> (r: u32)
    ensures
        r == be_u32(digest@),
{
    proof {
        vstd::array::array_len_matches_n(digest);
    }
    read_be_u32(digest.as_slice())
}

/// Hashes a key to the integer that its color is derived from.
pub fn rgb_hash(key: &str) -> (r: u32)
    ensures
        r == key_hash(key.spec_bytes()),
{
    let digest = sha256(key.as_bytes());
    digest_index(&digest)
}

} // verus!
