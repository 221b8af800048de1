//! Content hashing: digests over the file bytes, rendered as lowercase hex
//! strings, used as the deduplication key.
use vstd::prelude::*;

verus! {

/// The lowercase hex digit of a value below sixteen.
pub open spec fn hex_digit(n: u8) -> char
    recommends
        n < 16,
{
    if n < 10 {
        ((n + 48) as u8) as char
    } else {
        ((n + 87) as u8) as char
    }
}

/// The lowercase hex rendering of a byte string, two digits per byte, high
/// nibble first.
pub open spec fn hex_of(b: Seq<u8>) -> Seq<char>
    decreases b.len(),
{
    if b.len() == 0 {
        Seq::empty()
    } else {
        hex_of(b.drop_last()) + seq![hex_digit(b.last() / 16), hex_digit(b.last() % 16)]
    }
}

/// What the MD5 digest of a byte string is: a function of the bytes alone.
pub uninterp spec fn md5_of(data: Seq<u8>) -> Seq<u8>;

/// What the SHA-256 digest of a byte string is: a function of the bytes
/// alone.
pub uninterp spec fn sha256_of(data: Seq<u8>) -> Seq<u8>;

/// Relies on the md-5 crate's Md5: the 16-byte MD5 digest of the data.
#[verifier::external_body]
fn md5_digest(data: &[u8]) -> (r: Vec<u8>)
    ensures
        r@ == md5_of(data@),
        r@.len() == 16,
{
    let digest = <md5::Md5 as md5::Digest>::digest(data);
    digest.to_vec()
}

/// Relies on sha2's Sha256: the 32-byte SHA-256 digest of the data.
#[verifier::external_body]
fn sha256_raw(data: &[u8]) -> (r: Vec<u8>)
    ensures
        r@ == sha256_of(data@),
        r@.len() == 32,
{
    let digest = <sha2::Sha256 as sha2::Digest>::digest(data);
    digest.to_vec()
}

/// Relies on base16ct's lower::encode_string: two lowercase hex digits for
/// each byte, high nibble first.
#[verifier::external_body]
fn hex_lower(data: &[u8]) -> (r: String)
    ensures
        r@ == hex_of(data@),
{
    base16ct::lower::encode_string(data)
}

/// The MD5 content hash of the bytes, as a lowercase hex string.
pub fn get_file_md5(data: &[u8]) -> (r: String)
    ensures
        r@ == hex_of(md5_of(data@)),
{
    let digest = md5_digest(data);
    hex_lower(digest.as_slice())
}

/// The SHA-256 content hash of the bytes, as a lowercase hex string.
pub fn sha256_digest(data: &[u8]) -> (r: String)
    ensures
        r@ == hex_of(sha256_of(data@)),
{
    let digest = sha256_raw(data);
    hex_lower(digest.as_slice())
}

/// Hash stability: the hash computed over the source bytes equals the hash
/// of a byte-identical copy, so the destination of a placement carries the
/// hash recorded at parse time.
pub proof fn lemma_hash_stability(src: Seq<u8>, copy: Seq<u8>)
    requires
        copy == src,
    ensures
        hex_of(md5_of(copy)) == hex_of(md5_of(src)),
        hex_of(sha256_of(copy)) == hex_of(sha256_of(src)),
{
}

} // verus!
