//! Lowercase hexadecimal text for byte strings, random tokens, and the
//! SHA-256 content version used for optimistic concurrency.

use vstd::prelude::*;
use rand::RngCore;
use sha2::Digest;

verus! {

/// The lowercase hex digit for `n < 16`.
pub open spec fn hex_digit(n: u8) -> char {
    if n < 10 {
        (('0' as u8) + n) as char
    } else {
        (('a' as u8) + n - 10) as char
    }
}

/// Two lowercase hex digits per byte, high nibble first (`{b:02x}`).
pub open spec fn hex_of(bytes: Seq<u8>) -> Seq<char>
    decreases bytes.len(),
{
    if bytes.len() == 0 {
        Seq::empty()
    } else {
        hex_of(bytes.drop_last()) + seq![hex_digit(bytes.last() / 16), hex_digit(bytes.last() % 16)]
    }
}

/// A lowercase hex digit.
pub open spec fn is_hex_lower(c: char) -> bool {
    ('0' <= c && c <= '9') || ('a' <= c && c <= 'f')
}

/// Hex text is twice as long as its bytes and made of lowercase hex digits.
pub proof fn hex_shape(bytes: Seq<u8>)
    ensures
        hex_of(bytes).len() == 2 * bytes.len(),
        forall|i: int| 0 <= i < hex_of(bytes).len() ==> is_hex_lower(#[trigger] hex_of(bytes)[i]),
    decreases bytes.len(),
{
    if bytes.len() > 0 {
        hex_shape(bytes.drop_last());
        let h = hex_of(bytes.drop_last());
        let l = bytes.last();
        assert(l / 16 < 16);
        assert(l % 16 < 16);
        assert forall|i: int| 0 <= i < hex_of(bytes).len() implies is_hex_lower(
            #[trigger] hex_of(bytes)[i],
        ) by {
            if i >= h.len() {
                let n: u8 = if i == h.len() {
                    l / 16
                } else {
                    l % 16
                };
                assert(hex_of(bytes)[i] == hex_digit(n));
            } else {
                assert(hex_of(bytes)[i] == h[i]);
            }
        }
    }
}

fn digit(n: u8) -> (c: char)
    requires
        n < 16,
    ensures
        c == hex_digit(n),
{
    if n < 10 {
        (48u8 + n) as char
    } else {
        (97u8 + n - 10) as char
    }
}

/// Lowercase hex encoding of `bytes`.
pub fn hex_encode(bytes: &[u8]) -> (s: String)
    ensures
        s@ == hex_of(bytes@),
{
    let mut s = String::new();
    let mut i: usize = 0;
    while i < bytes.len()
        invariant
            i <= bytes@.len(),
            s@ == hex_of(bytes@.subrange(0, i as int)),
        decreases bytes@.len() - i,
    {
        let b = bytes[i];
        s.push(digit(b / 16));
        s.push(digit(b % 16));
        proof {
            let pre = bytes@.subrange(0, i + 1);
            assert(pre.drop_last() =~= bytes@.subrange(0, i as int));
            assert(pre.last() == b);
            assert(hex_of(pre) =~= hex_of(bytes@.subrange(0, i as int)).push(
                hex_digit(b / 16),
            ).push(hex_digit(b % 16)));
        }
        i = i + 1;
    }
    proof {
        assert(bytes@.subrange(0, bytes@.len() as int) =~= bytes@);
    }
    s
}

/// `n` bytes from the operating system's random number generator
/// (`rand::rngs::OsRng::try_fill_bytes`), or the text of its error when the
/// OS random source fails. Which bytes come back is chance.
#[verifier::external_body]
pub(crate) fn os_random(n: usize) -> (r: Result<Vec<u8>, String>)
    ensures
        r matches Ok(b) ==> b@.len() == n,
{
    let mut bytes = vec![0u8; n];
    rand::rngs::OsRng.try_fill_bytes(&mut bytes).map(|_| bytes).map_err(|e| e.to_string())
}

/// A fresh opaque token: 32 random bytes as 64 lowercase hex digits, or the
/// error of the OS random source when it could not supply them.
pub fn generate_token() -> (t: Result<String, String>)
    ensures
        t matches Ok(s) ==> (exists|b: Seq<u8>| b.len() == 32 && s@ == hex_of(b)),
        t matches Ok(s) ==> s@.len() == 64,
        t matches Ok(s) ==> forall|i: int| 0 <= i < s@.len() ==> is_hex_lower(#[trigger] s@[i]),
{
    let bytes = os_random(32)?;
    let t = hex_encode(bytes.as_slice());
    proof {
        hex_shape(bytes@);
    }
    Ok(t)
}

/// The SHA-256 digest of `data`.
pub uninterp spec fn sha256(data: Seq<u8>) -> Seq<u8>;

/// `sha2::Sha256` over `data`: its 32-byte digest.
#[verifier::external_body]
fn sha256_digest(data: &[u8]) -> (r: Vec<u8>)
    ensures
        r@ == sha256(data@),
        r@.len() == 32,
{
    let mut hasher = sha2::Sha256::new();
    hasher.update(data);
    hasher.finalize().to_vec()
}

/// The version of a note's content: lowercase hex SHA-256 of its UTF-8 bytes.
pub open spec fn version_of(content: Seq<char>) -> Seq<char> {
    hex_of(sha256(vstd::utf8::encode_utf8(content)))
}

/// Lowercase hex SHA-256 of the content's UTF-8 bytes; it must match the
/// client's Web Crypto SHA-256 over the same bytes.
pub fn content_version(content: &str) -> (v: String)
    ensures
        v@ == version_of(content@),
        v@.len() == 64,
        forall|i: int| 0 <= i < v@.len() ==> is_hex_lower(#[trigger] v@[i]),
{
    let digest = sha256_digest(content.as_bytes());
    proof {
        hex_shape(digest@);
    }
    hex_encode(digest.as_slice())
}

} // verus!
