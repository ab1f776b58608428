use base64::engine::general_purpose::URL_SAFE_NO_PAD;
use base64::Engine;
use rand::rngs::OsRng;
use rand::RngCore;
use vstd::prelude::*;

verus! {

/// The number of random bytes behind each authorization code and client secret.
pub const SECRET_BYTES: usize = 32;

/// The URL-safe base64 text, without padding, of `bytes`.
pub uninterp spec fn b64url_nopad(bytes: Seq<u8>) -> Seq<char>;

/// The length of the unpadded base64 text of `n` bytes.
pub open spec fn b64_nopad_len(n: nat) -> nat {
    (4 * n + 2) / 3
}

/// A character of the URL-safe base64 alphabet: `A-Z`, `a-z`, `0-9`, `-`, `_`.
pub open spec fn is_url_safe_char(c: char) -> bool {
    ('A' <= c && c <= 'Z') || ('a' <= c && c <= 'z') || ('0' <= c && c <= '9') || c == '-' || c == '_'
}

/// Relies on `rand::rngs::OsRng::fill_bytes`: fills the bytes from the
/// operating system's generator. Nothing is known of their values.
#[verifier::external_body]
fn random_secret_bytes() -> (r: Vec<u8>)
    ensures
        r@.len() == SECRET_BYTES,
{
    let mut bytes = [0u8; SECRET_BYTES];
    OsRng.fill_bytes(&mut bytes);
    bytes.to_vec()
}

/// Relies on `base64`'s `URL_SAFE_NO_PAD.encode`: the unpadded URL-safe
/// encoding, four characters for each three bytes and two or three for a
/// final one or two (`base64::encoded_len`), all from the URL-safe alphabet.
#[verifier::external_body]
fn b64url_encode(bytes: &[u8]) -> (r: String)
    requires
        bytes@.len() <= 1_000_000,
    ensures
        r@ == b64url_nopad(bytes@),
        r@.len() == b64_nopad_len(bytes@.len()),
        forall|i: int| 0 <= i < r@.len() ==> is_url_safe_char(#[trigger] r@[i]),
{
    URL_SAFE_NO_PAD.encode(bytes)
}

/// A fresh high-entropy token: 256 random bits, URL-safe base64 encoded.
/// Used for authorization codes and for client secrets.
pub fn generate_auth_code() -> (r: String)
    ensures
        exists|b: Seq<u8>| b.len() == SECRET_BYTES && r@ == b64url_nopad(b),
        r@.len() == 43,
        forall|i: int| 0 <= i < r@.len() ==> is_url_safe_char(#[trigger] r@[i]),
{
    let bytes = random_secret_bytes();
    let r = b64url_encode(bytes.as_slice());
    assert(r@ == b64url_nopad(bytes@));
    r
}

} // verus!
