use crate::error::OAuthError;
use crate::hashing::{argon2_accepts, hash_password};
use crate::secrets::{b64url_nopad, generate_auth_code, SECRET_BYTES};
use vstd::prelude::*;

verus! {

/// A user registration or login request.
pub struct UserRequest {
    pub email: String,
    pub password: String,
}

/// A client registration request.
pub struct NewClientRequest {
    pub client_name: String,
    pub redirect_uris: Vec<String>,
    pub grant_types: Vec<String>,
    pub scopes: Vec<String>,
}

/// A freshly issued client secret: the plaintext, returned once to the
/// registering party, and the hash that the credential store keeps.
pub struct ClientSecret {
    pub plain: String,
    pub hash: String,
}

/// Hashes a password or secret for storage; a hasher failure is a
/// `ServerError`.
pub fn hash_credential(plain: &str) -> (r: Result<String, OAuthError>)
    ensures
        r matches Err(e) ==> e == OAuthError::ServerError,
        r matches Ok(h) ==> argon2_accepts(vstd::utf8::encode_utf8(plain@), h@),
{
    match hash_password(plain) {
        Ok(h) => Ok(h),
        Err(_) => Err(OAuthError::ServerError),
    }
}

/// Issues a client secret: 256 random bits, URL-safe base64 encoded, and
/// its Argon2 hash.
pub fn new_client_secret() -> (r: Result<ClientSecret, OAuthError>)
    ensures
        r matches Ok(s) ==> s.plain@.len() == 43 && exists|b: Seq<u8>|
            b.len() == SECRET_BYTES && s.plain@ == b64url_nopad(b),
        r matches Ok(s) ==> argon2_accepts(vstd::utf8::encode_utf8(s.plain@), s.hash@),
        r matches Err(e) ==> e == OAuthError::ServerError,
{
    let plain = generate_auth_code();
    let hash = hash_credential(plain.as_str())?;
    Ok(ClientSecret { plain, hash })
}

} // verus!
