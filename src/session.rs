use crate::error::OAuthError;
use crate::hashing::{argon2_accepts, verify_hash};
use crate::store::{expiry, live_value, TtlStore};
use vstd::prelude::*;

verus! {

/// How long a login session lasts, in seconds.
pub const SESSION_TTL_SECS: u64 = 3600;

/// The name of the cookie that carries the session identifier.
pub const COOKIE_NAME: &'static str = "session_id";

/// The stored user (identifier and password hash) matches `password`.
pub open spec fn credentials_match(record: Option<(u64, String)>, password: Seq<char>) -> bool {
    match record {
        Some((_, hash)) => argon2_accepts(vstd::utf8::encode_utf8(password), hash@),
        None => false,
    }
}

/// Relies on `uuid::Uuid::new_v4` and its hyphenated `to_string`: a random
/// identifier written as 36 characters.
#[verifier::external_body]
fn new_session_id() -> (r: String)
    ensures
        r@.len() == 36,
{
    uuid::Uuid::new_v4().to_string()
}

/// Checks a login against the record that the credential store holds under
/// `email`. An unknown email and a wrong password give the same
/// `InvalidCredentials`.
pub fn authenticate_user(record: Option<(u64, String)>, email: &str, password: &str) -> (r: Result<
    (u64, String),
    OAuthError,
>)
    ensures
        r is Ok <==> credentials_match(record, password@),
        r matches Err(e) ==> e == OAuthError::InvalidCredentials,
        r matches Ok((id, e)) ==> record matches Some((rid, _)) && id == rid && e@ == email@,
{
    match record {
        Some((id, hash)) => {
            if verify_hash(password.as_bytes(), hash.as_str()) {
                Ok((id, email.to_owned()))
            } else {
                Err(OAuthError::InvalidCredentials)
            }
        },
        None => Err(OAuthError::InvalidCredentials),
    }
}

/// Opens a session for `identity`: a fresh random identifier, stored with
/// the identity for `SESSION_TTL_SECS`.
pub fn handle_cookie(store: &mut TtlStore<String>, identity: String, now: u64) -> (r: String)
    requires
        old(store).wf(),
    ensures
        final(store).wf(),
        final(store)@ == old(store)@.insert(r@, (identity, expiry(now, SESSION_TTL_SECS))),
        r@.len() == 36,
{
    let session_id = new_session_id();
    store.set_with_ttl(session_id.clone(), identity, SESSION_TTL_SECS, now);
    session_id
}

/// Logs a user in: on matching credentials opens a session bound to the
/// email and returns its identifier; otherwise the store is unchanged.
pub fn login(
    store: &mut TtlStore<String>,
    record: Option<(u64, String)>,
    email: &str,
    password: &str,
    now: u64,
) -> (r: Result<String, OAuthError>)
    requires
        old(store).wf(),
    ensures
        final(store).wf(),
        r is Ok <==> credentials_match(record, password@),
        r matches Err(e) ==> e == OAuthError::InvalidCredentials && final(store)@ == old(store)@,
        r matches Ok(sid) ==> final(store)@ == old(store)@.insert(
            sid@,
            (final(store)@[sid@].0, expiry(now, SESSION_TTL_SECS)),
        ) && final(store)@[sid@].0@ == email@,
{
    let (_, user_email) = authenticate_user(record, email, password)?;
    let sid = handle_cookie(store, user_email, now);
    Ok(sid)
}

/// The identity bound to a session, if the session is live at `now`.
pub fn resolve_session(store: &TtlStore<String>, session_id: &String, now: u64) -> (r: Option<String>)
    requires
        store.wf(),
    ensures
        r == live_value(store@, session_id@, now),
{
    match store.get(session_id, now) {
        Some(v) => Some(v.clone()),
        None => None,
    }
}

} // verus!
