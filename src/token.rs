use crate::authorize::{str_seqs, AuthCodePayload, Client};
use crate::error::OAuthError;
use crate::hashing::{argon2_accepts, verify_hash};
use crate::secrets::generate_auth_code;
use crate::store::{live_value, TtlStore};
use jsonwebtoken::{EncodingKey, Header};
use time::OffsetDateTime;
use vstd::prelude::*;
use vstd::string::StringExecFns;

verus! {

/// Lifetime of an access token, in seconds.
pub const ACCESS_TOKEN_TTL_SECS: i64 = 3600;

/// The error type of `jsonwebtoken`, carried through opaquely.
#[verifier::external_type_specification]
#[verifier::external_body]
pub struct ExJwtError(jsonwebtoken::errors::Error);

/// The claims of an access token.
pub struct Claims {
    /// Subject: the user the code was issued to.
    pub sub: String,
    /// Audience: the client the token is for.
    pub aud: String,
    /// Expiry, unix seconds.
    pub exp: i64,
    /// Issue time, unix seconds.
    pub iat: i64,
    /// Space-separated scopes.
    pub scope: String,
}

/// The client binding that a token request claims.
pub struct TokenInput {
    pub client_id: String,
    pub redirect_uri: String,
}

/// The body of a successful token response.
pub struct TokenResponse {
    pub access_token: String,
    /// Opaque value; no refresh grant accepts it.
    pub refresh_token: String,
    pub token_type: String,
    pub expires_in: u64,
}

/// The HS256 JWT, default header, with these claims signed under `key`.
pub uninterp spec fn hs256_jwt(
    sub: Seq<char>,
    aud: Seq<char>,
    exp: int,
    iat: int,
    scope: Seq<char>,
    key: Seq<u8>,
) -> Seq<char>;

/// Relies on `jsonwebtoken::encode` with `Header::default()` (HS256) and
/// `EncodingKey::from_secret(key)`: the signed token for the given claims.
/// With an HMAC key of any length and claims of strings and integers,
/// `encode` has no failing path (only the `rust_crypto` provider is built).
#[verifier::external_body]
fn sign_hs256(claims: &Claims, key: &[u8]) -> (r: Result<String, jsonwebtoken::errors::Error>)
    ensures
        r is Ok,
        r matches Ok(t) ==> t@ == hs256_jwt(
            claims.sub@,
            claims.aud@,
            claims.exp as int,
            claims.iat as int,
            claims.scope@,
            key@,
        ),
{
    let mut m = serde_json::Map::new();
    m.insert("sub".to_string(), serde_json::Value::from(claims.sub.as_str()));
    m.insert("aud".to_string(), serde_json::Value::from(claims.aud.as_str()));
    m.insert("exp".to_string(), serde_json::Value::from(claims.exp));
    m.insert("iat".to_string(), serde_json::Value::from(claims.iat));
    m.insert("scope".to_string(), serde_json::Value::from(claims.scope.as_str()));
    jsonwebtoken::encode(&Header::default(), &m, &EncodingKey::from_secret(key))
}

/// Relies on `time::OffsetDateTime::now_utc().unix_timestamp()`: the current
/// time in unix seconds. Nothing is known of its value.
#[verifier::external_body]
fn unix_now() -> (r: i64) {
    OffsetDateTime::now_utc().unix_timestamp()
}

/// The current time in unix seconds, as the stores and tokens count it;
/// a clock before 1970 reads as zero.
pub fn clock_now() -> (r: u64) {
    let t = unix_now();
    if t < 0 {
        0
    } else {
        t as u64
    }
}

/// The scopes joined with single spaces.
pub open spec fn joined(s: Seq<Seq<char>>) -> Seq<char>
    decreases s.len(),
{
    if s.len() == 0 {
        Seq::empty()
    } else if s.len() == 1 {
        s[0]
    } else {
        joined(s.drop_last()) + " "@ + s.last()
    }
}

/// Joins scopes into the space-separated form of the `scope` claim.
pub fn join_scopes(scopes: &Vec<String>) -> (r: String)
    ensures
        r@ == joined(str_seqs(scopes@)),
{
    let mut r = String::new();
    let mut i: usize = 0;
    while i < scopes.len()
        invariant
            i <= scopes@.len(),
            r@ == joined(str_seqs(scopes@).take(i as int)),
        decreases scopes@.len() - i,
    {
        let ghost prev = str_seqs(scopes@).take(i as int);
        let ghost next = str_seqs(scopes@).take(i + 1);
        assert(next.drop_last() =~= prev);
        if i > 0 {
            r.append(" ");
        }
        r.append(scopes[i].as_str());
        assert(r@ =~= joined(next));
        i = i + 1;
    }
    assert(str_seqs(scopes@).take(scopes@.len() as int) =~= str_seqs(scopes@));
    r
}

/// The outcome of redeeming a code whose stored payload read as `payload`,
/// for a request naming `client_id` and `redirect_uri`.
pub open spec fn redemption_outcome(
    payload: Option<AuthCodePayload>,
    client_id: Seq<char>,
    redirect_uri: Seq<char>,
) -> Result<AuthCodePayload, OAuthError> {
    match payload {
        None => Err(OAuthError::InvalidGrant),
        Some(p) => if p.redirect_uri@ != redirect_uri || p.client_id@ != client_id {
            Err(OAuthError::InvalidGrant)
        } else {
            Ok(p)
        },
    }
}

/// Checks a redeemed payload against the request: the redirect URI must
/// equal the one bound at issuance exactly, and so must the client.
pub fn check_redemption(
    payload: Option<AuthCodePayload>,
    client_id: &String,
    redirect_uri: &String,
) -> (r: Result<AuthCodePayload, OAuthError>)
    ensures
        r == redemption_outcome(payload, client_id@, redirect_uri@),
{
    match payload {
        None => Err(OAuthError::InvalidGrant),
        Some(p) => {
            if p.redirect_uri != *redirect_uri || p.client_id != *client_id {
                Err(OAuthError::InvalidGrant)
            } else {
                Ok(p)
            }
        },
    }
}

/// The credential store returned a client under `client_id` with
/// `redirect_uri` registered, and `secret` matches its secret hash.
pub open spec fn secret_accepted(
    client: Option<&Client>,
    client_id: Seq<char>,
    redirect_uri: Seq<char>,
    secret: Seq<u8>,
) -> bool {
    match client {
        Some(c) => {
            &&& c.name@ == client_id
            &&& str_seqs(c.redirect_uris@).contains(redirect_uri)
            &&& argon2_accepts(secret, c.secret_hash@)
        },
        None => false,
    }
}

/// The issue time `now` leaves room for the token's expiry.
pub open spec fn issuable_at(now: int) -> bool {
    now <= i64::MAX - ACCESS_TOKEN_TTL_SECS
}

/// Verifies a client secret against the client the credential store
/// resolved for `token_input`.
pub fn verify(client: Option<&Client>, token_input: &TokenInput, secret: &[u8]) -> (r: Result<(), OAuthError>)
    ensures
        r is Ok <==> secret_accepted(client, token_input.client_id@, token_input.redirect_uri@, secret@),
        r matches Err(e) ==> e == OAuthError::TokenIssuanceFailed,
{
    match client {
        Some(c) => {
            if c.name != token_input.client_id {
                return Err(OAuthError::TokenIssuanceFailed);
            }
            if !crate::authorize::contains_str(&c.redirect_uris, &token_input.redirect_uri) {
                return Err(OAuthError::TokenIssuanceFailed);
            }
            if !verify_hash(secret, c.secret_hash.as_str()) {
                return Err(OAuthError::TokenIssuanceFailed);
            }
            Ok(())
        },
        None => Err(OAuthError::TokenIssuanceFailed),
    }
}

/// The claims of a token issued at `now`, valid for `ACCESS_TOKEN_TTL_SECS`.
pub fn build_claims(user_id: &str, client_id: &str, scope: &str, now: i64) -> (r: Option<Claims>)
    ensures
        r is Some <==> issuable_at(now as int),
        r matches Some(c) ==> {
            &&& c.sub@ == user_id@
            &&& c.aud@ == client_id@
            &&& c.scope@ == scope@
            &&& c.iat == now
            &&& c.exp == now + ACCESS_TOKEN_TTL_SECS
        },
{
    if now > i64::MAX - ACCESS_TOKEN_TTL_SECS {
        return None;
    }
    Some(
        Claims {
            sub: user_id.to_owned(),
            aud: client_id.to_owned(),
            exp: now + ACCESS_TOKEN_TTL_SECS,
            iat: now,
            scope: scope.to_owned(),
        },
    )
}

/// Verifies the client secret, then issues an access token for `user_id`
/// with audience `client_id`, signed with the secret as HS256 key.
pub fn issue_jwt(
    client: Option<&Client>,
    user_id: &str,
    client_id: &str,
    scope: &str,
    secret: &[u8],
    redirect_uri: &str,
    now: i64,
) -> (r: Result<String, OAuthError>)
    ensures
        !secret_accepted(client, client_id@, redirect_uri@, secret@) ==> r == Err::<String, OAuthError>(
            OAuthError::TokenIssuanceFailed,
        ),
        !issuable_at(now as int) ==> r == Err::<String, OAuthError>(OAuthError::TokenIssuanceFailed),
        r matches Err(e) ==> e == OAuthError::TokenIssuanceFailed,
        secret_accepted(client, client_id@, redirect_uri@, secret@) && issuable_at(now as int) ==> r is Ok,
        r matches Ok(t) ==> {
            &&& secret_accepted(client, client_id@, redirect_uri@, secret@)
            &&& t@ == hs256_jwt(user_id@, client_id@, now + ACCESS_TOKEN_TTL_SECS, now as int, scope@, secret@)
        },
{
    let token_input = TokenInput { client_id: client_id.to_owned(), redirect_uri: redirect_uri.to_owned() };
    match verify(client, &token_input, secret) {
        Ok(()) => {},
        Err(e) => {
            return Err(e);
        },
    }
    let claims = match build_claims(user_id, client_id, scope, now) {
        Some(c) => c,
        None => {
            return Err(OAuthError::TokenIssuanceFailed);
        },
    };
    match sign_hs256(&claims, secret) {
        Ok(t) => Ok(t),
        Err(_) => Err(OAuthError::TokenIssuanceFailed),
    }
}

/// `t` is the token response for the code payload `p`, issued at `now` to
/// `client_id` and signed with `secret`.
pub open spec fn token_for(t: TokenResponse, p: AuthCodePayload, client_id: Seq<char>, secret: Seq<u8>, now: u64) -> bool {
    &&& t.access_token@ == hs256_jwt(
        p.user_id@,
        client_id,
        now + ACCESS_TOKEN_TTL_SECS,
        now as int,
        joined(str_seqs(p.scopes@)),
        secret,
    )
    &&& t.token_type@ == "Bearer"@
    &&& t.expires_in == ACCESS_TOKEN_TTL_SECS
}

/// Consumes `code`: fetches and deletes it in one step, then checks the
/// redeemed payload against the request's client id and redirect URI. The
/// code is gone afterwards whatever the outcome.
pub fn redeem_code(
    store: &mut TtlStore<AuthCodePayload>,
    code: &String,
    client_id: &String,
    redirect_uri: &String,
    now: u64,
) -> (r: Result<AuthCodePayload, OAuthError>)
    requires
        old(store).wf(),
    ensures
        final(store).wf(),
        final(store)@ == old(store)@.remove(code@),
        r == redemption_outcome(live_value(old(store)@, code@, now), client_id@, redirect_uri@),
{
    let payload = store.take(code, now);
    check_redemption(payload, client_id, redirect_uri)
}

/// Issues the token response for a redeemed payload `p`, once the client
/// secret verifies against `client`, what the credential store holds under
/// `client_id` and `redirect_uri`.
pub fn issue_token(
    client: Option<&Client>,
    p: &AuthCodePayload,
    client_id: &String,
    client_secret: &String,
    redirect_uri: &String,
    now: u64,
) -> (r: Result<TokenResponse, OAuthError>)
    ensures
        r matches Err(e) ==> e == OAuthError::TokenIssuanceFailed,
        r is Ok <==> secret_accepted(client, client_id@, redirect_uri@, vstd::utf8::encode_utf8(client_secret@))
            && issuable_at(now as int),
        r matches Ok(t) ==> token_for(t, *p, client_id@, vstd::utf8::encode_utf8(client_secret@), now),
{
    if now > (i64::MAX - ACCESS_TOKEN_TTL_SECS) as u64 {
        return Err(OAuthError::TokenIssuanceFailed);
    }
    let scope = join_scopes(&p.scopes);
    let access_token = issue_jwt(
        client,
        p.user_id.as_str(),
        client_id.as_str(),
        scope.as_str(),
        client_secret.as_str().as_bytes(),
        redirect_uri.as_str(),
        now as i64,
    )?;
    Ok(
        TokenResponse {
            access_token,
            refresh_token: generate_auth_code(),
            token_type: "Bearer".to_owned(),
            expires_in: ACCESS_TOKEN_TTL_SECS as u64,
        },
    )
}

/// Redeems `code` at `now` for a client presenting `client_id`,
/// `client_secret` and `redirect_uri`; `client` is what the credential
/// store holds under that client id and redirect URI.
///
/// The code is fetched and deleted in one step before anything is checked,
/// so it is consumed whatever follows. An absent, expired or already used
/// code, or one bound to another client or redirect URI, gives
/// `InvalidGrant`. A rejected secret gives `TokenIssuanceFailed`. Otherwise
/// a token is issued: it carries the code's user, the client as audience,
/// the code's scopes, and expires `ACCESS_TOKEN_TTL_SECS` after `now`.
pub fn redeem(
    store: &mut TtlStore<AuthCodePayload>,
    client: Option<&Client>,
    code: &String,
    client_id: &String,
    client_secret: &String,
    redirect_uri: &String,
    now: u64,
) -> (r: Result<TokenResponse, OAuthError>)
    requires
        old(store).wf(),
    ensures
        final(store).wf(),
        final(store)@ == old(store)@.remove(code@),
        match redemption_outcome(live_value(old(store)@, code@, now), client_id@, redirect_uri@) {
            Err(e) => r == Err::<TokenResponse, OAuthError>(e),
            Ok(p) => {
                &&& r matches Err(e) ==> e == OAuthError::TokenIssuanceFailed
                &&& r is Ok <==> secret_accepted(
                    client,
                    client_id@,
                    redirect_uri@,
                    vstd::utf8::encode_utf8(client_secret@),
                ) && issuable_at(now as int)
                &&& r matches Ok(t) ==> token_for(t, p, client_id@, vstd::utf8::encode_utf8(client_secret@), now)
            },
        },
{
    let p = redeem_code(store, code, client_id, redirect_uri, now)?;
    issue_token(client, &p, client_id, client_secret, redirect_uri, now)
}

} // verus!
