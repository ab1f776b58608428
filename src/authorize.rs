use crate::error::OAuthError;
use crate::secrets::{b64url_nopad, generate_auth_code, SECRET_BYTES};
use crate::store::{expiry, TtlStore};
use vstd::prelude::*;

verus! {

/// How long an authorization code stays redeemable, in seconds.
pub const AUTH_CODE_TTL_SECS: u64 = 600;

/// A registered OAuth client as the credential store returns it.
pub struct Client {
    /// Row identifier in the credential store.
    pub id: u64,
    /// The client identifier that requests name.
    pub name: String,
    /// PHC string of the client secret.
    pub secret_hash: String,
    /// Scopes the client was granted.
    pub scopes: Vec<String>,
    /// Redirect URIs registered for the client.
    pub redirect_uris: Vec<String>,
}

/// A validated authorization request for an authenticated user.
pub struct AuthorizeInput {
    pub client_id: String,
    pub redirect_uri: String,
    pub scopes: Vec<String>,
    pub state: Option<String>,
    pub user_id: String,
}

/// What a successful authorization hands back to the caller.
pub struct AuthorizeResult {
    pub code: String,
    pub redirect_uri: String,
    /// The request's `state`, or empty when it had none.
    pub state: String,
}

/// What an authorization code stands for, kept in the code store.
pub struct AuthCodePayload {
    pub client_id: String,
    pub user_id: String,
    pub redirect_uri: String,
    pub scopes: Vec<String>,
    pub state: Option<String>,
}

/// The character sequences of a sequence of strings.
pub open spec fn str_seqs(v: Seq<String>) -> Seq<Seq<char>> {
    v.map_values(|s: String| s@)
}

/// `client` is the one named `client_id`, has `redirect_uri` registered and
/// was granted every scope in `scopes`.
pub open spec fn client_permits(
    client: Client,
    client_id: Seq<char>,
    redirect_uri: Seq<char>,
    scopes: Seq<Seq<char>>,
) -> bool {
    &&& client.name@ == client_id
    &&& str_seqs(client.redirect_uris@).contains(redirect_uri)
    &&& forall|i: int| 0 <= i < scopes.len() ==> str_seqs(client.scopes@).contains(#[trigger] scopes[i])
}

/// The client lookup found a client that permits the request.
pub open spec fn request_permitted(client: Option<&Client>, input: AuthorizeInput) -> bool {
    match client {
        Some(c) => client_permits(*c, input.client_id@, input.redirect_uri@, str_seqs(input.scopes@)),
        None => false,
    }
}

/// The payload that an authorization code for `input` stands for.
pub open spec fn payload_of(input: AuthorizeInput) -> AuthCodePayload {
    AuthCodePayload {
        client_id: input.client_id,
        user_id: input.user_id,
        redirect_uri: input.redirect_uri,
        scopes: input.scopes,
        state: input.state,
    }
}

/// The `state` echoed back: the request's, or empty.
pub open spec fn echoed_state(state: Option<String>) -> Seq<char> {
    match state {
        Some(s) => s@,
        None => Seq::empty(),
    }
}

/// Whether `s` is one of the strings in `v`.
pub fn contains_str(v: &Vec<String>, s: &String) -> (r: bool)
    ensures
        r == str_seqs(v@).contains(s@),
{
    let mut i: usize = 0;
    while i < v.len()
        invariant
            i <= v@.len(),
            forall|j: int| 0 <= j < i ==> v@[j]@ != s@,
        decreases v@.len() - i,
    {
        if v[i] == *s {
            assert(str_seqs(v@)[i as int] == s@);
            return true;
        }
        i = i + 1;
    }
    assert forall|j: int| 0 <= j < str_seqs(v@).len() implies str_seqs(v@)[j] != s@ by {
        assert(v@[j]@ != s@);
    }
    false
}

/// Whether `client` permits an authorization for `client_id`, `redirect_uri`
/// and the requested `scopes`. An empty scope list asks for nothing.
pub fn check_client_binding(
    client: &Client,
    client_id: &String,
    redirect_uri: &String,
    scopes: &Vec<String>,
) -> (r: bool)
    ensures
        r == client_permits(*client, client_id@, redirect_uri@, str_seqs(scopes@)),
{
    if client.name != *client_id {
        return false;
    }
    if !contains_str(&client.redirect_uris, redirect_uri) {
        return false;
    }
    let mut i: usize = 0;
    while i < scopes.len()
        invariant
            i <= scopes@.len(),
            forall|j: int| 0 <= j < i ==> str_seqs(client.scopes@).contains(#[trigger] str_seqs(scopes@)[j]),
        decreases scopes@.len() - i,
    {
        if !contains_str(&client.scopes, &scopes[i]) {
            assert(!str_seqs(client.scopes@).contains(str_seqs(scopes@)[i as int]));
            return false;
        }
        i = i + 1;
    }
    true
}

/// Authorizes `input` against the client that the credential store returned
/// for it, and on success stores a fresh code for it.
///
/// Unknown client, unregistered redirect URI and a scope not granted all give
/// the same `InvalidClientOrBinding` and leave the store untouched. On success
/// exactly one entry is written: the new code, bound to the request's client,
/// user, redirect URI, scopes and state, expiring `AUTH_CODE_TTL_SECS` after
/// `now`.
pub fn authorize(
    store: &mut TtlStore<AuthCodePayload>,
    client: Option<&Client>,
    input: AuthorizeInput,
    now: u64,
) -> (r: Result<AuthorizeResult, OAuthError>)
    requires
        old(store).wf(),
    ensures
        final(store).wf(),
        !request_permitted(client, input) ==> r == Err::<AuthorizeResult, OAuthError>(
            OAuthError::InvalidClientOrBinding,
        ) && final(store)@ == old(store)@,
        request_permitted(client, input) ==> r is Ok,
        r matches Ok(res) ==> {
            &&& final(store)@ == old(store)@.insert(
                res.code@,
                (payload_of(input), expiry(now, AUTH_CODE_TTL_SECS)),
            )
            &&& exists|b: Seq<u8>| b.len() == SECRET_BYTES && res.code@ == b64url_nopad(b)
            &&& res.code@.len() == 43
            &&& res.redirect_uri@ == input.redirect_uri@
            &&& res.state@ == echoed_state(input.state)
        },
{
    let permitted = match client {
        Some(c) => check_client_binding(c, &input.client_id, &input.redirect_uri, &input.scopes),
        None => false,
    };
    if !permitted {
        return Err(OAuthError::InvalidClientOrBinding);
    }
    let ghost input_view = input;
    let AuthorizeInput { client_id, redirect_uri, scopes, state, user_id } = input;
    let code = generate_auth_code();
    let echoed = match &state {
        Some(s) => s.clone(),
        None => String::new(),
    };
    let result_redirect = redirect_uri.clone();
    let payload = AuthCodePayload { client_id, user_id, redirect_uri, scopes, state };
    assert(payload == payload_of(input_view));
    store.set_with_ttl(code.clone(), payload, AUTH_CODE_TTL_SECS, now);
    Ok(AuthorizeResult { code, redirect_uri: result_redirect, state: echoed })
}

} // verus!
