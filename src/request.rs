use crate::authorize::{str_seqs, AuthorizeInput};
use crate::error::OAuthError;
use crate::token::TokenInput;
use vstd::prelude::*;

verus! {

/// The query of an authorization request, each parameter as sent.
pub struct AuthorizeQuery {
    pub client_id: Option<String>,
    pub response_type: Option<String>,
    pub redirect_uri: Option<String>,
    pub scope: Option<String>,
    pub state: Option<String>,
}

/// The query of a token request.
pub struct TokenQuery {
    pub grant_type: Option<String>,
    pub redirect_uri: Option<String>,
    pub code: String,
    pub client_id: String,
    pub client_secret: String,
}

/// A request to echo bytes back as text.
pub struct EchoRequest {
    pub data: Vec<u8>,
}

/// The whitespace-separated words of `s`.
pub uninterp spec fn whitespace_words(s: Seq<char>) -> Seq<Seq<char>>;

/// Relies on `str::split_whitespace`: the words of `s`, in order, with the
/// Unicode whitespace between them dropped. An empty string has none.
#[verifier::external_body]
fn split_scope(s: &str) -> (r: Vec<String>)
    ensures
        str_seqs(r@) == whitespace_words(s@),
        s@.len() == 0 ==> r@.len() == 0,
{
    s.split_whitespace().map(|w| w.to_string()).collect()
}

/// The requested scopes: the words of the `scope` parameter, or none.
pub open spec fn requested_scopes(scope: Option<String>) -> Seq<Seq<char>> {
    match scope {
        Some(s) => whitespace_words(s@),
        None => Seq::empty(),
    }
}

/// The first check that an authorization request fails, in the order the
/// parameters are checked, with `user` the identity of the caller's session.
pub open spec fn authorize_query_error(q: AuthorizeQuery, user: Option<String>) -> Option<OAuthError> {
    if q.client_id is None {
        Some(OAuthError::InvalidRequest)
    } else if q.response_type is None {
        Some(OAuthError::InvalidRequest)
    } else if q.response_type.unwrap()@ != "code"@ {
        Some(OAuthError::UnsupportedResponseType)
    } else if q.redirect_uri is None {
        Some(OAuthError::InvalidRequest)
    } else if user is None {
        Some(OAuthError::Unauthorized)
    } else {
        None
    }
}

/// Validates an authorization request and binds it to the session's user.
/// Only `response_type=code` is supported; `client_id`, `response_type` and
/// `redirect_uri` are required, and a live session is required after them.
pub fn parse_authorize_query(q: AuthorizeQuery, user: Option<String>) -> (r: Result<AuthorizeInput, OAuthError>)
    ensures
        match authorize_query_error(q, user) {
            Some(e) => r == Err::<AuthorizeInput, OAuthError>(e),
            None => r matches Ok(input) && {
                &&& input.client_id@ == q.client_id.unwrap()@
                &&& input.redirect_uri@ == q.redirect_uri.unwrap()@
                &&& input.user_id@ == user.unwrap()@
                &&& input.state == q.state
                &&& str_seqs(input.scopes@) == requested_scopes(q.scope)
            },
        },
{
    let AuthorizeQuery { client_id, response_type, redirect_uri, scope, state } = q;
    let client_id = match client_id {
        Some(c) => c,
        None => {
            return Err(OAuthError::InvalidRequest);
        },
    };
    let response_type = match response_type {
        Some(rt) => rt,
        None => {
            return Err(OAuthError::InvalidRequest);
        },
    };
    if response_type != "code".to_owned() {
        return Err(OAuthError::UnsupportedResponseType);
    }
    let redirect_uri = match redirect_uri {
        Some(u) => u,
        None => {
            return Err(OAuthError::InvalidRequest);
        },
    };
    let scopes = match &scope {
        Some(s) => split_scope(s.as_str()),
        None => Vec::new(),
    };
    assert(str_seqs(scopes@) =~= requested_scopes(scope));
    let user_id = match user {
        Some(u) => u,
        None => {
            return Err(OAuthError::Unauthorized);
        },
    };
    Ok(AuthorizeInput { client_id, redirect_uri, scopes, state, user_id })
}

/// The grant type is absent (taken as `authorization_code`) or is
/// `authorization_code`.
pub open spec fn grant_type_supported(grant_type: Option<String>) -> bool {
    match grant_type {
        Some(g) => g@ == "authorization_code"@,
        None => true,
    }
}

/// The redirect URI of a token request, empty when absent.
pub open spec fn redirect_or_empty(u: Option<String>) -> Seq<char> {
    match u {
        Some(u) => u@,
        None => Seq::empty(),
    }
}

/// Checks the grant type of a token request and gives the binding it claims;
/// an absent `redirect_uri` is taken as empty.
pub fn token_request_binding(q: &TokenQuery) -> (r: Result<TokenInput, OAuthError>)
    ensures
        !grant_type_supported(q.grant_type) ==> r == Err::<TokenInput, OAuthError>(
            OAuthError::UnsupportedGrantType,
        ),
        grant_type_supported(q.grant_type) ==> (r matches Ok(b) && b.client_id@ == q.client_id@
            && b.redirect_uri@ == redirect_or_empty(q.redirect_uri)),
{
    match &q.grant_type {
        Some(g) => {
            if *g != "authorization_code".to_owned() {
                return Err(OAuthError::UnsupportedGrantType);
            }
        },
        None => {},
    }
    let redirect_uri = match &q.redirect_uri {
        Some(u) => u.clone(),
        None => String::new(),
    };
    Ok(TokenInput { client_id: q.client_id.clone(), redirect_uri })
}

/// The bytes to echo back: the request's data followed by `!`.
pub fn echo_reply(req: EchoRequest) -> (r: Vec<u8>)
    ensures
        r@ == req.data@.push(33u8),
{
    let mut data = req.data;
    data.push(33u8);
    data
}

} // verus!
