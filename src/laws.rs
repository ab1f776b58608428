use crate::authorize::{
    client_permits, request_permitted, str_seqs, AuthCodePayload, AuthorizeInput, Client,
    AUTH_CODE_TTL_SECS,
};
use crate::error::OAuthError;
use crate::store::{expiry, live_value};
use crate::token::redemption_outcome;
use vstd::prelude::*;

verus! {

/// A redemption attempt: when it reaches the store, and the client id and
/// redirect URI it presents.
pub struct Attempt {
    pub at: u64,
    pub client_id: Seq<char>,
    pub redirect_uri: Seq<char>,
}

/// How many of `attempts` on `code`, applied one after another to a code
/// store with model `m`, pass redemption. Each attempt takes the code out of
/// the store whatever its outcome, as `redeem` does.
pub open spec fn granted_redemptions(
    m: Map<Seq<char>, (AuthCodePayload, u64)>,
    code: Seq<char>,
    attempts: Seq<Attempt>,
) -> nat
    decreases attempts.len(),
{
    if attempts.len() == 0 {
        0
    } else {
        let a = attempts[0];
        let here: nat = if redemption_outcome(live_value(m, code, a.at), a.client_id, a.redirect_uri) is Ok {
            1
        } else {
            0
        };
        here + granted_redemptions(m.remove(code), code, attempts.drop_first())
    }
}

proof fn lemma_none_after_removal(
    m: Map<Seq<char>, (AuthCodePayload, u64)>,
    code: Seq<char>,
    attempts: Seq<Attempt>,
)
    requires
        !m.contains_key(code),
    ensures
        granted_redemptions(m, code, attempts) == 0,
    decreases attempts.len(),
{
    if attempts.len() > 0 {
        assert(m.remove(code) =~= m);
        lemma_none_after_removal(m, code, attempts.drop_first());
    }
}

/// However many redemptions of one code are attempted, in whatever order
/// the store serializes them, at most one passes; exactly one does when the
/// first to reach the store finds the code live and correctly bound, and
/// every other one fails with `InvalidGrant`.
pub proof fn lemma_code_redeemed_at_most_once(
    m: Map<Seq<char>, (AuthCodePayload, u64)>,
    code: Seq<char>,
    attempts: Seq<Attempt>,
)
    ensures
        granted_redemptions(m, code, attempts) <= 1,
        attempts.len() > 0 ==> (granted_redemptions(m, code, attempts) == 1 <==> redemption_outcome(
            live_value(m, code, attempts[0].at),
            attempts[0].client_id,
            attempts[0].redirect_uri,
        ) is Ok),
        forall|i: int|
            1 <= i < attempts.len() ==> redemption_outcome(
                live_value(m.remove(code), code, #[trigger] attempts[i].at),
                attempts[i].client_id,
                attempts[i].redirect_uri,
            ) == Err::<AuthCodePayload, OAuthError>(OAuthError::InvalidGrant),
{
    if attempts.len() > 0 {
        lemma_none_after_removal(m.remove(code), code, attempts.drop_first());
    }
}

/// A code that is not redeemed within its TTL is gone: from the moment its
/// expiry is reached every redemption of it fails with `InvalidGrant`, though
/// nothing deleted it.
pub proof fn lemma_code_expires(
    m: Map<Seq<char>, (AuthCodePayload, u64)>,
    code: Seq<char>,
    payload: AuthCodePayload,
    issued_at: u64,
    at: u64,
    client_id: Seq<char>,
    redirect_uri: Seq<char>,
)
    requires
        at >= issued_at + AUTH_CODE_TTL_SECS,
    ensures
        live_value(m.insert(code, (payload, expiry(issued_at, AUTH_CODE_TTL_SECS))), code, at) is None,
        redemption_outcome(
            live_value(m.insert(code, (payload, expiry(issued_at, AUTH_CODE_TTL_SECS))), code, at),
            client_id,
            redirect_uri,
        ) == Err::<AuthCodePayload, OAuthError>(OAuthError::InvalidGrant),
{
}

/// A redemption presenting another client id or redirect URI than the code
/// was bound to fails with `InvalidGrant`, and since the attempt removed the
/// code, a later one with the right values fails the same way.
pub proof fn lemma_binding_mismatch_consumes(
    m: Map<Seq<char>, (AuthCodePayload, u64)>,
    code: Seq<char>,
    first: Attempt,
    retry: Attempt,
)
    requires
        live_value(m, code, first.at) matches Some(p) && (p.client_id@ != first.client_id
            || p.redirect_uri@ != first.redirect_uri),
    ensures
        redemption_outcome(live_value(m, code, first.at), first.client_id, first.redirect_uri)
            == Err::<AuthCodePayload, OAuthError>(OAuthError::InvalidGrant),
        redemption_outcome(live_value(m.remove(code), code, retry.at), retry.client_id, retry.redirect_uri)
            == Err::<AuthCodePayload, OAuthError>(OAuthError::InvalidGrant),
{
}

/// An unknown client, a known client with an unregistered redirect URI, and a
/// known client and redirect URI with a scope not granted are all refused the
/// same way: `authorize` answers each with `InvalidClientOrBinding` alone.
pub proof fn lemma_binding_failures_alike(client: Option<&Client>, input: AuthorizeInput)
    ensures
        client is None ==> !request_permitted(client, input),
        client matches Some(c) && c.name@ != input.client_id@ ==> !request_permitted(client, input),
        client matches Some(c) && !str_seqs(c.redirect_uris@).contains(input.redirect_uri@)
            ==> !request_permitted(client, input),
        client matches Some(c) && (exists|i: int|
            0 <= i < input.scopes@.len() && !str_seqs(c.scopes@).contains(
                #[trigger] input.scopes@[i]@,
            )) ==> !request_permitted(client, input),
{
    if let Some(c) = client {
        if exists|i: int|
            0 <= i < input.scopes@.len() && !str_seqs(c.scopes@).contains(
                #[trigger] input.scopes@[i]@,
            ) {
            let i = choose|i: int|
                0 <= i < input.scopes@.len() && !str_seqs(c.scopes@).contains(
                    #[trigger] input.scopes@[i]@,
                );
            assert(str_seqs(input.scopes@)[i] == input.scopes@[i]@);
            assert(!client_permits(*c, input.client_id@, input.redirect_uri@, str_seqs(input.scopes@)));
        }
    }
}

} // verus!
