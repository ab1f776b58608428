use authz_server::authorize::{authorize, AuthCodePayload, AuthorizeInput, Client};
use authz_server::error::OAuthError;
use authz_server::hashing::{hash_password, verify_hash};
use authz_server::registration::{hash_credential, new_client_secret};
use authz_server::request::{
    echo_reply, parse_authorize_query, token_request_binding, AuthorizeQuery, EchoRequest,
    TokenQuery,
};
use authz_server::secrets::generate_auth_code;
use authz_server::session::{login, resolve_session};
use authz_server::store::TtlStore;
use authz_server::token::{
    build_claims, check_redemption, clock_now, issue_token, join_scopes, redeem, redeem_code,
    TokenResponse,
};

const T0: u64 = 1_700_000_000;

fn s(x: &str) -> String {
    x.to_string()
}

fn client_with_secret(secret: &str) -> Client {
    Client {
        id: 7,
        name: s("X"),
        secret_hash: hash_password(secret).expect("hashing works"),
        scopes: vec![s("openid")],
        redirect_uris: vec![s("https://app/cb")],
    }
}

fn plain_client() -> Client {
    Client {
        id: 7,
        name: s("X"),
        secret_hash: s("not-a-hash"),
        scopes: vec![s("openid"), s("email")],
        redirect_uris: vec![s("https://app/cb")],
    }
}

fn input(client_id: &str, redirect: &str, scopes: &[&str]) -> AuthorizeInput {
    AuthorizeInput {
        client_id: s(client_id),
        redirect_uri: s(redirect),
        scopes: scopes.iter().map(|x| s(x)).collect(),
        state: Some(s("xyz")),
        user_id: s("alice@example.com"),
    }
}

fn issue_code(store: &mut TtlStore<AuthCodePayload>, client: &Client, now: u64) -> String {
    authorize(store, Some(client), input("X", "https://app/cb", &["openid"]), now)
        .expect("authorized")
        .code
}

fn claims_of(token: &str, secret: &str, aud: &str) -> serde_json::Value {
    let mut validation = jsonwebtoken::Validation::new(jsonwebtoken::Algorithm::HS256);
    validation.set_audience(&[aud]);
    validation.validate_exp = false;
    jsonwebtoken::decode::<serde_json::Value>(
        token,
        &jsonwebtoken::DecodingKey::from_secret(secret.as_bytes()),
        &validation,
    )
    .expect("token verifies")
    .claims
}

#[test]
fn full_authorization_code_flow() {
    let secret = "client-secret-value";
    let client = client_with_secret(secret);
    let user_record = Some((1u64, hash_password("hunter2").unwrap()));
    let mut sessions: TtlStore<String> = TtlStore::new();
    let mut codes: TtlStore<AuthCodePayload> = TtlStore::new();
    let now = clock_now();

    let sid = login(&mut sessions, user_record, "alice@example.com", "hunter2", now).unwrap();
    let user = resolve_session(&sessions, &sid, now);
    assert_eq!(user.as_deref(), Some("alice@example.com"));

    let q = AuthorizeQuery {
        client_id: Some(s("X")),
        response_type: Some(s("code")),
        redirect_uri: Some(s("https://app/cb")),
        scope: Some(s("openid")),
        state: None,
    };
    let req = parse_authorize_query(q, user).unwrap();
    let res = authorize(&mut codes, Some(&client), req, now).unwrap();
    assert_eq!(res.redirect_uri, "https://app/cb");
    assert_eq!(res.state, "");
    assert_eq!(res.code.len(), 43);

    let tq = TokenQuery {
        grant_type: Some(s("authorization_code")),
        redirect_uri: Some(s("https://app/cb")),
        code: res.code.clone(),
        client_id: s("X"),
        client_secret: s(secret),
    };
    let binding = token_request_binding(&tq).unwrap();
    let tok: TokenResponse = redeem(
        &mut codes,
        Some(&client),
        &tq.code,
        &binding.client_id,
        &tq.client_secret,
        &binding.redirect_uri,
        now,
    )
    .unwrap();
    assert_eq!(tok.token_type, "Bearer");
    assert_eq!(tok.expires_in, 3600);
    let claims = claims_of(&tok.access_token, secret, "X");
    assert_eq!(claims["aud"], "X");
    assert_eq!(claims["sub"], "alice@example.com");
    assert_eq!(claims["scope"], "openid");
    let iat = claims["iat"].as_i64().unwrap();
    let exp = claims["exp"].as_i64().unwrap();
    assert_eq!(exp - iat, 3600);
    assert_eq!(iat, now as i64);

    let again = redeem(
        &mut codes,
        Some(&client),
        &tq.code,
        &binding.client_id,
        &tq.client_secret,
        &binding.redirect_uri,
        now,
    );
    assert_eq!(again.err(), Some(OAuthError::InvalidGrant));
}

#[test]
fn unsupported_response_type_is_rejected() {
    let q = AuthorizeQuery {
        client_id: Some(s("X")),
        response_type: Some(s("token")),
        redirect_uri: Some(s("https://app/cb")),
        scope: None,
        state: None,
    };
    let err = parse_authorize_query(q, Some(s("alice@example.com"))).err().unwrap();
    assert_eq!(err, OAuthError::UnsupportedResponseType);
    assert_eq!(err.status(), 400);
    assert_eq!(err.code(), "unsupported_response_type");
}

#[test]
fn authorize_query_checks_in_order() {
    let base = || AuthorizeQuery {
        client_id: Some(s("X")),
        response_type: Some(s("code")),
        redirect_uri: Some(s("https://app/cb")),
        scope: Some(s("openid  email")),
        state: Some(s("st")),
    };
    let mut q = base();
    q.client_id = None;
    assert_eq!(parse_authorize_query(q, Some(s("u"))).err(), Some(OAuthError::InvalidRequest));
    let mut q = base();
    q.response_type = None;
    assert_eq!(parse_authorize_query(q, Some(s("u"))).err(), Some(OAuthError::InvalidRequest));
    let mut q = base();
    q.redirect_uri = None;
    assert_eq!(parse_authorize_query(q, Some(s("u"))).err(), Some(OAuthError::InvalidRequest));
    assert_eq!(parse_authorize_query(base(), None).err(), Some(OAuthError::Unauthorized));
    let ok = parse_authorize_query(base(), Some(s("u"))).unwrap();
    assert_eq!(ok.scopes, vec![s("openid"), s("email")]);
    assert_eq!(ok.state, Some(s("st")));
    assert_eq!(ok.user_id, "u");
}

#[test]
fn binding_failures_share_one_error() {
    let client = plain_client();
    let mut codes: TtlStore<AuthCodePayload> = TtlStore::new();
    let unknown = authorize(&mut codes, None, input("X", "https://app/cb", &["openid"]), T0);
    let other_id = authorize(&mut codes, Some(&client), input("Y", "https://app/cb", &[]), T0);
    let wrong_redirect =
        authorize(&mut codes, Some(&client), input("X", "https://evil/cb", &["openid"]), T0);
    let bad_scope =
        authorize(&mut codes, Some(&client), input("X", "https://app/cb", &["openid", "admin"]), T0);
    for r in [unknown, other_id, wrong_redirect, bad_scope] {
        assert_eq!(r.err(), Some(OAuthError::InvalidClientOrBinding));
    }
    assert_eq!(codes.len(), 0);
    assert_eq!(OAuthError::InvalidClientOrBinding.code(), "invalid_client_or_binding");
}

#[test]
fn authorize_stores_one_bound_code() {
    let client = plain_client();
    let mut codes: TtlStore<AuthCodePayload> = TtlStore::new();
    let res = authorize(&mut codes, Some(&client), input("X", "https://app/cb", &[]), T0).unwrap();
    assert_eq!(res.state, "xyz");
    assert_eq!(codes.len(), 1);
    let p = codes.get(&res.code, T0).unwrap();
    assert_eq!(p.client_id, "X");
    assert_eq!(p.user_id, "alice@example.com");
    assert_eq!(p.redirect_uri, "https://app/cb");
    assert_eq!(p.state, Some(s("xyz")));
    assert!(codes.get(&res.code, T0 + 600).is_none());
    assert!(codes.get(&res.code, T0 + 599).is_some());
}

#[test]
fn code_redeems_at_most_once() {
    let secret = "s3cret";
    let client = client_with_secret(secret);
    let mut codes: TtlStore<AuthCodePayload> = TtlStore::new();
    let code = issue_code(&mut codes, &client, T0);
    let mut granted = 0;
    let mut refused = 0;
    for _ in 0..5 {
        match redeem(&mut codes, Some(&client), &code, &s("X"), &s(secret), &s("https://app/cb"), T0 + 1) {
            Ok(_) => granted += 1,
            Err(e) => {
                assert_eq!(e, OAuthError::InvalidGrant);
                refused += 1;
            }
        }
    }
    assert_eq!(granted, 1);
    assert_eq!(refused, 4);
}

#[test]
fn expired_code_is_invalid_grant() {
    let client = plain_client();
    let mut codes: TtlStore<AuthCodePayload> = TtlStore::new();
    let code = issue_code(&mut codes, &client, T0);
    let r = redeem(&mut codes, Some(&client), &code, &s("X"), &s("x"), &s("https://app/cb"), T0 + 600);
    assert_eq!(r.err(), Some(OAuthError::InvalidGrant));
    assert_eq!(codes.len(), 0);
}

#[test]
fn binding_mismatch_consumes_code() {
    let secret = "s3cret";
    let client = client_with_secret(secret);
    let mut codes: TtlStore<AuthCodePayload> = TtlStore::new();
    let code = issue_code(&mut codes, &client, T0);
    let wrong = redeem(&mut codes, Some(&client), &code, &s("X"), &s(secret), &s("https://app/other"), T0);
    assert_eq!(wrong.err(), Some(OAuthError::InvalidGrant));
    let retry = redeem(&mut codes, Some(&client), &code, &s("X"), &s(secret), &s("https://app/cb"), T0);
    assert_eq!(retry.err(), Some(OAuthError::InvalidGrant));

    let code = issue_code(&mut codes, &client, T0);
    let wrong = redeem(&mut codes, Some(&client), &code, &s("Y"), &s(secret), &s("https://app/cb"), T0);
    assert_eq!(wrong.err(), Some(OAuthError::InvalidGrant));
    let retry = redeem(&mut codes, Some(&client), &code, &s("X"), &s(secret), &s("https://app/cb"), T0);
    assert_eq!(retry.err(), Some(OAuthError::InvalidGrant));
}

#[test]
fn wrong_secret_fails_issuance_and_consumes_code() {
    let client = client_with_secret("right");
    let mut codes: TtlStore<AuthCodePayload> = TtlStore::new();
    let code = issue_code(&mut codes, &client, T0);
    let r = redeem(&mut codes, Some(&client), &code, &s("X"), &s("wrong"), &s("https://app/cb"), T0);
    assert_eq!(r.err(), Some(OAuthError::TokenIssuanceFailed));
    assert_eq!(OAuthError::TokenIssuanceFailed.status(), 401);
    let code = issue_code(&mut codes, &client, T0);
    let r = redeem(&mut codes, None, &code, &s("X"), &s("right"), &s("https://app/cb"), T0);
    assert_eq!(r.err(), Some(OAuthError::TokenIssuanceFailed));
    assert_eq!(codes.len(), 0);
}

#[test]
fn unsupported_grant_type() {
    let mut tq = TokenQuery {
        grant_type: Some(s("password")),
        redirect_uri: None,
        code: s("c"),
        client_id: s("X"),
        client_secret: s("x"),
    };
    assert_eq!(token_request_binding(&tq).err(), Some(OAuthError::UnsupportedGrantType));
    tq.grant_type = None;
    let b = token_request_binding(&tq).unwrap();
    assert_eq!(b.client_id, "X");
    assert_eq!(b.redirect_uri, "");
}

#[test]
fn login_failures_are_alike() {
    let mut sessions: TtlStore<String> = TtlStore::new();
    let record = Some((3u64, hash_password("pw").unwrap()));
    let wrong = login(&mut sessions, record, "a@b", "nope", T0);
    let unknown = login(&mut sessions, None, "a@b", "pw", T0);
    assert_eq!(wrong.err(), Some(OAuthError::InvalidCredentials));
    assert_eq!(unknown.err(), Some(OAuthError::InvalidCredentials));
    assert_eq!(sessions.len(), 0);
}

#[test]
fn session_expires_after_an_hour() {
    let mut sessions: TtlStore<String> = TtlStore::new();
    let record = Some((3u64, hash_password("pw").unwrap()));
    let sid = login(&mut sessions, record, "a@b", "pw", T0).unwrap();
    assert_eq!(sid.len(), 36);
    assert_eq!(resolve_session(&sessions, &sid, T0 + 3599), Some(s("a@b")));
    assert_eq!(resolve_session(&sessions, &sid, T0 + 3600), None);
    assert_eq!(resolve_session(&sessions, &s("unknown"), T0), None);
}

#[test]
fn store_take_is_one_shot() {
    let mut st: TtlStore<String> = TtlStore::new();
    st.set_with_ttl(s("k"), s("v1"), 10, T0);
    st.set_with_ttl(s("k"), s("v2"), 10, T0);
    assert_eq!(st.len(), 1);
    assert_eq!(st.get(&s("k"), T0 + 9), Some(&s("v2")));
    assert_eq!(st.take(&s("k"), T0 + 9), Some(s("v2")));
    assert_eq!(st.take(&s("k"), T0 + 9), None);
    st.set_with_ttl(s("e"), s("v"), 5, T0);
    assert_eq!(st.take(&s("e"), T0 + 5), None);
    assert_eq!(st.len(), 0);
    st.set_with_ttl(s("m"), s("v"), u64::MAX, T0);
    assert!(st.get(&s("m"), u64::MAX - 1).is_some());
}

#[test]
fn hashing_round_trip() {
    let h = hash_password("pw").unwrap();
    assert_ne!(h, "pw");
    assert!(verify_hash(b"pw", &h));
    assert!(!verify_hash(b"pX", &h));
    assert!(!verify_hash(b"pw", "garbage"));
    let h2 = hash_credential("pw").unwrap();
    assert_ne!(h2, "pw");
}

#[test]
fn generated_codes_are_fresh() {
    let a = generate_auth_code();
    let b = generate_auth_code();
    assert_eq!(a.len(), 43);
    assert_ne!(a, b);
    assert!(a.chars().all(|c| c.is_ascii_alphanumeric() || c == '-' || c == '_'));
    let sec = new_client_secret().unwrap();
    assert_eq!(sec.plain.len(), 43);
    assert!(verify_hash(sec.plain.as_bytes(), &sec.hash));
}

#[test]
fn claims_and_scopes() {
    let c = build_claims("u", "X", "openid", 100).unwrap();
    assert_eq!((c.sub.as_str(), c.aud.as_str(), c.scope.as_str()), ("u", "X", "openid"));
    assert_eq!((c.iat, c.exp), (100, 3700));
    assert!(build_claims("u", "X", "openid", i64::MAX - 3599).is_none());
    assert_eq!(join_scopes(&vec![s("openid"), s("email"), s("profile")]), "openid email profile");
    assert_eq!(join_scopes(&vec![]), "");
    assert!(clock_now() > T0);
}

#[test]
fn redemption_check_cases() {
    let p = || AuthCodePayload {
        client_id: s("X"),
        user_id: s("u"),
        redirect_uri: s("https://app/cb"),
        scopes: vec![],
        state: None,
    };
    assert_eq!(check_redemption(None, &s("X"), &s("https://app/cb")).err(), Some(OAuthError::InvalidGrant));
    assert_eq!(check_redemption(Some(p()), &s("X"), &s("https://app/cb/")).err(), Some(OAuthError::InvalidGrant));
    assert_eq!(check_redemption(Some(p()), &s("x"), &s("https://app/cb")).err(), Some(OAuthError::InvalidGrant));
    assert_eq!(check_redemption(Some(p()), &s("X"), &s("https://app/cb")).unwrap().user_id, "u");
}

#[test]
fn error_wire_names() {
    let all = [
        (OAuthError::InvalidRequest, "invalid_request", 400),
        (OAuthError::UnsupportedResponseType, "unsupported_response_type", 400),
        (OAuthError::UnsupportedGrantType, "unsupported_grant_type", 400),
        (OAuthError::Unauthorized, "unauthorized", 401),
        (OAuthError::InvalidCredentials, "invalid_credentials", 401),
        (OAuthError::InvalidClientOrBinding, "invalid_client_or_binding", 400),
        (OAuthError::InvalidGrant, "invalid_grant", 400),
        (OAuthError::TokenIssuanceFailed, "token_issuance_failed", 401),
        (OAuthError::ServerError, "server_error", 500),
    ];
    for (e, code, status) in all {
        assert_eq!(e.code(), code);
        assert_eq!(e.status(), status);
    }
}

#[test]
fn echo_appends_bang() {
    assert_eq!(echo_reply(EchoRequest { data: b"hi".to_vec() }), b"hi!".to_vec());
    assert_eq!(echo_reply(EchoRequest { data: vec![] }), b"!".to_vec());
}

#[test]
fn purge_drops_only_expired_entries() {
    let mut st: TtlStore<String> = TtlStore::new();
    st.set_with_ttl(s("a"), s("1"), 10, T0);
    st.set_with_ttl(s("b"), s("2"), 20, T0);
    st.set_with_ttl(s("c"), s("3"), 5, T0);
    st.purge_expired(T0 + 10);
    assert_eq!(st.len(), 1);
    assert_eq!(st.get(&s("b"), T0 + 10), Some(&s("2")));
    assert_eq!(st.get(&s("a"), T0 + 9), None);
    st.purge_expired(T0);
    assert_eq!(st.len(), 1);
}

#[test]
fn take_then_issue_in_two_steps() {
    let secret = "two-step";
    let client = client_with_secret(secret);
    let mut codes: TtlStore<AuthCodePayload> = TtlStore::new();
    let code = issue_code(&mut codes, &client, T0);
    let p = redeem_code(&mut codes, &code, &s("X"), &s("https://app/cb"), T0 + 1).unwrap();
    assert_eq!(codes.len(), 0);
    assert_eq!(p.user_id, "alice@example.com");
    let again = redeem_code(&mut codes, &code, &s("X"), &s("https://app/cb"), T0 + 1);
    assert_eq!(again.err(), Some(OAuthError::InvalidGrant));
    let bad = issue_token(Some(&client), &p, &s("X"), &s("nope"), &s("https://app/cb"), T0 + 1);
    assert_eq!(bad.err(), Some(OAuthError::TokenIssuanceFailed));
    let late = issue_token(Some(&client), &p, &s("X"), &s(secret), &s("https://app/cb"), u64::MAX);
    assert_eq!(late.err(), Some(OAuthError::TokenIssuanceFailed));
    let t = issue_token(Some(&client), &p, &s("X"), &s(secret), &s("https://app/cb"), T0 + 1).unwrap();
    let claims = claims_of(&t.access_token, secret, "X");
    assert_eq!(claims["iat"].as_i64().unwrap(), (T0 + 1) as i64);
    assert_eq!(claims["exp"].as_i64().unwrap(), (T0 + 1) as i64 + 3600);
    assert_eq!(t.refresh_token.len(), 43);
}
