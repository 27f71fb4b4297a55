use enseada::entity::{AuthorizationCode, Client, Token, TokenKind};
use enseada::error::{Error, ErrorKind};
use enseada::handler::{OAuthHandler, ACCESS_TOKEN_TTL, CODE_TTL};
use enseada::redirect::{authorization_reply, Reply};
use enseada::request::{AuthorizationRequest, TokenRequest};
use enseada::response::{TokenType};
use enseada::scope::Scope;
use enseada::storage::{
    AuthorizationCodeStorage, ClientRegistry, MemoryStore, TokenStorage,
};

const CALLBACK: &str = "https://host/ui/auth/callback";

type Handler = OAuthHandler<
    MemoryStore<Client>,
    MemoryStore<Token>,
    MemoryStore<Token>,
    MemoryStore<AuthorizationCode>,
>;

fn handler() -> Handler {
    let mut clients = MemoryStore::new();
    clients
        .register_client(Client::public(
            "enseada".to_string(),
            Scope::from("profile"),
            vec![CALLBACK.to_string()],
        ))
        .unwrap();
    OAuthHandler::new(clients, MemoryStore::new(), MemoryStore::new(), MemoryStore::new())
}

fn auth_request(redirect_uri: &str, scope: &str) -> AuthorizationRequest {
    AuthorizationRequest {
        response_type: "code".to_string(),
        client_id: "enseada".to_string(),
        redirect_uri: redirect_uri.to_string(),
        scope: Scope::from(scope),
        state: Some("xyz".to_string()),
    }
}

fn token_request(code: &str) -> TokenRequest {
    TokenRequest {
        grant_type: "authorization_code".to_string(),
        code: Some(code.to_string()),
        redirect_uri: Some(CALLBACK.to_string()),
        client_id: Some("enseada".to_string()),
    }
}

#[test]
fn end_to_end_code_flow() {
    let mut h = handler();
    let req = auth_request(CALLBACK, "profile");
    let reply = h.authorize(&req, "alice", 1000, &vec!["sig".to_string()]);
    match reply {
        Reply::Redirect(loc) => assert_eq!(loc, "https://host/ui/auth/callback?code=sig&state=xyz"),
        Reply::Direct(body) => panic!("unexpected direct reply {}", body),
    }
    let code = h.codes.get_code("sig").unwrap();
    assert_eq!(code.user_id(), "alice");
    assert_eq!(code.expires_at(), 1000 + CODE_TTL);

    let res = h.exchange(&token_request("sig"), 1001, "access", None).unwrap();
    assert_eq!(res.access_token, "access");
    assert_eq!(res.token_type, TokenType::Bearer);
    assert_eq!(res.token_type.as_str(), "bearer");
    assert_eq!(res.expires_in, 3600);
    assert_eq!(res.refresh_token, None);
    assert_eq!(res.scope.to_string(), "profile");
    let token = h.access_tokens.get_token("access").unwrap();
    assert_eq!(token.kind(), TokenKind::Access);
    assert_eq!(token.user_id(), Some("alice".to_string()));
    assert_eq!(token.expires_at(), 1001 + ACCESS_TOKEN_TTL);

    let again = h.exchange(&token_request("sig"), 1002, "access2", None);
    assert_eq!(*again.unwrap_err().kind(), ErrorKind::InvalidGrant);
}

#[test]
fn code_is_single_use_with_refresh_token() {
    let mut h = handler();
    let req = auth_request(CALLBACK, "profile");
    h.handle(&req, "bob", 0, &vec!["c1".to_string()]).unwrap();
    let res = h.exchange(&token_request("c1"), 10, "a1", Some("r1")).unwrap();
    assert_eq!(res.refresh_token, Some("r1".to_string()));
    assert_eq!(h.refresh_tokens.get_token("r1").unwrap().kind(), TokenKind::Refresh);
    let err = h.exchange(&token_request("c1"), 11, "a2", Some("r2")).unwrap_err();
    assert_eq!(*err.kind(), ErrorKind::InvalidGrant);
    assert!(h.access_tokens.get_token("a2").is_none());
}

#[test]
fn unregistered_redirect_uri_is_answered_directly() {
    let mut h = handler();
    let req = auth_request("https://evil/cb", "profile");
    let reply = h.authorize(&req, "alice", 0, &vec!["sig".to_string()]);
    match reply {
        Reply::Direct(body) => assert!(body.starts_with("invalid_redirect_uri: ")),
        Reply::Redirect(loc) => panic!("redirected to {}", loc),
    }
    assert!(h.codes.get_code("sig").is_none());
}

#[test]
fn scope_escalation_is_rejected_and_stores_nothing() {
    let mut h = handler();
    let req = auth_request(CALLBACK, "profile users:manage");
    let err = h.handle(&req, "alice", 0, &vec!["sig".to_string()]).unwrap_err();
    assert_eq!(*err.kind(), ErrorKind::InvalidScope);
    assert!(h.codes.get_code("sig").is_none());
    match h.authorize(&req, "alice", 0, &vec!["sig".to_string()]) {
        Reply::Redirect(loc) => assert!(loc.starts_with(
            "https://host/ui/auth/callback?error=invalid_scope&error_description="
        ) && loc.ends_with("&state=xyz")),
        Reply::Direct(body) => panic!("unexpected direct reply {}", body),
    }
}

#[test]
fn validate_reports_each_kind() {
    let h = handler();
    let mut req = auth_request(CALLBACK, "profile");
    assert!(h.validate(&req).is_ok());
    req.client_id = "other".to_string();
    assert_eq!(*h.validate(&req).unwrap_err().kind(), ErrorKind::InvalidClient);
    req.client_id = "enseada".to_string();
    req.response_type = "token".to_string();
    assert_eq!(*h.validate(&req).unwrap_err().kind(), ErrorKind::UnsupportedResponseType);
}

#[test]
fn conflicting_signature_is_retried() {
    let mut h = handler();
    let req = auth_request(CALLBACK, "profile");
    h.handle(&req, "alice", 0, &vec!["taken".to_string()]).unwrap();
    let res = h
        .handle(&req, "alice", 0, &vec!["taken".to_string(), "free".to_string()])
        .unwrap();
    assert_eq!(res.code().signature(), "free");
    assert_eq!(res.state(), &Some("xyz".to_string()));
    let err = h.handle(&req, "alice", 0, &vec!["taken".to_string()]).unwrap_err();
    assert_eq!(*err.kind(), ErrorKind::ServerError);
}

#[test]
fn token_request_errors() {
    let mut h = handler();
    let req = auth_request(CALLBACK, "profile");
    h.handle(&req, "alice", 100, &vec!["c".to_string()]).unwrap();

    let mut bad = token_request("c");
    bad.grant_type = "password".to_string();
    assert_eq!(*h.exchange(&bad, 101, "a", None).unwrap_err().kind(), ErrorKind::UnsupportedGrantType);

    let mut bad = token_request("c");
    bad.code = None;
    assert_eq!(*h.exchange(&bad, 101, "a", None).unwrap_err().kind(), ErrorKind::InvalidRequest);

    let mut bad = token_request("c");
    bad.client_id = Some("other".to_string());
    assert_eq!(*h.exchange(&bad, 101, "a", None).unwrap_err().kind(), ErrorKind::InvalidGrant);

    let mut bad = token_request("c");
    bad.redirect_uri = Some("https://host/other".to_string());
    assert_eq!(*h.exchange(&bad, 101, "a", None).unwrap_err().kind(), ErrorKind::InvalidGrant);

    let expired = h.exchange(&token_request("c"), 100 + CODE_TTL, "a", None);
    assert_eq!(*expired.unwrap_err().kind(), ErrorKind::InvalidGrant);

    assert_eq!(
        *h.exchange(&token_request("missing"), 101, "a", None).unwrap_err().kind(),
        ErrorKind::InvalidGrant
    );
    assert!(h.exchange(&token_request("c"), 101, "a", None).is_ok());
}

#[test]
fn error_reply_encodes_fields() {
    let mut e = Error::new(ErrorKind::AccessDenied, "no way".to_string());
    e.set_error_uri("https://doc/e".to_string());
    let outcome = Err(e);
    let reply = authorization_reply(&outcome, "https://c/cb?old=1", &Some("a b".to_string()));
    match reply {
        Reply::Redirect(loc) => assert_eq!(
            loc,
            "https://c/cb?error=access_denied&error_description=no+way&error_uri=https%3A%2F%2Fdoc%2Fe&state=a+b"
        ),
        Reply::Direct(body) => panic!("unexpected direct reply {}", body),
    }
}

#[test]
fn reply_keeps_fragment_and_replaces_query() {
    let mut h = handler();
    let req = auth_request(CALLBACK, "profile");
    let outcome = h.handle(&req, "alice", 0, &vec!["s".to_string()]);
    match authorization_reply(&outcome, "https://c/cb?x=1#frag", &None) {
        Reply::Redirect(loc) => assert_eq!(loc, "https://c/cb?code=s&state=xyz#frag"),
        Reply::Direct(body) => panic!("unexpected direct reply {}", body),
    }
}

#[test]
fn unparsable_redirect_uri_is_answered_directly() {
    let outcome = Err(Error::new(ErrorKind::AccessDenied, "no".to_string()));
    match authorization_reply(&outcome, "not a url", &None) {
        Reply::Direct(body) => assert_eq!(body, "invalid_redirect_uri: redirect uri is not a valid URL"),
        Reply::Redirect(loc) => panic!("redirected to {}", loc),
    }
}

#[test]
fn unknown_client_is_answered_directly() {
    let mut h = handler();
    let mut req = auth_request("https://evil/cb", "profile");
    req.client_id = "nobody".to_string();
    match h.authorize(&req, "alice", 0, &vec!["sig".to_string()]) {
        Reply::Direct(body) => assert!(body.starts_with("invalid_client: ")),
        Reply::Redirect(loc) => panic!("redirected to {}", loc),
    }
    assert!(h.codes.get_code("sig").is_none());
}

#[test]
fn failed_refresh_store_revokes_access_token() {
    let mut h = handler();
    let req = auth_request(CALLBACK, "profile");
    h.handle(&req, "alice", 0, &vec!["c".to_string()]).unwrap();
    h.refresh_tokens
        .store_token(
            "taken",
            Token::new(TokenKind::Refresh, "taken".to_string(), "x".to_string(), Scope::from(""), None, 9),
        )
        .unwrap();
    let err = h.exchange(&token_request("c"), 1, "a", Some("taken")).unwrap_err();
    assert_eq!(*err.kind(), ErrorKind::ServerError);
    assert!(h.access_tokens.get_token("a").is_none());
    assert!(h.codes.get_code("c").is_none());
}
