use enseada::bootstrap::bootstrap;
use enseada::entity::{AuthorizationCode, Client, Token};
use enseada::error::ErrorKind;
use enseada::handler::OAuthHandler;
use enseada::partitioned::PartitionedStore;
use enseada::request::{AuthorizationRequest, TokenRequest};
use enseada::scope::Scope;
use enseada::storage::{
    AuthorizationCodeStorage, ClientStorage, DocumentStore, MemoryStore, TokenStorage,
};

#[test]
fn partitioned_bootstrap_uses_client_key() {
    let mut dbs = MemoryStore::<bool>::new();
    let mut clients = PartitionedStore::new(MemoryStore::<Client>::new(), "oauth".to_string());
    bootstrap(&mut dbs, &mut clients, "https://h/ui/auth/callback".to_string()).unwrap();
    bootstrap(&mut dbs, &mut clients, "https://h/ui/auth/callback".to_string()).unwrap();
    assert!(clients.docs.get_document("oauth:enseada").is_some());
    assert!(clients.docs.get_document("enseada").is_none());
    assert!(clients.get_client("enseada").is_some());
    assert_eq!(clients.key("enseada"), "oauth:enseada");
}

#[test]
fn partitioned_code_flow() {
    let mut clients = PartitionedStore::new(MemoryStore::<Client>::new(), "oauth".to_string());
    clients
        .put(
            "app",
            Client::confidential(
                "app".to_string(),
                "SECRET-REDACTED".to_string(),
                Scope::from("read write"),
                vec!["https://app/cb".to_string()],
            ),
        )
        .unwrap();
    let mut h = OAuthHandler::new(
        clients,
        PartitionedStore::new(MemoryStore::<Token>::new(), "access_token".to_string()),
        PartitionedStore::new(MemoryStore::<Token>::new(), "refresh_token".to_string()),
        PartitionedStore::new(MemoryStore::<AuthorizationCode>::new(), "code".to_string()),
    );
    let req = AuthorizationRequest {
        response_type: "code".to_string(),
        client_id: "app".to_string(),
        redirect_uri: "https://app/cb".to_string(),
        scope: Scope::from("read"),
        state: None,
    };
    let resp = h.handle(&req, "carol", 0, &vec!["k".to_string()]).unwrap();
    assert_eq!(resp.state(), &None);
    assert!(h.codes.docs.get_document("code:k").is_some());
    let treq = TokenRequest {
        grant_type: "authorization_code".to_string(),
        code: Some("k".to_string()),
        redirect_uri: Some("https://app/cb".to_string()),
        client_id: Some("app".to_string()),
    };
    let tok = h.exchange(&treq, 1, "t", Some("r")).unwrap();
    assert_eq!(tok.scope.to_string(), "read");
    assert!(h.codes.get_code("k").is_none());
    assert!(h.access_tokens.docs.get_document("access_token:t").is_some());
    assert!(h.refresh_tokens.get_token("r").is_some());
    let again = h.exchange(&treq, 2, "t2", None).unwrap_err();
    assert_eq!(*again.kind(), ErrorKind::InvalidGrant);
}
