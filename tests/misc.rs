use enseada::bootstrap::{after_create, after_probe, bootstrap, default_client, Databases};
use enseada::document::{exists_outcome, status_outcome, OAUTH_DB, USERS_DB};
use enseada::entity::Client;
use enseada::error::{Error, ErrorKind};
use enseada::response::TokenType;
use enseada::scope::Scope;
use enseada::session::Session;
use enseada::storage::{ClientStorage, MemoryStore, StoreError};

#[test]
fn bootstrap_second_run_writes_nothing() {
    let mut dbs = MemoryStore::<bool>::new();
    let mut clients: MemoryStore<Client> = MemoryStore::new();
    assert_eq!(dbs.create_database("oauth", false), Ok(()));
    bootstrap(&mut dbs, &mut clients, "https://h/cb".to_string()).unwrap();
    assert_eq!(dbs.get("oauth"), Some(false));
    assert_eq!(dbs.get("users"), Some(true));
}

#[test]
fn bootstrap_is_idempotent() {
    let mut dbs = MemoryStore::<bool>::new();
    let mut clients: MemoryStore<Client> = MemoryStore::new();
    bootstrap(&mut dbs, &mut clients, "https://host/ui/auth/callback".to_string()).unwrap();
    bootstrap(&mut dbs, &mut clients, "https://other/ui/auth/callback".to_string()).unwrap();
    assert_eq!(dbs.database_exists(OAUTH_DB), Ok(true));
    assert_eq!(dbs.database_exists(USERS_DB), Ok(true));
    let c = clients.get_client("enseada").unwrap();
    assert!(c.is_public());
    assert_eq!(c.client_secret(), None);
    assert!(c.has_redirect_uri("https://host/ui/auth/callback"));
    assert!(!c.has_redirect_uri("https://other/ui/auth/callback"));
    assert!(c.allowed_scope() == &Scope::from("profile"));
}

#[test]
fn create_database_conflicts() {
    let mut dbs = MemoryStore::<bool>::new();
    assert_eq!(dbs.create_database("x", true), Ok(()));
    assert_eq!(dbs.create_database("x", true), Err(StoreError::Conflict));
}

#[test]
fn default_client_shape() {
    let c = default_client("https://h/cb".to_string());
    assert_eq!(c.client_id(), "enseada");
    assert_eq!(c.redirect_uris(), vec!["https://h/cb".to_string()]);
}

#[test]
fn status_codes() {
    assert_eq!(status_outcome(201), Ok(()));
    assert_eq!(status_outcome(404), Err(StoreError::NotFound));
    assert_eq!(status_outcome(409), Err(StoreError::Conflict));
    assert_eq!(status_outcome(500), Err(StoreError::Backend));
    assert_eq!(exists_outcome(200), Ok(true));
    assert_eq!(exists_outcome(404), Ok(false));
    assert_eq!(exists_outcome(401), Err(StoreError::Backend));
}

#[test]
fn error_fields() {
    let mut e = Error::new(ErrorKind::InvalidGrant, "bad code".to_string());
    assert_eq!(e.to_string(), "invalid_grant: bad code");
    assert_eq!(e.error_uri(), None);
    e.set_error_uri("https://doc".to_string());
    assert_eq!(e.error_uri(), Some("https://doc".to_string()));
    assert_eq!(ErrorKind::UnsupportedResponseType.as_str(), "unsupported_response_type");
    assert_eq!(ErrorKind::TemporarilyUnavailable.as_str(), "temporarily_unavailable");
    assert_eq!(TokenType::default(), TokenType::Bearer);
}

#[test]
fn session_setters() {
    let mut s = Session::empty();
    assert_eq!(s.client_id(), "");
    assert_eq!(s.user_id(), &None);
    s.set_client_id("enseada".to_string())
        .set_scope(Scope::from("profile"))
        .set_user_id("alice".to_string());
    assert_eq!(s.client_id(), "enseada");
    assert!(s.scope() == &Scope::from("profile"));
    assert_eq!(s.user_id(), &Some("alice".to_string()));
    let d = Session::default();
    assert_eq!(d.scope().to_string(), "");
}

#[test]
fn bootstrap_steps() {
    assert!(!after_probe(Ok(true)));
    assert!(after_probe(Ok(false)));
    assert!(after_probe(Err(StoreError::Backend)));
    assert_eq!(after_create(Ok(())), Ok(true));
    assert_eq!(after_create(Err(StoreError::Conflict)), Ok(true));
    assert_eq!(after_create(Err(StoreError::Backend)), Err(StoreError::Backend));
}
