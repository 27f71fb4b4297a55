//! How entities are laid out in a partitioned document store, and how the
//! store's HTTP answers are read.

use vstd::prelude::*;
use vstd::string::*;
use crate::entity::TokenKind;
use crate::guid::{Guid, GuidView};
use crate::storage::StoreError;

verus! {

/// The database that holds clients, codes and tokens.
pub const OAUTH_DB: &'static str = "oauth";

/// The database that holds user accounts.
pub const USERS_DB: &'static str = "users";

/// The partition-qualified id of a document.
pub open spec fn doc_id(partition: Seq<char>, id: Seq<char>) -> GuidView {
    GuidView { partition: Some(partition), id }
}

/// The storage id of a client.
pub fn client_guid(client_id: &str) -> (r: Guid)
    ensures
        r@ == doc_id("oauth"@, client_id@),
{
    Guid::new(Some(String::from_str("oauth")), client_id.to_owned())
}

/// The storage id of an authorization code.
pub fn code_guid(sig: &str) -> (r: Guid)
    ensures
        r@ == doc_id("code"@, sig@),
{
    Guid::new(Some(String::from_str("code")), sig.to_owned())
}

/// The partition that holds tokens of a kind.
pub open spec fn token_partition(kind: TokenKind) -> Seq<char> {
    match kind {
        TokenKind::Access => "access_token"@,
        TokenKind::Refresh => "refresh_token"@,
    }
}

/// The storage id of a token.
pub fn token_guid(kind: TokenKind, sig: &str) -> (r: Guid)
    ensures
        r@ == doc_id(token_partition(kind), sig@),
{
    let partition = match kind {
        TokenKind::Access => String::from_str("access_token"),
        TokenKind::Refresh => String::from_str("refresh_token"),
    };
    Guid::new(Some(partition), sig.to_owned())
}

/// The path of a document: `database/id`.
pub fn document_path(db: &str, id: &str) -> (r: String)
    ensures
        r@ == db@ + "/"@ + id@,
{
    let mut r = db.to_owned();
    r.append("/");
    r.append(id);
    r
}

/// What an HTTP status of the store means: success for 2xx, `NotFound` for
/// 404, `Conflict` for 409, a backend failure otherwise.
pub open spec fn status_meaning(status: u16) -> Result<(), StoreError> {
    if 200 <= status < 300 {
        Ok(())
    } else if status == 404 {
        Err(StoreError::NotFound)
    } else if status == 409 {
        Err(StoreError::Conflict)
    } else {
        Err(StoreError::Backend)
    }
}

/// Reads an HTTP status of the store.
pub fn status_outcome(status: u16) -> (r: Result<(), StoreError>)
    ensures
        r == status_meaning(status),
{
    if 200 <= status && status < 300 {
        Ok(())
    } else if status == 404 {
        Err(StoreError::NotFound)
    } else if status == 409 {
        Err(StoreError::Conflict)
    } else {
        Err(StoreError::Backend)
    }
}

/// Reads the status of an existence probe: found, not found, or a failure.
pub fn exists_outcome(status: u16) -> (r: Result<bool, StoreError>)
    ensures
        r == match status_meaning(status) {
            Ok(()) => Ok(true),
            Err(StoreError::NotFound) => Ok(false),
            Err(e) => Err::<bool, StoreError>(e),
        },
{
    match status_outcome(status) {
        Ok(()) => Ok(true),
        Err(StoreError::NotFound) => Ok(false),
        Err(e) => Err(e),
    }
}

} // verus!
