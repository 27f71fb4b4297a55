//! Requests that reach the protocol engine, already parsed for shape.

use vstd::prelude::*;
use crate::scope::Scope;

verus! {

/// A request for an authorization code.
#[derive(Debug)]
pub struct AuthorizationRequest {
    pub response_type: String,
    pub client_id: String,
    pub redirect_uri: String,
    pub scope: Scope,
    pub state: Option<String>,
}

/// A request at the token endpoint.
#[derive(Debug)]
pub struct TokenRequest {
    pub grant_type: String,
    pub code: Option<String>,
    pub redirect_uri: Option<String>,
    pub client_id: Option<String>,
}

} // verus!
