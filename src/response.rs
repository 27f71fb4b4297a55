//! What the protocol engine answers.

use vstd::prelude::*;
use crate::entity::{AuthorizationCode, CodeView, opt_view};
use crate::scope::Scope;

verus! {

/// The mathematical value of an [`AuthorizationResponse`].
pub struct AuthorizationResponseView {
    pub code: CodeView,
    pub state: Option<Seq<char>>,
}

/// An issued authorization code, with the request's state echoed.
#[derive(Debug)]
pub struct AuthorizationResponse {
    code: AuthorizationCode,
    state: Option<String>,
}

impl View for AuthorizationResponse {
    type V = AuthorizationResponseView;

    closed spec fn view(&self) -> AuthorizationResponseView {
        AuthorizationResponseView { code: self.code@, state: opt_view(self.state) }
    }
}

impl AuthorizationResponse {
    pub fn new(code: AuthorizationCode, state: Option<String>) -> (r: AuthorizationResponse)
        ensures
            r@ == (AuthorizationResponseView { code: code@, state: opt_view(state) }),
    {
        AuthorizationResponse { code, state }
    }

    pub fn code(&self) -> (r: &AuthorizationCode)
        ensures
            r@ == self@.code,
    {
        &self.code
    }

    pub fn state(&self) -> (r: &Option<String>)
        ensures
            opt_view(*r) == self@.state,
    {
        &self.state
    }
}

/// The kind of an issued access token.
#[derive(Clone, Copy, Debug, PartialEq, Eq, Structural)]
pub enum TokenType {
    Bearer,
}

impl TokenType {
    /// The wire form, `bearer`.
    pub fn as_str(&self) -> (r: &'static str)
        ensures
            r@ == "bearer"@,
    {
        "bearer"
    }
}

impl Default for TokenType {
    fn default() -> (r: TokenType)
        ensures
            r == TokenType::Bearer,
    {
        TokenType::Bearer
    }
}

/// A successful answer of the token endpoint.
#[derive(Debug)]
pub struct TokenResponse {
    pub access_token: String,
    pub token_type: TokenType,
    pub expires_in: u64,
    pub refresh_token: Option<String>,
    pub scope: Scope,
}

} // verus!
