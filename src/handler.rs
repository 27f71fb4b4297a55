//! The protocol engine: validates authorization requests, issues codes and
//! exchanges them for tokens.

use vstd::prelude::*;
use vstd::string::*;
use crate::entity::{
    AuthorizationCode, ClientView, CodeView, Token, TokenKind, TokenView, copy_opt, opt_view,
};
use crate::error::{Error, ErrorKind};
use crate::error::ErrorView;
use crate::redirect::{Reply, ReplyView, authorization_reply, reply_of};
use crate::request::{AuthorizationRequest, TokenRequest};
use crate::response::{AuthorizationResponse, AuthorizationResponseView, TokenResponse, TokenType};
use crate::storage::{AuthorizationCodeStorage, ClientStorage, StoreError, TokenStorage};

verus! {

/// How long an authorization code lives, in seconds.
pub const CODE_TTL: u64 = 600;

/// How long an access token lives, in seconds.
pub const ACCESS_TOKEN_TTL: u64 = 3600;

/// How long a refresh token lives, in seconds.
pub const REFRESH_TOKEN_TTL: u64 = 2592000;

/// `now + ttl`, held at the largest timestamp.
pub open spec fn expiry(now: u64, ttl: u64) -> u64 {
    if now + ttl > u64::MAX {
        u64::MAX
    } else {
        (now + ttl) as u64
    }
}

/// The first check that an authorization request fails, if any: the client
/// must be known, the redirect URI registered for it, the response type
/// `code`, and the scope within the client's.
pub open spec fn authorization_error(
    clients: Map<Seq<char>, ClientView>,
    req: AuthorizationRequest,
) -> Option<ErrorKind> {
    if !clients.contains_key(req.client_id@) {
        Some(ErrorKind::InvalidClient)
    } else if !clients[req.client_id@].redirect_uris.contains(req.redirect_uri@) {
        Some(ErrorKind::InvalidRedirectUri)
    } else if req.response_type@ != "code"@ {
        Some(ErrorKind::UnsupportedResponseType)
    } else if !req.scope@.subset_of(clients[req.client_id@].allowed_scope) {
        Some(ErrorKind::InvalidScope)
    } else {
        None
    }
}

/// The code issued for a request under signature `sig`.
pub open spec fn code_for(
    req: AuthorizationRequest,
    user_id: Seq<char>,
    now: u64,
    sig: Seq<char>,
) -> CodeView {
    CodeView {
        signature: sig,
        client_id: req.client_id@,
        redirect_uri: req.redirect_uri@,
        scope: req.scope@,
        user_id,
        expires_at: expiry(now, CODE_TTL),
    }
}

/// The first check that a token request fails, if any: the grant type must
/// be `authorization_code`, the code given, live, unexpired, and issued to
/// the same client for the same redirect URI.
pub open spec fn token_error(
    codes: Map<Seq<char>, CodeView>,
    req: TokenRequest,
    now: u64,
) -> Option<ErrorKind> {
    if req.grant_type@ != "authorization_code"@ {
        Some(ErrorKind::UnsupportedGrantType)
    } else if req.code is None {
        Some(ErrorKind::InvalidRequest)
    } else if !codes.contains_key(req.code->0@) {
        Some(ErrorKind::InvalidGrant)
    } else if codes[req.code->0@].expires_at <= now {
        Some(ErrorKind::InvalidGrant)
    } else if opt_view(req.client_id) != Some(codes[req.code->0@].client_id) {
        Some(ErrorKind::InvalidGrant)
    } else if opt_view(req.redirect_uri) != Some(codes[req.code->0@].redirect_uri) {
        Some(ErrorKind::InvalidGrant)
    } else {
        None
    }
}

/// A token minted from a code.
pub open spec fn token_for(
    kind: TokenKind,
    code: CodeView,
    sig: Seq<char>,
    now: u64,
    ttl: u64,
) -> TokenView {
    TokenView {
        kind,
        signature: sig,
        client_id: code.client_id,
        scope: code.scope,
        user_id: Some(code.user_id),
        expires_at: expiry(now, ttl),
    }
}

/// A code was issued under `sig`: it was free, it is stored, and the reply
/// carries it with the request's state.
pub open spec fn issued(
    before: Map<Seq<char>, CodeView>,
    after: Map<Seq<char>, CodeView>,
    req: AuthorizationRequest,
    user_id: Seq<char>,
    now: u64,
    sig: Seq<char>,
    reply: ReplyView,
) -> bool {
    let code = code_for(req, user_id, now, sig);
    &&& !before.contains_key(sig)
    &&& after == before.insert(sig, code)
    &&& reply == reply_of(
        Ok(AuthorizationResponseView { code, state: opt_view(req.state) }),
        req.redirect_uri@,
        opt_view(req.state),
    )
}

/// A code can be exchanged once: after a successful exchange has revoked
/// it, the same request fails with `invalid_grant`, at any time.
pub proof fn lemma_code_single_use(
    codes: Map<Seq<char>, CodeView>,
    req: TokenRequest,
    now: u64,
    later: u64,
)
    requires
        token_error(codes, req, now) is None,
    ensures
        token_error(codes.remove(req.code->0@), req, later) == Some(ErrorKind::InvalidGrant),
{
}

/// A request whose scope exceeds the client's fails with `invalid_scope`
/// wherever the earlier checks pass.
pub proof fn lemma_scope_escalation(
    clients: Map<Seq<char>, ClientView>,
    req: AuthorizationRequest,
)
    requires
        clients.contains_key(req.client_id@),
        clients[req.client_id@].redirect_uris.contains(req.redirect_uri@),
        req.response_type@ == "code"@,
        !req.scope@.subset_of(clients[req.client_id@].allowed_scope),
    ensures
        authorization_error(clients, req) == Some(ErrorKind::InvalidScope),
{
}

fn fail<T>(kind: ErrorKind, description: &str) -> (r: Result<T, Error>)
    ensures
        r matches Err(e) && e@.kind == kind,
{
    Err(Error::new(kind, String::from_str(description)))
}

/// Where writing a code under one signature leads.
pub enum StoreStep {
    /// The signature conflicts with a stored code: try the next one.
    TryNext,
    /// Issuance is over, with this outcome.
    Done(Result<AuthorizationResponse, Error>),
}

/// Reads the store's answer to writing a code: a stored code is issued with
/// `state` echoed, a conflict moves on to the next signature, and any other
/// failure is a `server_error`.
pub fn store_step(stored: Result<AuthorizationCode, StoreError>, state: &Option<String>) -> (r:
    StoreStep)
    ensures
        match stored {
            Ok(c) => r matches StoreStep::Done(Ok(resp)) && resp@ == (AuthorizationResponseView {
                code: c@,
                state: opt_view(*state),
            }),
            Err(StoreError::Conflict) => r is TryNext,
            Err(_) => r matches StoreStep::Done(Err(e)) && e@.kind == ErrorKind::ServerError,
        },
{
    match stored {
        Ok(c) => StoreStep::Done(Ok(AuthorizationResponse::new(c, copy_opt(state)))),
        Err(StoreError::Conflict) => StoreStep::TryNext,
        Err(_) => StoreStep::Done(fail(ErrorKind::ServerError, "could not store the code")),
    }
}

/// The protocol engine over four storage capabilities.
pub struct OAuthHandler<C, A, R, K> {
    pub clients: C,
    pub access_tokens: A,
    pub refresh_tokens: R,
    pub codes: K,
}

impl<
    C: ClientStorage,
    A: TokenStorage,
    R: TokenStorage,
    K: AuthorizationCodeStorage,
> OAuthHandler<C, A, R, K> {
    pub fn new(clients: C, access_tokens: A, refresh_tokens: R, codes: K) -> (r: OAuthHandler<
        C,
        A,
        R,
        K,
    >)
        ensures
            r.clients == clients,
            r.access_tokens == access_tokens,
            r.refresh_tokens == refresh_tokens,
            r.codes == codes,
    {
        OAuthHandler { clients, access_tokens, refresh_tokens, codes }
    }

    /// Checks an authorization request; fails with the kind of the first
    /// check that it does not pass.
    pub fn validate(&self, req: &AuthorizationRequest) -> (r: Result<(), Error>)
        ensures
            match authorization_error(self.clients.clients(), *req) {
                Some(k) => r matches Err(e) && e@.kind == k,
                None => r is Ok,
            },
    {
        let client = match self.clients.get_client(req.client_id.as_str()) {
            Some(c) => c,
            None => {
                return fail(ErrorKind::InvalidClient, "unknown client");
            },
        };
        if !client.has_redirect_uri(req.redirect_uri.as_str()) {
            return fail(ErrorKind::InvalidRedirectUri, "redirect uri not registered for client");
        }
        let code = String::from_str("code");
        if !req.response_type.eq(&code) {
            return fail(ErrorKind::UnsupportedResponseType, "response type not supported");
        }
        if req.scope.matches(client.allowed_scope()).is_err() {
            return fail(ErrorKind::InvalidScope, "scope exceeds the client's");
        }
        Ok(())
    }

    /// Issues a code for a valid request. The `signatures` are tried in
    /// order, each one that conflicts with a stored code skipped; the code is
    /// stored under the first one that the store takes, and the request's
    /// state is echoed. A storage failure other than a conflict, or running
    /// out of signatures, fails with `server_error`.
    pub fn handle(
        &mut self,
        req: &AuthorizationRequest,
        user_id: &str,
        now: u64,
        signatures: &Vec<String>,
    ) -> (r: Result<AuthorizationResponse, Error>)
        ensures
            final(self).clients == old(self).clients,
            final(self).access_tokens == old(self).access_tokens,
            final(self).refresh_tokens == old(self).refresh_tokens,
            authorization_error(old(self).clients.clients(), *req) matches Some(k) ==> r matches Err(
                e,
            ) && e@.kind == k,
            authorization_error(old(self).clients.clients(), *req) is None ==> (r matches Err(e)
                ==> e@.kind == ErrorKind::ServerError),
            r is Err ==> final(self).codes.codes() == old(self).codes.codes(),
            r matches Ok(resp) ==> {
                let sig = resp@.code.signature;
                &&& authorization_error(old(self).clients.clients(), *req) is None
                &&& exists|i: int| 0 <= i < signatures@.len() && signatures@[i]@ == sig
                &&& !old(self).codes.codes().contains_key(sig)
                &&& resp@.code == code_for(*req, user_id@, now, sig)
                &&& final(self).codes.codes() == old(self).codes.codes().insert(sig, resp@.code)
                &&& resp@.state == opt_view(req.state)
            },
    {
        match self.validate(req) {
            Ok(()) => {},
            Err(e) => {
                return Err(e);
            },
        }
        let expires_at = now.saturating_add(CODE_TTL);
        let mut i: usize = 0;
        while i < signatures.len()
            invariant
                i <= signatures@.len(),
                self.clients == old(self).clients,
                self.access_tokens == old(self).access_tokens,
                self.refresh_tokens == old(self).refresh_tokens,
                self.codes.codes() == old(self).codes.codes(),
                authorization_error(old(self).clients.clients(), *req) is None,
                expires_at == expiry(now, CODE_TTL),
            decreases signatures@.len() - i,
        {
            let sig = &signatures[i];
            let code = AuthorizationCode::new(
                sig.clone(),
                req.client_id.clone(),
                req.redirect_uri.clone(),
                req.scope.copy(),
                user_id.to_owned(),
                expires_at,
            );
            let stored = self.codes.store_code(sig.as_str(), code);
            match store_step(stored, &req.state) {
                StoreStep::TryNext => {},
                StoreStep::Done(outcome) => {
                    return outcome;
                },
            }
            i = i + 1;
        }
        fail(ErrorKind::ServerError, "no free code signature")
    }

    /// Handles an authorization request end to end: issues a code where the
    /// request is valid and answers with a redirect to the request's
    /// redirect URI, carrying the code or the error. A redirect URI that is
    /// not verified as registered for a known client is never redirected
    /// to: that request gets a direct answer, and no code is stored.
    pub fn authorize(
        &mut self,
        req: &AuthorizationRequest,
        user_id: &str,
        now: u64,
        signatures: &Vec<String>,
    ) -> (r: Reply)
        ensures
            final(self).clients == old(self).clients,
            !(old(self).clients.clients().contains_key(req.client_id@) && old(
                self,
            ).clients.clients()[req.client_id@].redirect_uris.contains(req.redirect_uri@))
                ==> r@ is Direct,
            authorization_error(old(self).clients.clients(), *req) matches Some(k) ==> {
                &&& final(self).codes.codes() == old(self).codes.codes()
                &&& exists|e: ErrorView|
                    e.kind == k && r@ == #[trigger] reply_of(
                        Err(e),
                        req.redirect_uri@,
                        opt_view(req.state),
                    )
            },
            authorization_error(old(self).clients.clients(), *req) is None ==> {
                ||| exists|i: int|
                    0 <= i < signatures@.len() && issued(
                        old(self).codes.codes(),
                        final(self).codes.codes(),
                        *req,
                        user_id@,
                        now,
                        #[trigger] signatures@[i]@,
                        r@,
                    )
                ||| final(self).codes.codes() == old(self).codes.codes() && exists|e: ErrorView|
                    e.kind == ErrorKind::ServerError && r@ == #[trigger] reply_of(
                        Err(e),
                        req.redirect_uri@,
                        opt_view(req.state),
                    )
            },
    {
        let outcome = self.handle(req, user_id, now, signatures);
        let r = authorization_reply(&outcome, req.redirect_uri.as_str(), &req.state);
        proof {
            if let Err(e) = outcome {
                assert(r@ == reply_of(Err(e@), req.redirect_uri@, opt_view(req.state)));
            } else {
                let resp = outcome->Ok_0;
                let sig = resp@.code.signature;
                let i = choose|i: int| 0 <= i < signatures@.len() && signatures@[i]@ == sig;
                assert(issued(
                    old(self).codes.codes(),
                    self.codes.codes(),
                    *req,
                    user_id@,
                    now,
                    signatures@[i]@,
                    r@,
                ));
            }
        }
        r
    }

    /// Exchanges an authorization code for an access token under
    /// `access_sig`, and a refresh token under `refresh_sig` where one is
    /// given. The code is revoked before any token is stored, so that it
    /// serves once. A storage failure fails with `server_error`; where the
    /// refresh token cannot be stored, the access token is revoked again.
    pub fn exchange(
        &mut self,
        req: &TokenRequest,
        now: u64,
        access_sig: &str,
        refresh_sig: Option<&str>,
    ) -> (r: Result<TokenResponse, Error>)
        ensures
            final(self).clients == old(self).clients,
            token_error(old(self).codes.codes(), *req, now) matches Some(k) ==> {
                &&& r matches Err(e) && e@.kind == k
                &&& final(self).codes.codes() == old(self).codes.codes()
                &&& final(self).access_tokens.tokens() == old(self).access_tokens.tokens()
                &&& final(self).refresh_tokens.tokens() == old(self).refresh_tokens.tokens()
            },
            token_error(old(self).codes.codes(), *req, now) is None ==> (r matches Err(e)
                ==> e@.kind == ErrorKind::ServerError),
            token_error(old(self).codes.codes(), *req, now) is None && r is Err ==> {
                let sig = req.code->0@;
                let code = old(self).codes.codes()[sig];
                &&& final(self).codes.codes() == old(self).codes.codes()
                    || final(self).codes.codes() == old(self).codes.codes().remove(sig)
                &&& final(self).access_tokens.tokens() == old(self).access_tokens.tokens()
                    || final(self).access_tokens.tokens() == old(self).access_tokens.tokens().insert(
                    access_sig@,
                    token_for(TokenKind::Access, code, access_sig@, now, ACCESS_TOKEN_TTL),
                )
                &&& final(self).refresh_tokens.tokens() == old(self).refresh_tokens.tokens() || (
                refresh_sig matches Some(s) && final(self).refresh_tokens.tokens()
                    == old(self).refresh_tokens.tokens().insert(
                    s@,
                    token_for(TokenKind::Refresh, code, s@, now, REFRESH_TOKEN_TTL),
                ))
            },
            r matches Ok(resp) ==> {
                let sig = req.code->0@;
                let code = old(self).codes.codes()[sig];
                &&& token_error(old(self).codes.codes(), *req, now) is None
                &&& final(self).codes.codes() == old(self).codes.codes().remove(sig)
                &&& final(self).access_tokens.tokens() == old(self).access_tokens.tokens().insert(
                    access_sig@,
                    token_for(TokenKind::Access, code, access_sig@, now, ACCESS_TOKEN_TTL),
                )
                &&& match refresh_sig {
                    Some(s) => final(self).refresh_tokens.tokens()
                        == old(self).refresh_tokens.tokens().insert(
                        s@,
                        token_for(TokenKind::Refresh, code, s@, now, REFRESH_TOKEN_TTL),
                    ),
                    None => final(self).refresh_tokens.tokens()
                        == old(self).refresh_tokens.tokens(),
                }
                &&& resp.access_token@ == access_sig@
                &&& resp.token_type == TokenType::Bearer
                &&& resp.expires_in == ACCESS_TOKEN_TTL
                &&& opt_view(resp.refresh_token) == match refresh_sig {
                    Some(s) => Some(s@),
                    None => None::<Seq<char>>,
                }
                &&& resp.scope@ == code.scope
            },
    {
        let grant = String::from_str("authorization_code");
        if !req.grant_type.eq(&grant) {
            return fail(ErrorKind::UnsupportedGrantType, "grant type not supported");
        }
        let sig = match &req.code {
            Some(s) => s,
            None => {
                return fail(ErrorKind::InvalidRequest, "missing code");
            },
        };
        let code = match self.codes.get_code(sig.as_str()) {
            Some(c) => c,
            None => {
                return fail(ErrorKind::InvalidGrant, "unknown or revoked code");
            },
        };
        if code.expires_at() <= now {
            return fail(ErrorKind::InvalidGrant, "expired code");
        }
        let same_client = match &req.client_id {
            Some(id) => id.eq(code.client_id()),
            None => false,
        };
        if !same_client {
            return fail(ErrorKind::InvalidGrant, "code issued to another client");
        }
        let same_uri = match &req.redirect_uri {
            Some(uri) => uri.eq(code.redirect_uri()),
            None => false,
        };
        if !same_uri {
            return fail(ErrorKind::InvalidGrant, "code issued for another redirect uri");
        }
        if self.codes.revoke_code(sig.as_str()).is_err() {
            return fail(ErrorKind::ServerError, "could not revoke the code");
        }
        let access = Token::new(
            TokenKind::Access,
            access_sig.to_owned(),
            code.client_id().clone(),
            code.scope().copy(),
            Some(code.user_id().clone()),
            now.saturating_add(ACCESS_TOKEN_TTL),
        );
        if self.access_tokens.store_token(access_sig, access).is_err() {
            return fail(ErrorKind::ServerError, "could not store the access token");
        }
        let refresh_token = match refresh_sig {
            Some(s) => {
                let refresh = Token::new(
                    TokenKind::Refresh,
                    s.to_owned(),
                    code.client_id().clone(),
                    code.scope().copy(),
                    Some(code.user_id().clone()),
                    now.saturating_add(REFRESH_TOKEN_TTL),
                );
                if self.refresh_tokens.store_token(s, refresh).is_err() {
                    let ghost before = old(self).access_tokens.tokens();
                    if self.access_tokens.revoke_token(access_sig).is_ok() {
                        assert(self.access_tokens.tokens() =~= before);
                    }
                    return fail(ErrorKind::ServerError, "could not store the refresh token");
                }
                Some(s.to_owned())
            },
            None => None,
        };
        Ok(
            TokenResponse {
                access_token: access_sig.to_owned(),
                token_type: TokenType::Bearer,
                expires_in: ACCESS_TOKEN_TTL,
                refresh_token,
                scope: code.scope().copy(),
            },
        )
    }
}

} // verus!
