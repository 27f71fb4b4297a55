//! The protocol's entities: clients, authorization codes and tokens.

use vstd::prelude::*;
use crate::scope::{Scope, views_of};

verus! {

/// A value that can be copied with its view kept.
pub trait Record: View + Sized {
    fn copy(&self) -> (r: Self)
        ensures
            r@ == self@,
    ;
}

/// The view of an optional string.
pub open spec fn opt_view(o: Option<String>) -> Option<Seq<char>> {
    match o {
        Some(s) => Some(s@),
        None => None,
    }
}

/// A copy of an optional string.
pub(crate) fn copy_opt(o: &Option<String>) -> (r: Option<String>)
    ensures
        opt_view(r) == opt_view(*o),
{
    match o {
        Some(s) => Some(s.clone()),
        None => None,
    }
}

fn copy_strings(v: &Vec<String>) -> (r: Vec<String>)
    ensures
        views_of(r@) == views_of(v@),
{
    let mut r: Vec<String> = Vec::new();
    let mut i: usize = 0;
    while i < v.len()
        invariant
            i <= v@.len(),
            r@.len() == i,
            views_of(r@) == views_of(v@).take(i as int),
        decreases v@.len() - i,
    {
        let c = v[i].clone();
        let ghost before = r@;
        r.push(c);
        assert(r@ == before.push(c));
        assert(views_of(r@) =~= views_of(v@).take(i + 1)) by {
            assert(views_of(r@).len() == i + 1);
            assert forall|j: int| 0 <= j < i + 1 implies views_of(r@)[j] == views_of(v@).take(i + 1)[j] by {
                if j < i {
                    assert(views_of(before)[j] == views_of(v@).take(i as int)[j]);
                }
            }
        }
        i = i + 1;
    }
    assert(views_of(v@).take(v@.len() as int) =~= views_of(v@));
    r
}

/// The mathematical value of a [`Client`].
pub struct ClientView {
    pub client_id: Seq<char>,
    pub client_secret: Option<Seq<char>>,
    pub allowed_scope: Set<Seq<char>>,
    pub redirect_uris: Set<Seq<char>>,
    pub public: bool,
}

/// An application registered to ask for authorization. It is confidential
/// iff it has a secret.
#[derive(Debug)]
pub struct Client {
    client_id: String,
    client_secret: Option<String>,
    allowed_scope: Scope,
    redirect_uris: Vec<String>,
    public: bool,
}

impl View for Client {
    type V = ClientView;

    closed spec fn view(&self) -> ClientView {
        ClientView {
            client_id: self.client_id@,
            client_secret: opt_view(self.client_secret),
            allowed_scope: self.allowed_scope@,
            redirect_uris: views_of(self.redirect_uris@).to_set(),
            public: self.public,
        }
    }
}

impl Client {
    /// A public client: no secret.
    pub fn public(client_id: String, allowed_scope: Scope, redirect_uris: Vec<String>) -> (r: Client)
        ensures
            r@ == (ClientView {
                client_id: client_id@,
                client_secret: None,
                allowed_scope: allowed_scope@,
                redirect_uris: views_of(redirect_uris@).to_set(),
                public: true,
            }),
    {
        Client { client_id, client_secret: None, allowed_scope, redirect_uris, public: true }
    }

    /// A confidential client, holding a secret.
    pub fn confidential(
        client_id: String,
        client_secret: String,
        allowed_scope: Scope,
        redirect_uris: Vec<String>,
    ) -> (r: Client)
        ensures
            r@ == (ClientView {
                client_id: client_id@,
                client_secret: Some(client_secret@),
                allowed_scope: allowed_scope@,
                redirect_uris: views_of(redirect_uris@).to_set(),
                public: false,
            }),
    {
        Client {
            client_id,
            client_secret: Some(client_secret),
            allowed_scope,
            redirect_uris,
            public: false,
        }
    }

    pub fn client_id(&self) -> (r: &String)
        ensures
            r@ == self@.client_id,
    {
        &self.client_id
    }

    pub fn client_secret(&self) -> (r: Option<String>)
        ensures
            opt_view(r) == self@.client_secret,
    {
        copy_opt(&self.client_secret)
    }

    pub fn allowed_scope(&self) -> (r: &Scope)
        ensures
            r@ == self@.allowed_scope,
    {
        &self.allowed_scope
    }

    pub fn is_public(&self) -> (r: bool)
        ensures
            r == self@.public,
    {
        self.public
    }

    /// The registered redirect URIs.
    pub fn redirect_uris(&self) -> (r: Vec<String>)
        ensures
            views_of(r@).to_set() == self@.redirect_uris,
    {
        copy_strings(&self.redirect_uris)
    }

    /// Whether `uri` is registered, by exact comparison.
    pub fn has_redirect_uri(&self, uri: &str) -> (r: bool)
        ensures
            r == self@.redirect_uris.contains(uri@),
    {
        let wanted = uri.to_owned();
        let mut i: usize = 0;
        while i < self.redirect_uris.len()
            invariant
                i <= self.redirect_uris@.len(),
                wanted@ == uri@,
                forall|j: int| 0 <= j < i ==> self.redirect_uris@[j]@ != uri@,
            decreases self.redirect_uris@.len() - i,
        {
            if self.redirect_uris[i].eq(&wanted) {
                assert(views_of(self.redirect_uris@)[i as int] == uri@);
                return true;
            }
            i = i + 1;
        }
        proof {
            if self@.redirect_uris.contains(uri@) {
                let j = choose|j: int|
                    0 <= j < views_of(self.redirect_uris@).len() && views_of(self.redirect_uris@)[j]
                        == uri@;
                assert(self.redirect_uris@[j]@ == uri@);
            }
        }
        false
    }
}

impl Record for Client {
    fn copy(&self) -> (r: Client) {
        Client {
            client_id: self.client_id.clone(),
            client_secret: copy_opt(&self.client_secret),
            allowed_scope: self.allowed_scope.copy(),
            redirect_uris: copy_strings(&self.redirect_uris),
            public: self.public,
        }
    }
}

/// The mathematical value of an [`AuthorizationCode`].
pub struct CodeView {
    pub signature: Seq<char>,
    pub client_id: Seq<char>,
    pub redirect_uri: Seq<char>,
    pub scope: Set<Seq<char>>,
    pub user_id: Seq<char>,
    pub expires_at: u64,
}

/// A single-use grant handed to a client through its redirect URI.
#[derive(Debug)]
pub struct AuthorizationCode {
    signature: String,
    client_id: String,
    redirect_uri: String,
    scope: Scope,
    user_id: String,
    expires_at: u64,
}

impl View for AuthorizationCode {
    type V = CodeView;

    closed spec fn view(&self) -> CodeView {
        CodeView {
            signature: self.signature@,
            client_id: self.client_id@,
            redirect_uri: self.redirect_uri@,
            scope: self.scope@,
            user_id: self.user_id@,
            expires_at: self.expires_at,
        }
    }
}

impl AuthorizationCode {
    pub fn new(
        signature: String,
        client_id: String,
        redirect_uri: String,
        scope: Scope,
        user_id: String,
        expires_at: u64,
    ) -> (r: AuthorizationCode)
        ensures
            r@ == (CodeView {
                signature: signature@,
                client_id: client_id@,
                redirect_uri: redirect_uri@,
                scope: scope@,
                user_id: user_id@,
                expires_at,
            }),
    {
        AuthorizationCode { signature, client_id, redirect_uri, scope, user_id, expires_at }
    }

    pub fn signature(&self) -> (r: &String)
        ensures
            r@ == self@.signature,
    {
        &self.signature
    }

    pub fn client_id(&self) -> (r: &String)
        ensures
            r@ == self@.client_id,
    {
        &self.client_id
    }

    pub fn redirect_uri(&self) -> (r: &String)
        ensures
            r@ == self@.redirect_uri,
    {
        &self.redirect_uri
    }

    pub fn scope(&self) -> (r: &Scope)
        ensures
            r@ == self@.scope,
    {
        &self.scope
    }

    pub fn user_id(&self) -> (r: &String)
        ensures
            r@ == self@.user_id,
    {
        &self.user_id
    }

    pub fn expires_at(&self) -> (r: u64)
        ensures
            r == self@.expires_at,
    {
        self.expires_at
    }
}

impl Record for AuthorizationCode {
    fn copy(&self) -> (r: AuthorizationCode) {
        AuthorizationCode {
            signature: self.signature.clone(),
            client_id: self.client_id.clone(),
            redirect_uri: self.redirect_uri.clone(),
            scope: self.scope.copy(),
            user_id: self.user_id.clone(),
            expires_at: self.expires_at,
        }
    }
}

/// Whether a token grants access or lets a client get a new access token.
#[derive(Clone, Copy, Debug, PartialEq, Eq, Structural)]
pub enum TokenKind {
    Access,
    Refresh,
}

/// The mathematical value of a [`Token`].
pub struct TokenView {
    pub kind: TokenKind,
    pub signature: Seq<char>,
    pub client_id: Seq<char>,
    pub scope: Set<Seq<char>>,
    pub user_id: Option<Seq<char>>,
    pub expires_at: u64,
}

/// An access or refresh token.
#[derive(Debug)]
pub struct Token {
    kind: TokenKind,
    signature: String,
    client_id: String,
    scope: Scope,
    user_id: Option<String>,
    expires_at: u64,
}

impl View for Token {
    type V = TokenView;

    closed spec fn view(&self) -> TokenView {
        TokenView {
            kind: self.kind,
            signature: self.signature@,
            client_id: self.client_id@,
            scope: self.scope@,
            user_id: opt_view(self.user_id),
            expires_at: self.expires_at,
        }
    }
}

impl Token {
    pub fn new(
        kind: TokenKind,
        signature: String,
        client_id: String,
        scope: Scope,
        user_id: Option<String>,
        expires_at: u64,
    ) -> (r: Token)
        ensures
            r@ == (TokenView {
                kind,
                signature: signature@,
                client_id: client_id@,
                scope: scope@,
                user_id: opt_view(user_id),
                expires_at,
            }),
    {
        Token { kind, signature, client_id, scope, user_id, expires_at }
    }

    pub fn kind(&self) -> (r: TokenKind)
        ensures
            r == self@.kind,
    {
        self.kind
    }

    pub fn signature(&self) -> (r: &String)
        ensures
            r@ == self@.signature,
    {
        &self.signature
    }

    pub fn client_id(&self) -> (r: &String)
        ensures
            r@ == self@.client_id,
    {
        &self.client_id
    }

    pub fn scope(&self) -> (r: &Scope)
        ensures
            r@ == self@.scope,
    {
        &self.scope
    }

    pub fn user_id(&self) -> (r: Option<String>)
        ensures
            opt_view(r) == self@.user_id,
    {
        copy_opt(&self.user_id)
    }

    pub fn expires_at(&self) -> (r: u64)
        ensures
            r == self@.expires_at,
    {
        self.expires_at
    }
}

impl Record for Token {
    fn copy(&self) -> (r: Token) {
        Token {
            kind: self.kind,
            signature: self.signature.clone(),
            client_id: self.client_id.clone(),
            scope: self.scope.copy(),
            user_id: copy_opt(&self.user_id),
            expires_at: self.expires_at,
        }
    }
}

} // verus!
