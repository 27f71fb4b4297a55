//! The state that links a user who is logging in to the client and scope
//! being authorized.

use vstd::prelude::*;
use crate::entity::opt_view;
use crate::scope::Scope;

verus! {

/// The mathematical value of a [`Session`].
pub struct SessionView {
    pub client_id: Seq<char>,
    pub scope: Set<Seq<char>>,
    pub user_id: Option<Seq<char>>,
}

/// Login-flow state: the client and scope being authorized and, once known,
/// the user.
#[derive(Debug)]
pub struct Session {
    client_id: String,
    scope: Scope,
    user_id: Option<String>,
}

impl View for Session {
    type V = SessionView;

    closed spec fn view(&self) -> SessionView {
        SessionView { client_id: self.client_id@, scope: self.scope@, user_id: opt_view(self.user_id) }
    }
}

impl Session {
    /// A session with no client, an empty scope and no user.
    pub fn empty() -> (r: Session)
        ensures
            r@ == (SessionView {
                client_id: Seq::<char>::empty(),
                scope: Set::<Seq<char>>::empty(),
                user_id: None,
            }),
    {
        Session { client_id: String::new(), scope: Scope::empty(), user_id: None }
    }

    pub fn client_id(&self) -> (r: &String)
        ensures
            r@ == self@.client_id,
    {
        &self.client_id
    }

    pub fn set_client_id(&mut self, client_id: String) -> (r: &mut Self)
        ensures
            (*r)@ == (SessionView { client_id: client_id@, ..old(self)@ }),
            *final(r) == *final(self),
    {
        self.client_id = client_id;
        self
    }

    pub fn scope(&self) -> (r: &Scope)
        ensures
            r@ == self@.scope,
    {
        &self.scope
    }

    pub fn set_scope(&mut self, scope: Scope) -> (r: &mut Self)
        ensures
            (*r)@ == (SessionView { scope: scope@, ..old(self)@ }),
            *final(r) == *final(self),
    {
        self.scope = scope;
        self
    }

    pub fn user_id(&self) -> (r: &Option<String>)
        ensures
            opt_view(*r) == self@.user_id,
    {
        &self.user_id
    }

    pub fn set_user_id(&mut self, user_id: String) -> (r: &mut Self)
        ensures
            (*r)@ == (SessionView { user_id: Some(user_id@), ..old(self)@ }),
            *final(r) == *final(self),
    {
        self.user_id = Some(user_id);
        self
    }
}

impl Default for Session {
    fn default() -> (r: Session)
        ensures
            r@ == (SessionView {
                client_id: Seq::<char>::empty(),
                scope: Set::<Seq<char>>::empty(),
                user_id: None,
            }),
    {
        Session::empty()
    }
}

} // verus!
