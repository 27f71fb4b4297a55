//! The storage contract that the protocol engine relies on, and an in-memory
//! store that meets it.

use vstd::prelude::*;
use crate::entity::{AuthorizationCode, Client, ClientView, CodeView, Record, Token, TokenView};

verus! {

/// Failures of a storage backend.
#[derive(Clone, Copy, Debug, PartialEq, Eq, Structural)]
pub enum StoreError {
    /// No record under the key.
    NotFound,
    /// A record exists under the key already: write-once records refuse it.
    Conflict,
    /// The backend failed or could not be reached.
    Backend,
}

/// Looks up registered clients by id.
pub trait ClientStorage {
    /// The registered clients, by client id.
    spec fn clients(&self) -> Map<Seq<char>, ClientView>;

    fn get_client(&self, id: &str) -> (r: Option<Client>)
        ensures
            match r {
                Some(c) => self.clients().contains_key(id@) && c@ == self.clients()[id@],
                None => !self.clients().contains_key(id@),
            },
    ;
}

/// Registers clients.
pub trait ClientRegistry: ClientStorage {
    fn client_exists(&self, id: &str) -> (r: Result<bool, StoreError>)
        ensures
            r matches Ok(b) ==> b == self.clients().contains_key(id@),
    ;

    /// Registers a client under its id; a client with that id is never
    /// replaced.
    fn register_client(&mut self, client: Client) -> (r: Result<(), StoreError>)
        ensures
            old(self).clients().contains_key(client@.client_id) <==> r == Err::<(), StoreError>(
                StoreError::Conflict,
            ),
            r is Ok ==> final(self).clients() == old(self).clients().insert(
                client@.client_id,
                client@,
            ),
            r is Err ==> final(self).clients() == old(self).clients(),
    ;
}

/// Write-once storage of tokens, by signature.
pub trait TokenStorage {
    /// The live tokens, by signature.
    spec fn tokens(&self) -> Map<Seq<char>, TokenView>;

    fn get_token(&self, sig: &str) -> (r: Option<Token>)
        ensures
            match r {
                Some(t) => self.tokens().contains_key(sig@) && t@ == self.tokens()[sig@],
                None => !self.tokens().contains_key(sig@),
            },
    ;

    /// Stores a token; fails with `Conflict` where one is stored under `sig`.
    fn store_token(&mut self, sig: &str, token: Token) -> (r: Result<Token, StoreError>)
        ensures
            old(self).tokens().contains_key(sig@) ==> r matches Err(StoreError::Conflict),
            r matches Ok(t) ==> t@ == token@ && final(self).tokens() == old(self).tokens().insert(
                sig@,
                token@,
            ),
            r is Err ==> final(self).tokens() == old(self).tokens(),
    ;

    /// Revokes the token stored under `sig`.
    fn revoke_token(&mut self, sig: &str) -> (r: Result<(), StoreError>)
        ensures
            r is Ok ==> final(self).tokens() == old(self).tokens().remove(sig@),
            r is Err ==> final(self).tokens() == old(self).tokens(),
    ;
}

/// Write-once storage of authorization codes, by signature.
pub trait AuthorizationCodeStorage {
    /// The live codes, by signature: a revoked code is not among them.
    spec fn codes(&self) -> Map<Seq<char>, CodeView>;

    fn get_code(&self, sig: &str) -> (r: Option<AuthorizationCode>)
        ensures
            match r {
                Some(c) => self.codes().contains_key(sig@) && c@ == self.codes()[sig@],
                None => !self.codes().contains_key(sig@),
            },
    ;

    /// Stores a code; fails with `Conflict` where one is stored under `sig`.
    fn store_code(&mut self, sig: &str, code: AuthorizationCode) -> (r: Result<
        AuthorizationCode,
        StoreError,
    >)
        ensures
            old(self).codes().contains_key(sig@) ==> r matches Err(StoreError::Conflict),
            r matches Ok(c) ==> c@ == code@ && final(self).codes() == old(self).codes().insert(
                sig@,
                code@,
            ),
            r is Err ==> final(self).codes() == old(self).codes(),
    ;

    /// Revokes the code stored under `sig`.
    fn revoke_code(&mut self, sig: &str) -> (r: Result<(), StoreError>)
        ensures
            r is Ok ==> final(self).codes() == old(self).codes().remove(sig@),
            r is Err ==> final(self).codes() == old(self).codes(),
    ;
}

/// A store of documents by id: the surface that a document database offers.
pub trait DocumentStore<T: View> {
    /// The stored documents, by id.
    spec fn documents(&self) -> Map<Seq<char>, T::V>;

    fn get_document(&self, id: &str) -> (r: Option<T>)
        ensures
            match r {
                Some(d) => self.documents().contains_key(id@) && d@ == self.documents()[id@],
                None => !self.documents().contains_key(id@),
            },
    ;

    /// Stores a document; fails with `Conflict` where one has that id.
    fn put_document(&mut self, id: &str, doc: T) -> (r: Result<(), StoreError>)
        ensures
            old(self).documents().contains_key(id@) <==> r == Err::<(), StoreError>(
                StoreError::Conflict,
            ),
            r is Ok ==> final(self).documents() == old(self).documents().insert(id@, doc@),
            r is Err ==> final(self).documents() == old(self).documents(),
    ;

    fn delete_document(&mut self, id: &str) -> (r: Result<(), StoreError>)
        ensures
            r is Ok ==> final(self).documents() == old(self).documents().remove(id@),
            r is Err ==> final(self).documents() == old(self).documents(),
    ;

    fn document_exists(&self, id: &str) -> (r: Result<bool, StoreError>)
        ensures
            r matches Ok(b) ==> b == self.documents().contains_key(id@),
    ;
}

/// What a log of writes holds: each entry stores a record under its key, or
/// revokes the key; the last entry for a key decides.
pub open spec fn log_map<T: View>(log: Seq<(String, Option<T>)>) -> Map<Seq<char>, T::V>
    decreases log.len(),
{
    if log.len() == 0 {
        Map::empty()
    } else {
        let m = log_map(log.drop_last());
        match log.last().1 {
            Some(v) => m.insert(log.last().0@, v@),
            None => m.remove(log.last().0@),
        }
    }
}

/// An in-memory store of records by key, kept as a log of writes so that a
/// revoked key stays revoked.
pub struct MemoryStore<T> {
    log: Vec<(String, Option<T>)>,
}

impl<T: View> View for MemoryStore<T> {
    type V = Map<Seq<char>, T::V>;

    closed spec fn view(&self) -> Map<Seq<char>, T::V> {
        log_map(self.log@)
    }
}

impl<T: Record> MemoryStore<T> {
    /// An empty store.
    pub fn new() -> (r: MemoryStore<T>)
        ensures
            r@ == Map::<Seq<char>, T::V>::empty(),
    {
        MemoryStore { log: Vec::new() }
    }

    /// A copy of the record under `key`.
    pub fn get(&self, key: &str) -> (r: Option<T>)
        ensures
            match r {
                Some(v) => self@.contains_key(key@) && v@ == self@[key@],
                None => !self@.contains_key(key@),
            },
    {
        let wanted = key.to_owned();
        let mut j: usize = self.log.len();
        assert(self.log@.take(j as int) =~= self.log@);
        while j > 0
            invariant
                j <= self.log@.len(),
                wanted@ == key@,
                self@.contains_key(key@) == log_map(self.log@.take(j as int)).contains_key(key@),
                self@.contains_key(key@) ==> self@[key@] == log_map(self.log@.take(j as int))[key@],
            decreases j,
        {
            let ghost prefix = self.log@.take(j as int);
            assert(prefix.drop_last() =~= self.log@.take(j - 1));
            assert(prefix.last() == self.log@[j - 1]);
            let entry = &self.log[j - 1];
            if entry.0.eq(&wanted) {
                return match &entry.1 {
                    Some(v) => Some(v.copy()),
                    None => None,
                };
            }
            j = j - 1;
        }
        None
    }

    /// Stores `value` under `key`, unless a record is there already.
    pub fn insert_new(&mut self, key: &str, value: T) -> (r: Result<(), StoreError>)
        ensures
            old(self)@.contains_key(key@) <==> r == Err::<(), StoreError>(StoreError::Conflict),
            r is Ok ==> final(self)@ == old(self)@.insert(key@, value@),
            r is Err ==> final(self)@ == old(self)@,
    {
        if self.get(key).is_some() {
            return Err(StoreError::Conflict);
        }
        let ghost before = self.log@;
        let k = key.to_owned();
        self.log.push((k, Some(value)));
        assert(self.log@.drop_last() =~= before);
        Ok(())
    }

    /// Revokes the record under `key`; fails with `NotFound` where there is
    /// none.
    pub fn revoke(&mut self, key: &str) -> (r: Result<(), StoreError>)
        ensures
            old(self)@.contains_key(key@) <==> r is Ok,
            r is Err ==> r == Err::<(), StoreError>(StoreError::NotFound),
            final(self)@ == old(self)@.remove(key@),
    {
        if self.get(key).is_none() {
            assert(self@.remove(key@) =~= self@);
            return Err(StoreError::NotFound);
        }
        let ghost before = self.log@;
        let k = key.to_owned();
        self.log.push((k, None));
        assert(self.log@.drop_last() =~= before);
        Ok(())
    }
}

impl ClientStorage for MemoryStore<Client> {
    open spec fn clients(&self) -> Map<Seq<char>, ClientView> {
        self@
    }

    fn get_client(&self, id: &str) -> (r: Option<Client>) {
        self.get(id)
    }
}

impl ClientRegistry for MemoryStore<Client> {
    fn client_exists(&self, id: &str) -> (r: Result<bool, StoreError>) {
        Ok(self.get(id).is_some())
    }

    fn register_client(&mut self, client: Client) -> (r: Result<(), StoreError>) {
        let id = client.client_id().clone();
        self.insert_new(id.as_str(), client)
    }
}

impl TokenStorage for MemoryStore<Token> {
    open spec fn tokens(&self) -> Map<Seq<char>, TokenView> {
        self@
    }

    fn get_token(&self, sig: &str) -> (r: Option<Token>) {
        self.get(sig)
    }

    fn store_token(&mut self, sig: &str, token: Token) -> (r: Result<Token, StoreError>) {
        let kept = token.copy();
        match self.insert_new(sig, token) {
            Ok(()) => Ok(kept),
            Err(e) => Err(e),
        }
    }

    fn revoke_token(&mut self, sig: &str) -> (r: Result<(), StoreError>) {
        self.revoke(sig)
    }
}

impl AuthorizationCodeStorage for MemoryStore<AuthorizationCode> {
    open spec fn codes(&self) -> Map<Seq<char>, CodeView> {
        self@
    }

    fn get_code(&self, sig: &str) -> (r: Option<AuthorizationCode>) {
        self.get(sig)
    }

    fn store_code(&mut self, sig: &str, code: AuthorizationCode) -> (r: Result<
        AuthorizationCode,
        StoreError,
    >) {
        let kept = code.copy();
        match self.insert_new(sig, code) {
            Ok(()) => Ok(kept),
            Err(e) => Err(e),
        }
    }

    fn revoke_code(&mut self, sig: &str) -> (r: Result<(), StoreError>) {
        self.revoke(sig)
    }
}

impl<T: Record> DocumentStore<T> for MemoryStore<T> {
    open spec fn documents(&self) -> Map<Seq<char>, T::V> {
        self@
    }

    fn get_document(&self, id: &str) -> (r: Option<T>) {
        self.get(id)
    }

    fn put_document(&mut self, id: &str, doc: T) -> (r: Result<(), StoreError>) {
        self.insert_new(id, doc)
    }

    fn delete_document(&mut self, id: &str) -> (r: Result<(), StoreError>) {
        self.revoke(id)
    }

    fn document_exists(&self, id: &str) -> (r: Result<bool, StoreError>) {
        Ok(self.get(id).is_some())
    }
}

} // verus!
