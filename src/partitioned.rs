//! Entity storage on a shared document store: each kind of entity lives in
//! its own partition, under the id `partition:key`.

use vstd::prelude::*;
use crate::entity::{AuthorizationCode, Client, ClientView, CodeView, Record, Token, TokenView};
use crate::guid::Guid;
use crate::storage::{
    AuthorizationCodeStorage, ClientRegistry, ClientStorage, DocumentStore, StoreError,
    TokenStorage,
};

verus! {

/// The document id of `key` in `partition`.
pub open spec fn partition_key(partition: Seq<char>, key: Seq<char>) -> Seq<char> {
    partition + seq![':'] + key
}

/// The records of one partition, by key.
pub open spec fn partition_view<V>(docs: Map<Seq<char>, V>, partition: Seq<char>) -> Map<
    Seq<char>,
    V,
> {
    Map::new(
        |k: Seq<char>| docs.contains_key(partition_key(partition, k)),
        |k: Seq<char>| docs[partition_key(partition, k)],
    )
}

proof fn lemma_partition_key_injective(p: Seq<char>, a: Seq<char>, b: Seq<char>)
    requires
        partition_key(p, a) == partition_key(p, b),
    ensures
        a == b,
{
    assert(a =~= partition_key(p, a).skip(p.len() as int + 1));
    assert(b =~= partition_key(p, b).skip(p.len() as int + 1));
}

/// Writing a document of the partition writes one record of it.
pub proof fn lemma_partition_insert<V>(docs: Map<Seq<char>, V>, p: Seq<char>, k: Seq<char>, v: V)
    ensures
        partition_view(docs.insert(partition_key(p, k), v), p) == partition_view(docs, p).insert(
            k,
            v,
        ),
{
    assert forall|j: Seq<char>| #[trigger] partition_key(p, j) == partition_key(p, k) implies j
        == k by {
        lemma_partition_key_injective(p, j, k);
    }
    assert(partition_view(docs.insert(partition_key(p, k), v), p) =~= partition_view(
        docs,
        p,
    ).insert(k, v));
}

/// Deleting a document of the partition removes one record of it.
pub proof fn lemma_partition_remove<V>(docs: Map<Seq<char>, V>, p: Seq<char>, k: Seq<char>)
    ensures
        partition_view(docs.remove(partition_key(p, k)), p) == partition_view(docs, p).remove(k),
{
    assert forall|j: Seq<char>| #[trigger] partition_key(p, j) == partition_key(p, k) implies j
        == k by {
        lemma_partition_key_injective(p, j, k);
    }
    assert(partition_view(docs.remove(partition_key(p, k)), p) =~= partition_view(
        docs,
        p,
    ).remove(k));
}

/// One partition of a document store.
pub struct PartitionedStore<D> {
    pub docs: D,
    pub partition: String,
}

impl<D> PartitionedStore<D> {
    pub fn new(docs: D, partition: String) -> (r: PartitionedStore<D>)
        ensures
            r.docs == docs,
            r.partition == partition,
    {
        PartitionedStore { docs, partition }
    }

    /// The document id of `key`.
    pub fn key(&self, key: &str) -> (r: String)
        ensures
            r@ == partition_key(self.partition@, key@),
    {
        let r = Guid::new(Some(self.partition.clone()), key.to_owned()).to_string();
        assert(r@ =~= partition_key(self.partition@, key@));
        r
    }

    /// The record under `key`.
    pub fn get<T: View>(&self, key: &str) -> (r: Option<T>)
        where
            D: DocumentStore<T>,
        ensures
            match r {
                Some(v) => partition_view(self.docs.documents(), self.partition@).contains_key(key@)
                    && v@ == partition_view(self.docs.documents(), self.partition@)[key@],
                None => !partition_view(self.docs.documents(), self.partition@).contains_key(
                    key@,
                ),
            },
    {
        let id = self.key(key);
        self.docs.get_document(id.as_str())
    }

    /// Stores `value` under `key`; write-once.
    pub fn put<T: View>(&mut self, key: &str, value: T) -> (r: Result<(), StoreError>)
        where
            D: DocumentStore<T>,
        ensures
            final(self).partition == old(self).partition,
            partition_view(old(self).docs.documents(), old(self).partition@).contains_key(key@)
                <==> r == Err::<(), StoreError>(StoreError::Conflict),
            r is Ok ==> partition_view(final(self).docs.documents(), final(self).partition@)
                == partition_view(old(self).docs.documents(), old(self).partition@).insert(
                key@,
                value@,
            ),
            r is Err ==> final(self).docs.documents() == old(self).docs.documents(),
    {
        let id = self.key(key);
        let ghost v = value@;
        let r = self.docs.put_document(id.as_str(), value);
        proof {
            lemma_partition_insert(old(self).docs.documents(), self.partition@, key@, v);
        }
        r
    }

    /// Deletes the record under `key`.
    pub fn delete<T: View>(&mut self, key: &str) -> (r: Result<(), StoreError>)
        where
            D: DocumentStore<T>,
        ensures
            final(self).partition == old(self).partition,
            r is Ok ==> partition_view(final(self).docs.documents(), final(self).partition@)
                == partition_view(old(self).docs.documents(), old(self).partition@).remove(key@),
            r is Err ==> final(self).docs.documents() == old(self).docs.documents(),
    {
        let id = self.key(key);
        let r = self.docs.delete_document(id.as_str());
        proof {
            lemma_partition_remove(old(self).docs.documents(), self.partition@, key@);
        }
        r
    }

    /// Whether a record is under `key`.
    pub fn contains<T: View>(&self, key: &str) -> (r: Result<bool, StoreError>)
        where
            D: DocumentStore<T>,
        ensures
            r matches Ok(b) ==> b == partition_view(self.docs.documents(), self.partition@).contains_key(
                key@,
            ),
    {
        let id = self.key(key);
        self.docs.document_exists(id.as_str())
    }
}

impl<D: DocumentStore<Client>> ClientStorage for PartitionedStore<D> {
    open spec fn clients(&self) -> Map<Seq<char>, ClientView> {
        partition_view(self.docs.documents(), self.partition@)
    }

    fn get_client(&self, id: &str) -> (r: Option<Client>) {
        self.get(id)
    }
}

impl<D: DocumentStore<Client>> ClientRegistry for PartitionedStore<D> {
    fn client_exists(&self, id: &str) -> (r: Result<bool, StoreError>) {
        self.contains(id)
    }

    fn register_client(&mut self, client: Client) -> (r: Result<(), StoreError>) {
        let id = client.client_id().clone();
        self.put(id.as_str(), client)
    }
}

impl<D: DocumentStore<Token>> TokenStorage for PartitionedStore<D> {
    open spec fn tokens(&self) -> Map<Seq<char>, TokenView> {
        partition_view(self.docs.documents(), self.partition@)
    }

    fn get_token(&self, sig: &str) -> (r: Option<Token>) {
        self.get(sig)
    }

    fn store_token(&mut self, sig: &str, token: Token) -> (r: Result<Token, StoreError>) {
        let kept = token.copy();
        match self.put(sig, token) {
            Ok(()) => Ok(kept),
            Err(e) => Err(e),
        }
    }

    fn revoke_token(&mut self, sig: &str) -> (r: Result<(), StoreError>) {
        self.delete::<Token>(sig)
    }
}

impl<D: DocumentStore<AuthorizationCode>> AuthorizationCodeStorage for PartitionedStore<D> {
    open spec fn codes(&self) -> Map<Seq<char>, CodeView> {
        partition_view(self.docs.documents(), self.partition@)
    }

    fn get_code(&self, sig: &str) -> (r: Option<AuthorizationCode>) {
        self.get(sig)
    }

    fn store_code(&mut self, sig: &str, code: AuthorizationCode) -> (r: Result<
        AuthorizationCode,
        StoreError,
    >) {
        let kept = code.copy();
        match self.put(sig, code) {
            Ok(()) => Ok(kept),
            Err(e) => Err(e),
        }
    }

    fn revoke_code(&mut self, sig: &str) -> (r: Result<(), StoreError>) {
        self.delete::<AuthorizationCode>(sig)
    }
}

} // verus!
