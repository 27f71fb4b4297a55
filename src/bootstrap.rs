//! Start-up provisioning: the databases that the server needs and a default
//! public client, each created only where missing.

use vstd::prelude::*;
use vstd::string::*;
use crate::entity::{Client, ClientView};
use crate::scope::{Scope, words, views_of};
use crate::entity::Record;
use crate::storage::{ClientRegistry, MemoryStore, StoreError};
use crate::document::{OAUTH_DB, USERS_DB};

verus! {

/// Creates and probes databases.
pub trait Databases {
    /// The databases that exist, each with whether it is partitioned.
    spec fn databases(&self) -> Map<Seq<char>, bool>;

    fn database_exists(&self, name: &str) -> (r: Result<bool, StoreError>)
        ensures
            r matches Ok(b) ==> b == self.databases().contains_key(name@),
    ;

    /// Creates a database; fails with `Conflict` where it exists.
    fn create_database(&mut self, name: &str, partitioned: bool) -> (r: Result<(), StoreError>)
        ensures
            old(self).databases().contains_key(name@) <==> r == Err::<(), StoreError>(
                StoreError::Conflict,
            ),
            r is Ok ==> final(self).databases() == old(self).databases().insert(name@, partitioned),
            r is Err ==> final(self).databases() == old(self).databases(),
    ;
}

impl Record for bool {
    fn copy(&self) -> (r: bool) {
        *self
    }
}

impl Databases for MemoryStore<bool> {
    open spec fn databases(&self) -> Map<Seq<char>, bool> {
        self@
    }

    fn database_exists(&self, name: &str) -> (r: Result<bool, StoreError>) {
        Ok(self.get(name).is_some())
    }

    fn create_database(&mut self, name: &str, partitioned: bool) -> (r: Result<(), StoreError>) {
        self.insert_new(name, partitioned)
    }
}

/// The databases after making sure that `name` exists: a new one is
/// partitioned, an existing one stays as it is.
pub open spec fn with_database(m: Map<Seq<char>, bool>, name: Seq<char>) -> Map<Seq<char>, bool> {
    if m.contains_key(name) {
        m
    } else {
        m.insert(name, true)
    }
}

/// The clients after registering `c` where no client holds its id.
pub open spec fn registered(m: Map<Seq<char>, ClientView>, c: ClientView) -> Map<
    Seq<char>,
    ClientView,
> {
    if m.contains_key(c.client_id) {
        m
    } else {
        m.insert(c.client_id, c)
    }
}

/// The default public client for a deployment whose callback is
/// `redirect_uri`.
pub open spec fn default_client_view(redirect_uri: Seq<char>) -> ClientView {
    ClientView {
        client_id: "enseada"@,
        client_secret: None,
        allowed_scope: words("profile"@).to_set(),
        redirect_uris: set![redirect_uri],
        public: true,
    }
}

/// The default public client: id `enseada`, scope `profile`, and the
/// deployment's callback as its one redirect URI.
pub fn default_client(redirect_uri: String) -> (r: Client)
    ensures
        r@ == default_client_view(redirect_uri@),
{
    let ghost uri = redirect_uri@;
    let mut uris: Vec<String> = Vec::new();
    uris.push(redirect_uri);
    assert(views_of(uris@) =~= seq![uri]);
    assert(seq![uri].to_set() =~= set![uri]) by {
        assert(seq![uri][0] == uri);
    }
    Client::public(String::from_str("enseada"), Scope::parse("profile"), uris)
}

/// Whether to create after an existence probe: everywhere but where the
/// probe found the target. A failed probe is answered by trying to create,
/// which a conflict settles.
pub fn after_probe(probe: Result<bool, StoreError>) -> (create: bool)
    ensures
        create == (probe != Ok::<bool, StoreError>(true)),
{
    match probe {
        Ok(found) => !found,
        Err(_) => true,
    }
}

/// The outcome of making sure after a creation: created, or found created
/// by another (a conflict), is success; any other failure is passed on.
pub fn after_create(created: Result<(), StoreError>) -> (r: Result<bool, StoreError>)
    ensures
        r == match created {
            Ok(()) => Ok(true),
            Err(StoreError::Conflict) => Ok(true),
            Err(e) => Err::<bool, StoreError>(e),
        },
{
    match created {
        Ok(()) => Ok(true),
        Err(StoreError::Conflict) => Ok(true),
        Err(e) => Err(e),
    }
}

/// Makes sure that a database exists: probes, then creates a partitioned
/// one where missing; one that exists, or that another process created
/// meanwhile, counts as there.
pub fn ensure_database<D: Databases>(dbs: &mut D, name: &str) -> (r: Result<bool, StoreError>)
    ensures
        old(dbs).databases().contains_key(name@) ==> r == Ok::<bool, StoreError>(true),
        r is Ok ==> r == Ok::<bool, StoreError>(true) && final(dbs).databases() == with_database(
            old(dbs).databases(),
            name@,
        ),
        r is Err ==> final(dbs).databases() == old(dbs).databases(),
{
    let probe = dbs.database_exists(name);
    if !after_probe(probe) {
        return Ok(true);
    }
    let created = dbs.create_database(name, true);
    after_create(created)
}

/// Makes sure that a client is registered under its id, leaving one that is
/// there already as it is; one that another process registered meanwhile
/// (a conflict) counts as there.
pub fn ensure_client<C: ClientRegistry>(clients: &mut C, client: Client) -> (r: Result<
    bool,
    StoreError,
>)
    ensures
        old(clients).clients().contains_key(client@.client_id) ==> r == Ok::<bool, StoreError>(
            true,
        ),
        r is Ok ==> r == Ok::<bool, StoreError>(true) && final(clients).clients() == registered(
            old(clients).clients(),
            client@,
        ),
        r is Err ==> final(clients).clients() == old(clients).clients(),
{
    let probe = clients.client_exists(client.client_id().as_str());
    if !after_probe(probe) {
        return Ok(true);
    }
    let created = clients.register_client(client);
    after_create(created)
}

/// Provisions the partitioned `oauth` and `users` databases and the default
/// client, each only where missing. Where all three exist it succeeds and
/// changes nothing.
pub fn bootstrap<D: Databases, C: ClientRegistry>(
    dbs: &mut D,
    clients: &mut C,
    redirect_uri: String,
) -> (r: Result<(), StoreError>)
    ensures
        old(dbs).databases().contains_key("oauth"@) && old(dbs).databases().contains_key("users"@)
            && old(clients).clients().contains_key("enseada"@) ==> r is Ok,
        r is Ok ==> final(dbs).databases() == with_database(
            with_database(old(dbs).databases(), "oauth"@),
            "users"@,
        ),
        r is Ok ==> final(clients).clients() == registered(
            old(clients).clients(),
            default_client_view(redirect_uri@),
        ),
        r is Err ==> final(clients).clients() == old(clients).clients(),
        r is Err ==> {
            let once = with_database(old(dbs).databases(), "oauth"@);
            ||| final(dbs).databases() == old(dbs).databases()
            ||| final(dbs).databases() == once
            ||| final(dbs).databases() == with_database(once, "users"@)
        },
{
    match ensure_database(dbs, OAUTH_DB) {
        Ok(_) => {},
        Err(e) => {
            return Err(e);
        },
    }
    match ensure_database(dbs, USERS_DB) {
        Ok(_) => {},
        Err(e) => {
            return Err(e);
        },
    }
    match ensure_client(clients, default_client(redirect_uri)) {
        Ok(_) => Ok(()),
        Err(e) => Err(e),
    }
}

/// Bootstrapping twice leaves what bootstrapping once left: the same
/// databases, and one default client, the first one registered.
pub proof fn lemma_bootstrap_idempotent(
    dbs: Map<Seq<char>, bool>,
    clients: Map<Seq<char>, ClientView>,
    redirect_uri: Seq<char>,
    second_uri: Seq<char>,
)
    ensures
        ({
            let once = with_database(with_database(dbs, "oauth"@), "users"@);
            &&& once.contains_key("oauth"@) && once.contains_key("users"@)
            &&& with_database(with_database(once, "oauth"@), "users"@) == once
        }),
        registered(
            registered(clients, default_client_view(redirect_uri)),
            default_client_view(second_uri),
        ) == registered(clients, default_client_view(redirect_uri)),
        registered(clients, default_client_view(redirect_uri)).contains_key("enseada"@),
{
}

} // verus!
