//! The registry of database instances by name, with a default instance, and
//! the checks of a server configuration.
use vstd::prelude::*;
use crate::base::config::DbConfig;
use crate::base::db_type::DbType;
use crate::base::error::DatabaseError;
use crate::base::server_config;
use crate::pool::datasource::{
    DatasourceTypeRegistry, distinct_keys, entry_views, find_entry, key_index, lemma_key_index, lemma_lookup_after_push,
    lemma_lookup_after_remove, lookup,
};
use crate::util::text::{concat3, str_equal};

verus! {

/// Instances by name, in the order they were registered, and the name of
/// the default instance.
pub struct DatabaseRegistry<T> {
    entries: Vec<(String, T)>,
    default_name: Option<String>,
}

/// The default after the entry named `name` was removed from `old_entries`,
/// leaving `entries`: a default that was removed is replaced by the first
/// entry left, if any.
pub open spec fn default_after_remove<T>(
    old_default: Option<Seq<char>>,
    name: Seq<char>,
    entries: Seq<(Seq<char>, T)>,
) -> Option<Seq<char>> {
    if old_default == Some(name) {
        if entries.len() > 0 {
            Some(entries[0].0)
        } else {
            None
        }
    } else {
        old_default
    }
}

/// The default instance after a removal: removing the default makes the
/// first instance left the default, or leaves no default where none is
/// left; removing another instance leaves the default as it was.
pub proof fn law_default_after_remove<T>(d: Seq<char>, name: Seq<char>, entries: Seq<(Seq<char>, T)>)
    ensures
        default_after_remove(Some(name), name, entries) == (if entries.len() > 0 {
            Some(entries[0].0)
        } else {
            None
        }),
        d != name ==> default_after_remove(Some(d), name, entries) == Some(d),
        default_after_remove(None, name, entries) is None,
{
}

impl<T> DatabaseRegistry<T> {
    /// The names and instances, in the order they were registered.
    pub closed spec fn spec_entries(&self) -> Seq<(Seq<char>, T)> {
        entry_views(self.entries@)
    }

    /// The name of the default instance.
    pub closed spec fn spec_default(&self) -> Option<Seq<char>> {
        match self.default_name {
            Some(d) => Some(d@),
            None => None,
        }
    }

    /// No name is registered twice, and there is a default, one of the
    /// registered names, exactly when something is registered.
    pub open spec fn wf(&self) -> bool {
        &&& distinct_keys(self.spec_entries())
        &&& (self.spec_default() is Some <==> self.spec_entries().len() > 0)
        &&& (self.spec_default() matches Some(d) ==> key_index(self.spec_entries(), d) is Some)
    }

    /// An empty registry.
    pub fn new() -> (r: Self)
        ensures
            r.wf(),
            r.spec_entries().len() == 0,
            r.spec_default() is None,
    {
        DatabaseRegistry { entries: Vec::new(), default_name: None }
    }

    /// Whether an instance is registered under `name`.
    pub fn contains(&self, name: &str) -> (r: bool)
        ensures
            r == (key_index(self.spec_entries(), name@) is Some),
    {
        find_entry(&self.entries, name).is_some()
    }

    /// Registers `instance` under a new name; the first instance registered
    /// becomes the default.
    pub fn insert(&mut self, name: String, instance: T)
        requires
            old(self).wf(),
            key_index(old(self).spec_entries(), name@) is None,
        ensures
            final(self).wf(),
            final(self).spec_entries() == old(self).spec_entries().push((name@, instance)),
            final(self).spec_default() == (match old(self).spec_default() {
                Some(d) => Some(d),
                None => Some(name@),
            }),
    {
        let ghost before = self.spec_entries();
        let ghost n = name@;
        proof {
            lemma_key_index(before, n);
        }
        if self.default_name.is_none() {
            self.default_name = Some(name.clone());
        }
        self.entries.push((name, instance));
        proof {
            let after = self.spec_entries();
            assert(after =~= before.push((n, instance)));
            assert(after.drop_last() =~= before);
            assert(distinct_keys(after)) by {
                assert forall|x: int, y: int| 0 <= x < y < after.len() implies #[trigger] after[x].0
                    != #[trigger] after[y].0 by {
                    if y == before.len() {
                        assert(after[x] == before[x]);
                    } else {
                        assert(after[x] == before[x]);
                        assert(after[y] == before[y]);
                    }
                }
            }
            if let Some(d) = self.spec_default() {
                lemma_key_index(before, d);
                lemma_key_index(after, d);
                if d != n {
                    let j = key_index(before, d)->0;
                    assert(after[j] == before[j]);
                } else {
                    assert(after[before.len() as int].0 == n);
                }
            }
        }
    }

    /// The instance registered under `name`.
    pub fn get_instance(&self, name: &str) -> (r: Option<&T>)
        ensures
            r == (match lookup(self.spec_entries(), name@) {
                Some(t) => Some(&t),
                None => None,
            }),
    {
        match find_entry(&self.entries, name) {
            Some(i) => Some(&self.entries[i].1),
            None => None,
        }
    }

    /// The default instance.
    pub fn get_default(&self) -> (r: Option<&T>)
        requires
            self.wf(),
        ensures
            r == (match self.spec_default() {
                Some(d) => match lookup(self.spec_entries(), d) {
                    Some(t) => Some(&t),
                    None => None,
                },
                None => None,
            }),
    {
        match &self.default_name {
            Some(d) => self.get_instance(d.as_str()),
            None => None,
        }
    }

    /// Removes the instance registered under `name` and gives it back; where
    /// it was the default, the first instance left becomes the default.
    pub fn remove(&mut self, name: &str) -> (r: Option<T>)
        requires
            old(self).wf(),
        ensures
            final(self).wf(),
            lookup(final(self).spec_entries(), name@) is None,
            forall|n: Seq<char>| n != name@ ==> #[trigger] lookup(final(self).spec_entries(), n) == lookup(
                old(self).spec_entries(),
                n,
            ),
            match key_index(old(self).spec_entries(), name@) {
                Some(i) => {
                    &&& final(self).spec_entries().len() == old(self).spec_entries().len() - 1
                    &&& r == Some(old(self).spec_entries()[i].1)
                    &&& final(self).spec_entries() == old(self).spec_entries().remove(i)
                    &&& final(self).spec_default() == default_after_remove(
                        old(self).spec_default(),
                        name@,
                        final(self).spec_entries(),
                    )
                },
                None => {
                    &&& r is None
                    &&& final(self).spec_entries() == old(self).spec_entries()
                    &&& final(self).spec_default() == old(self).spec_default()
                },
            },
    {
        let ghost before = self.spec_entries();
        let ghost old_default = self.spec_default();
        proof {
            lemma_key_index(before, name@);
        }
        match find_entry(&self.entries, name) {
            Some(i) => {
                let was_default = match &self.default_name {
                    Some(d) => str_equal(d.as_str(), name),
                    None => false,
                };
                let (_, instance) = self.entries.remove(i);
                let ghost after = self.spec_entries();
                proof {
                    assert(after =~= before.remove(i as int));
                    lemma_lookup_after_remove(before, name@);
                }
                if was_default {
                    if self.entries.len() > 0 {
                        self.default_name = Some(self.entries[0].0.clone());
                    } else {
                        self.default_name = None;
                    }
                }
                proof {
                    assert(distinct_keys(after)) by {
                        assert forall|x: int, y: int| 0 <= x < y < after.len() implies #[trigger] after[x].0
                            != #[trigger] after[y].0 by {
                            if x < i {
                                assert(after[x] == before[x]);
                            } else {
                                assert(after[x] == before[x + 1]);
                            }
                            if y < i {
                                assert(after[y] == before[y]);
                            } else {
                                assert(after[y] == before[y + 1]);
                            }
                        }
                    }
                    if let Some(d) = self.spec_default() {
                        lemma_key_index(after, d);
                        if was_default {
                            assert(after[0].0 == d);
                        } else {
                            lemma_key_index(before, d);
                            let j = key_index(before, d)->0;
                            assert(j != i);
                            if j < i {
                                assert(after[j] == before[j]);
                            } else {
                                assert(after[j - 1] == before[j]);
                            }
                        }
                    }
                    assert(self.spec_default() == default_after_remove(old_default, name@, after));
                }
                Some(instance)
            },
            None => {
                proof {
                    lemma_key_index(before, name@);
                }
                None
            },
        }
    }

    /// The registered names, in the order they were registered.
    pub fn list_instances(&self) -> (r: Vec<String>)
        ensures
            r@.len() == self.spec_entries().len(),
            forall|i: int| 0 <= i < r@.len() ==> #[trigger] r@[i]@ == self.spec_entries()[i].0,
    {
        let mut r: Vec<String> = Vec::new();
        let mut i: usize = 0;
        while i < self.entries.len()
            invariant
                i <= self.entries@.len(),
                r@.len() == i,
                forall|k: int| 0 <= k < i ==> #[trigger] r@[k]@ == self.spec_entries()[k].0,
            decreases self.entries@.len() - i,
        {
            r.push(self.entries[i].0.clone());
            i = i + 1;
        }
        r
    }

    /// What `f` gives for each registered instance, in the order they were
    /// registered.
    pub fn with_all_instances<R, F: Fn(&T) -> R>(&self, f: F) -> (r: Vec<R>)
        requires
            forall|i: int| 0 <= i < self.spec_entries().len() ==> call_requires(f, (&self.spec_entries()[i].1,)),
        ensures
            r@.len() == self.spec_entries().len(),
            forall|i: int| 0 <= i < r@.len() ==> call_ensures(f, (&self.spec_entries()[i].1,), #[trigger] r@[i]),
    {
        let mut r: Vec<R> = Vec::new();
        let mut i: usize = 0;
        while i < self.entries.len()
            invariant
                i <= self.entries@.len(),
                r@.len() == i,
                forall|k: int| 0 <= k < self.spec_entries().len() ==> call_requires(f, (&self.spec_entries()[k].1,)),
                forall|k: int| 0 <= k < i ==> call_ensures(f, (&self.spec_entries()[k].1,), #[trigger] r@[k]),
            decreases self.entries@.len() - i,
        {
            proof {
                assert(self.spec_entries()[i as int].1 == self.entries@[i as int].1);
            }
            let v = f(&self.entries[i].1);
            r.push(v);
            i = i + 1;
        }
        r
    }

    /// The number of registered instances.
    pub fn instance_count(&self) -> (r: usize)
        ensures
            r == self.spec_entries().len(),
    {
        self.entries.len()
    }
}

/// Registers, under the name of `config`, the instance that `factory`
/// builds from it. A name already taken is refused with
/// `InstanceAlreadyExistsError`; otherwise the kind of database of the name
/// is recorded first, then the factory runs: its error is given back, and
/// its instance is registered.
pub fn register_with<T, F: Fn(&DbConfig) -> Result<T, DatabaseError>>(
    registry: &mut DatabaseRegistry<T>,
    types: &mut DatasourceTypeRegistry,
    config: &DbConfig,
    factory: F,
) -> (r: Result<(), DatabaseError>)
    requires
        old(registry).wf(),
        old(types).wf(),
        call_requires(factory, (config,)),
    ensures
        final(registry).wf(),
        final(types).wf(),
        r is Err ==> final(registry).spec_entries() == old(registry).spec_entries()
            && final(registry).spec_default() == old(registry).spec_default(),
        key_index(old(registry).spec_entries(), config.name@) is Some ==> {
            &&& r matches Err(DatabaseError::InstanceAlreadyExistsError(m)) && m@ == config.name@
            &&& final(registry).spec_entries() == old(registry).spec_entries()
            &&& final(registry).spec_default() == old(registry).spec_default()
            &&& final(types).spec_entries() == old(types).spec_entries()
        },
        key_index(old(registry).spec_entries(), config.name@) is None ==> {
            &&& lookup(final(types).spec_entries(), config.name@) == Some(config.db_type)
            &&& forall|n: Seq<char>| n != config.name@ ==> lookup(final(types).spec_entries(), n) == lookup(
                old(types).spec_entries(),
                n,
            )
            &&& exists|res: Result<T, DatabaseError>| #[trigger] call_ensures(factory, (config,), res) && match res {
                Ok(t) => {
                    &&& r is Ok
                    &&& lookup(final(registry).spec_entries(), config.name@) == Some(t)
                    &&& final(registry).spec_entries().len() == old(registry).spec_entries().len() + 1
                    &&& forall|n: Seq<char>| n != config.name@ ==> #[trigger] lookup(final(registry).spec_entries(), n)
                        == lookup(old(registry).spec_entries(), n)
                    &&& final(registry).spec_entries() == old(registry).spec_entries().push((config.name@, t))
                    &&& final(registry).spec_default() == (match old(registry).spec_default() {
                        Some(d) => Some(d),
                        None => Some(config.name@),
                    })
                },
                Err(e) => {
                    &&& r == Err::<(), DatabaseError>(e)
                    &&& final(registry).spec_entries() == old(registry).spec_entries()
                    &&& final(registry).spec_default() == old(registry).spec_default()
                },
            }
        },
{
    if registry.contains(config.name.as_str()) {
        return Err(DatabaseError::InstanceAlreadyExistsError(config.name.clone()));
    }
    types.set_datasource_type(config.name.clone(), config.db_type);
    let res = factory(config);
    let ghost res_g = res;
    let ghost before = registry.spec_entries();
    match res {
        Ok(instance) => {
            let ghost t = instance;
            registry.insert(config.name.clone(), instance);
            proof {
                assert(call_ensures(factory, (config,), res_g));
                lemma_lookup_after_push(before, config.name@, t);
            }
            Ok(())
        },
        Err(e) => {
            proof {
                assert(call_ensures(factory, (config,), res_g));
            }
            Err(e)
        },
    }
}

/// The instance registered under `name`, in a registry that may not have
/// been set up yet: `NotFoundError` where there is no registry or no such
/// instance.
pub fn find_instance<'r, T>(registry: Option<&'r DatabaseRegistry<T>>, name: &str) -> (r: Result<&'r T, DatabaseError>)
    ensures
        registry is None ==> (r matches Err(DatabaseError::NotFoundError(m)) && m@
            == "Database registry not initialized"@),
        registry matches Some(g) ==> match lookup(g.spec_entries(), name@) {
            Some(t) => (r matches Ok(x) && *x == t),
            None => (r matches Err(DatabaseError::NotFoundError(m)) && m@ == "Database instance '"@ + name@
                + "' not found"@),
        },
{
    match registry {
        None => Err(DatabaseError::NotFoundError(String::from_str("Database registry not initialized"))),
        Some(g) => match g.get_instance(name) {
            Some(t) => Ok(t),
            None => {
                let head = concat3("Database instance '", name, "' not found");
                Err(DatabaseError::NotFoundError(head))
            },
        },
    }
}

/// A registered database: its connection pool, its name and its kind.
pub struct DbManager<M> {
    pool: M,
    name: String,
    db_type: DbType,
}

impl<M> DbManager<M> {
    pub closed spec fn spec_pool(&self) -> M {
        self.pool
    }

    pub closed spec fn spec_name(&self) -> Seq<char> {
        self.name@
    }

    pub closed spec fn spec_db_type(&self) -> DbType {
        self.db_type
    }

    /// A manager of `pool`, named `name`, for a database of kind `db_type`.
    pub fn new(pool: M, name: String, db_type: DbType) -> (r: Self)
        ensures
            r.spec_pool() == pool,
            r.spec_name() == name@,
            r.spec_db_type() == db_type,
    {
        DbManager { pool, name, db_type }
    }

    /// The connection pool.
    pub fn get_pool(&self) -> (r: &M)
        ensures
            *r == self.spec_pool(),
    {
        &self.pool
    }

    /// The kind of database.
    pub fn get_db_type(&self) -> (r: DbType)
        ensures
            r == self.spec_db_type(),
    {
        self.db_type
    }

    /// The name it is registered under.
    pub fn get_name(&self) -> (r: &str)
        ensures
            r@ == self.spec_name(),
    {
        self.name.as_str()
    }
}

/// The first setting a server configuration lacks, in the order database,
/// username, password, host, port, as the message of its error.
pub open spec fn missing_server_setting(config: server_config::DbConfig) -> Option<Seq<char>> {
    if config.database is None {
        Some("Database is missing"@)
    } else if config.username is None {
        Some("Username is missing"@)
    } else if config.password is None {
        Some("Password is missing"@)
    } else if config.host is None {
        Some("Host is missing"@)
    } else if config.port is None {
        Some("Port is missing"@)
    } else {
        None
    }
}

/// What a register of a kind of database checks of a configuration before
/// it connects.
pub trait DbRegister {
    /// Whether `config` holds what a connection needs, else the error for
    /// the first setting it lacks.
    spec fn spec_check(&self, config: server_config::DbConfig) -> Option<Seq<char>>;

    fn check_config(&self, config: &server_config::DbConfig) -> (r: Result<(), DatabaseError>)
        ensures
            match self.spec_check(*config) {
                Some(msg) => r matches Err(DatabaseError::ConfigNotFoundError(m)) && m@ == msg,
                None => r is Ok,
            },
    ;
}

/// Checks every server setting (database, username, password, host, port).
pub fn check_server_config(config: &server_config::DbConfig) -> (r: Result<(), DatabaseError>)
    ensures
        match missing_server_setting(*config) {
            Some(msg) => r matches Err(DatabaseError::ConfigNotFoundError(m)) && m@ == msg,
            None => r is Ok,
        },
{
    if config.database.is_none() {
        return Err(DatabaseError::ConfigNotFoundError(String::from_str("Database is missing")));
    }
    if config.username.is_none() {
        return Err(DatabaseError::ConfigNotFoundError(String::from_str("Username is missing")));
    }
    if config.password.is_none() {
        return Err(DatabaseError::ConfigNotFoundError(String::from_str("Password is missing")));
    }
    if config.host.is_none() {
        return Err(DatabaseError::ConfigNotFoundError(String::from_str("Host is missing")));
    }
    if config.port.is_none() {
        return Err(DatabaseError::ConfigNotFoundError(String::from_str("Port is missing")));
    }
    Ok(())
}

} // verus!
