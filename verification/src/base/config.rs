//! The configuration of a data source given by a URL and pool limits.
use vstd::prelude::*;
use crate::base::db_type::DbType;

verus! {

/// A data source: its kind, its registered name, where it lives and the
/// limits of its connection pool.
#[derive(Debug)]
pub struct DbConfig {
    pub db_type: DbType,
    pub name: String,
    pub url: Option<String>,
    pub username: Option<String>,
    pub password: Option<String>,
    pub max_size: Option<u16>,
    pub min_size: Option<u16>,
    pub timeout: Option<u16>,
}

impl DbConfig {
    /// A configuration with the pool limits left unset.
    pub fn new(
        db_type: DbType,
        name: String,
        url: Option<String>,
        username: Option<String>,
        password: Option<String>,
    ) -> (r: Self)
        ensures
            r.db_type == db_type,
            r.name == name,
            r.url == url,
            r.username == username,
            r.password == password,
            r.max_size is None,
            r.min_size is None,
            r.timeout is None,
    {
        Self::new_with_all_opts(db_type, name, url, username, password, None, None, None)
    }

    /// A configuration with every field given.
    pub fn new_with_all_opts(
        db_type: DbType,
        name: String,
        url: Option<String>,
        username: Option<String>,
        password: Option<String>,
        max_size: Option<u16>,
        min_size: Option<u16>,
        timeout: Option<u16>,
    ) -> (r: Self)
        ensures
            r.db_type == db_type,
            r.name == name,
            r.url == url,
            r.username == username,
            r.password == password,
            r.max_size == max_size,
            r.min_size == min_size,
            r.timeout == timeout,
    {
        Self { db_type, name, url, username, password, max_size, min_size, timeout }
    }
}

} // verus!
