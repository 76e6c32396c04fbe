//! The configuration of a data source given by host, port and database.
use vstd::prelude::*;
use crate::base::db_type::DbType;

verus! {

/// A data source described by the server it lives on.
#[derive(Debug)]
pub struct DbConfig {
    pub host: Option<String>,
    pub port: Option<u32>,
    pub database: Option<String>,
    pub username: Option<String>,
    pub password: Option<String>,
    pub schema: Option<String>,
    pub name: String,
    pub db_type: DbType,
}

impl DbConfig {
    /// A configuration with every field given.
    pub fn new(
        db_type: DbType,
        host: Option<String>,
        port: Option<u32>,
        database: Option<String>,
        username: Option<String>,
        password: Option<String>,
        schema: Option<String>,
        name: String,
    ) -> (r: Self)
        ensures
            r.db_type == db_type,
            r.host == host,
            r.port == port,
            r.database == database,
            r.username == username,
            r.password == password,
            r.schema == schema,
            r.name == name,
    {
        Self { host, port, database, username, password, schema, name, db_type }
    }
}

} // verus!
