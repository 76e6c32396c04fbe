//! The Sqlite dialect.
use vstd::prelude::*;
use crate::base::entity::Entity;
use crate::base::error::DatabaseError;
use crate::base::server_config;
use crate::pool::db_manager::DbRegister;
use crate::base::param::ParamValue;
use crate::sql::sql_generator::{BaseSqlGenerator, PageSqlGenerator, QueryWrapperSqlGenerator};
use crate::sql::where_sql::WhereSqlGenerator;
use crate::util::text::concat3;

verus! {

/// The text that takes a page of a query in Sqlite.
pub open spec fn sqlite_page_text(query_sql: Seq<char>) -> Seq<char> {
    "select * from("@ + query_sql + ") limit ? offset ?"@
}

/// The SQL generator of Sqlite.
#[derive(Clone, Copy, Debug)]
pub struct SqliteSqlGenerator;

/// The Sqlite generator.
pub const SQLITE_SQL_GENERATOR: SqliteSqlGenerator = SqliteSqlGenerator;

impl WhereSqlGenerator for SqliteSqlGenerator {}

impl PageSqlGenerator for SqliteSqlGenerator {
    open spec fn has_page_sql(&self) -> bool {
        true
    }

    open spec fn page_args_ok(&self, current_page: u64, page_size: u64) -> bool {
        current_page >= 1 && (current_page - 1) * page_size <= u64::MAX
    }

    open spec fn spec_page_query_sql(&self, query_sql: Seq<char>) -> Seq<char> {
        sqlite_page_text(query_sql)
    }

    open spec fn spec_page_args(&self, current_page: u64, page_size: u64) -> (u64, u64) {
        (page_size, ((current_page - 1) * page_size) as u64)
    }

    proof fn lemma_first_page(&self, page_size: u64) {
    }

    fn gen_page_query_sql(&self, query_sql: &str, current_page: u64, page_size: u64) -> (r: (String, u64, u64)) {
        (concat3("select * from(", query_sql, ") limit ? offset ?"), page_size, (current_page - 1) * page_size)
    }
}

impl BaseSqlGenerator for SqliteSqlGenerator {
    open spec fn supports_insert_and_get_id(&self) -> bool {
        false
    }

    open spec fn spec_insert_and_get_id(&self, insert_sql: Seq<char>) -> Seq<char> {
        insert_sql
    }

    /// Not offered by this dialect: no caller can meet the precondition.
    fn gen_insert_and_get_id_sql<E: Entity>(&self, e: &E) -> (r: (String, Vec<ParamValue>)) {
        self.gen_insert_one_sql(e)
    }
}

impl QueryWrapperSqlGenerator for SqliteSqlGenerator {}

/// The register of SQLite databases.
#[derive(Clone, Copy, Debug)]
pub struct SqliteDbRegister;

/// The SQLite register.
pub const SQLITE_REGISTER: SqliteDbRegister = SqliteDbRegister;

impl DbRegister for SqliteDbRegister {
    open spec fn spec_check(&self, config: server_config::DbConfig) -> Option<Seq<char>> {
        if config.database is None {
            Some("Database URL is missing"@)
        } else {
            None
        }
    }

    /// A SQLite database needs only its file.
    fn check_config(&self, config: &server_config::DbConfig) -> (r: Result<(), DatabaseError>) {
        if config.database.is_none() {
            return Err(DatabaseError::ConfigNotFoundError(String::from_str("Database URL is missing")));
        }
        Ok(())
    }
}

/// The executor of statements on SQLite databases.
#[derive(Clone, Copy, Debug)]
pub struct SqliteSqlExecutor;

} // verus!
