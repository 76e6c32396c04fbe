//! The kinds of database the library speaks to.
use vstd::prelude::*;
use crate::base::entity::Entity;
use crate::base::param::ParamValue;
use crate::db::mysql::MysqlSqlGenerator;
use crate::db::oracle::OracleSqlGenerator;
use crate::db::postgres::PostgresSqlGenerator;
use crate::db::sqlite::SqliteSqlGenerator;
use crate::sql::sql_generator::{BaseSqlGenerator, PageSqlGenerator, QueryWrapperSqlGenerator};
use crate::sql::where_sql::WhereSqlGenerator;

verus! {

/// The kind of a database.
#[derive(Debug, Clone, Copy, PartialEq, Eq, Structural)]
pub enum DbType {
    Sqlite,
    Postgres,
    Mysql,
    Oracle,
    Dameng,
    Other,
}

/// The lower-case name of a database kind.
pub open spec fn db_type_name(t: DbType) -> Seq<char> {
    match t {
        DbType::Sqlite => "sqlite"@,
        DbType::Postgres => "postgres"@,
        DbType::Mysql => "mysql"@,
        DbType::Oracle => "oracle"@,
        DbType::Dameng => "dameng"@,
        DbType::Other => "other"@,
    }
}

impl DbType {
    /// The lower-case name of this database kind, e.g. "sqlite".
    pub fn to_string(&self) -> (r: String)
        ensures
            r@ == db_type_name(*self),
    {
        match self {
            DbType::Sqlite => String::from_str("sqlite"),
            DbType::Postgres => String::from_str("postgres"),
            DbType::Mysql => String::from_str("mysql"),
            DbType::Oracle => String::from_str("oracle"),
            DbType::Dameng => String::from_str("dameng"),
            DbType::Other => String::from_str("other"),
        }
    }
}

/// Whether the library generates SQL for this kind of database.
pub open spec fn has_sql_generator(t: DbType) -> bool {
    match t {
        DbType::Sqlite | DbType::Postgres | DbType::Mysql | DbType::Oracle => true,
        DbType::Dameng | DbType::Other => false,
    }
}

impl WhereSqlGenerator for DbType {}

impl PageSqlGenerator for DbType {
    open spec fn has_page_sql(&self) -> bool {
        has_sql_generator(*self)
    }

    open spec fn page_args_ok(&self, current_page: u64, page_size: u64) -> bool {
        match *self {
            DbType::Sqlite => SqliteSqlGenerator.page_args_ok(current_page, page_size),
            DbType::Postgres => PostgresSqlGenerator.page_args_ok(current_page, page_size),
            DbType::Mysql => MysqlSqlGenerator.page_args_ok(current_page, page_size),
            DbType::Oracle => OracleSqlGenerator.page_args_ok(current_page, page_size),
            _ => false,
        }
    }

    open spec fn spec_page_query_sql(&self, query_sql: Seq<char>) -> Seq<char> {
        match *self {
            DbType::Sqlite => SqliteSqlGenerator.spec_page_query_sql(query_sql),
            DbType::Postgres => PostgresSqlGenerator.spec_page_query_sql(query_sql),
            DbType::Mysql => MysqlSqlGenerator.spec_page_query_sql(query_sql),
            DbType::Oracle => OracleSqlGenerator.spec_page_query_sql(query_sql),
            _ => query_sql,
        }
    }

    open spec fn spec_page_args(&self, current_page: u64, page_size: u64) -> (u64, u64) {
        match *self {
            DbType::Sqlite => SqliteSqlGenerator.spec_page_args(current_page, page_size),
            DbType::Postgres => PostgresSqlGenerator.spec_page_args(current_page, page_size),
            DbType::Mysql => MysqlSqlGenerator.spec_page_args(current_page, page_size),
            DbType::Oracle => OracleSqlGenerator.spec_page_args(current_page, page_size),
            _ => (0, 0),
        }
    }

    proof fn lemma_first_page(&self, page_size: u64) {
        match *self {
            DbType::Sqlite => SqliteSqlGenerator.lemma_first_page(page_size),
            DbType::Postgres => PostgresSqlGenerator.lemma_first_page(page_size),
            DbType::Mysql => MysqlSqlGenerator.lemma_first_page(page_size),
            DbType::Oracle => OracleSqlGenerator.lemma_first_page(page_size),
            _ => {},
        }
    }

    /// The page text of the dialect of this kind of database.
    fn gen_page_query_sql(&self, query_sql: &str, current_page: u64, page_size: u64) -> (r: (String, u64, u64)) {
        match self {
            DbType::Sqlite => SqliteSqlGenerator.gen_page_query_sql(query_sql, current_page, page_size),
            DbType::Postgres => PostgresSqlGenerator.gen_page_query_sql(query_sql, current_page, page_size),
            DbType::Mysql => MysqlSqlGenerator.gen_page_query_sql(query_sql, current_page, page_size),
            DbType::Oracle => OracleSqlGenerator.gen_page_query_sql(query_sql, current_page, page_size),
            _ => vstd::pervasive::unreached(),
        }
    }
}

impl BaseSqlGenerator for DbType {
    open spec fn supports_insert_and_get_id(&self) -> bool {
        *self == DbType::Mysql
    }

    open spec fn spec_insert_and_get_id(&self, insert_sql: Seq<char>) -> Seq<char> {
        MysqlSqlGenerator.spec_insert_and_get_id(insert_sql)
    }

    /// Offered by MySQL only.
    fn gen_insert_and_get_id_sql<E: Entity>(&self, e: &E) -> (r: (String, Vec<ParamValue>)) {
        match self {
            DbType::Mysql => MysqlSqlGenerator.gen_insert_and_get_id_sql(e),
            _ => vstd::pervasive::unreached(),
        }
    }
}

impl QueryWrapperSqlGenerator for DbType {}

/// How each kind of database takes page `current_page` (counted from 1) of
/// `page_size` rows of a query `q`, through its own generator and through
/// `DbType` alike: SQLite and PostgreSQL wrap `q` in `limit ? offset ?` and
/// bind the page size, then the number of rows skipped; MySQL wraps it in
/// `limit ?, ?` and binds the rows skipped, then the page size; Oracle
/// numbers the rows and binds the last row of the page, then the rows
/// skipped. Every dialect counts the rows of `q` in the same way.
pub proof fn law_page_sql_of_each_dialect(q: Seq<char>, current_page: u64, page_size: u64)
    requires
        current_page >= 1,
        current_page * page_size <= u64::MAX,
    ensures
        SqliteSqlGenerator.spec_page_query_sql(q) == "select * from("@ + q + ") limit ? offset ?"@,
        DbType::Sqlite.spec_page_query_sql(q) == "select * from("@ + q + ") limit ? offset ?"@,
        PostgresSqlGenerator.spec_page_query_sql(q) == "select * from("@ + q + ") limit ? offset ?"@,
        DbType::Postgres.spec_page_query_sql(q) == "select * from("@ + q + ") limit ? offset ?"@,
        MysqlSqlGenerator.spec_page_query_sql(q) == "select * from("@ + q + ") limit ?, ?"@,
        DbType::Mysql.spec_page_query_sql(q) == "select * from("@ + q + ") limit ?, ?"@,
        OracleSqlGenerator.spec_page_query_sql(q) == "SELECT * FROM ( SELECT t.*, ROWNUM rnum  FROM (  "@ + q
            + "  ) t  WHERE ROWNUM <= ? ) WHERE rnum > ? "@,
        DbType::Oracle.spec_page_query_sql(q) == "SELECT * FROM ( SELECT t.*, ROWNUM rnum  FROM (  "@ + q
            + "  ) t  WHERE ROWNUM <= ? ) WHERE rnum > ? "@,
        SqliteSqlGenerator.spec_page_args(current_page, page_size).0 == page_size,
        SqliteSqlGenerator.spec_page_args(current_page, page_size).1 == (current_page - 1) * page_size,
        DbType::Sqlite.spec_page_args(current_page, page_size).0 == page_size,
        DbType::Sqlite.spec_page_args(current_page, page_size).1 == (current_page - 1) * page_size,
        PostgresSqlGenerator.spec_page_args(current_page, page_size).0 == page_size,
        PostgresSqlGenerator.spec_page_args(current_page, page_size).1 == (current_page - 1) * page_size,
        DbType::Postgres.spec_page_args(current_page, page_size).0 == page_size,
        DbType::Postgres.spec_page_args(current_page, page_size).1 == (current_page - 1) * page_size,
        MysqlSqlGenerator.spec_page_args(current_page, page_size).0 == (current_page - 1) * page_size,
        MysqlSqlGenerator.spec_page_args(current_page, page_size).1 == page_size,
        DbType::Mysql.spec_page_args(current_page, page_size).0 == (current_page - 1) * page_size,
        DbType::Mysql.spec_page_args(current_page, page_size).1 == page_size,
        OracleSqlGenerator.spec_page_args(current_page, page_size).0 == current_page * page_size,
        OracleSqlGenerator.spec_page_args(current_page, page_size).1 == (current_page - 1) * page_size,
        DbType::Oracle.spec_page_args(current_page, page_size).0 == current_page * page_size,
        DbType::Oracle.spec_page_args(current_page, page_size).1 == (current_page - 1) * page_size,
        crate::sql::sql_generator::total_text(q) == "select count(*) from ("@ + q + ") t"@,
{
    assert((current_page - 1) * page_size == current_page * page_size - page_size) by (nonlinear_arith);
    assert(0 <= (current_page - 1) * page_size) by (nonlinear_arith)
        requires
            current_page >= 1,
    ;
}

} // verus!
