//! The Mysql dialect.
use vstd::prelude::*;
use crate::base::entity::Entity;
use crate::base::param::ParamValue;
use crate::sql::sql_generator::{BaseSqlGenerator, PageSqlGenerator, QueryWrapperSqlGenerator};
use crate::sql::where_sql::WhereSqlGenerator;
use crate::util::text::{concat2, concat3};

verus! {

/// The text that takes a page of a query in Mysql.
pub open spec fn mysql_page_text(query_sql: Seq<char>) -> Seq<char> {
    "select * from("@ + query_sql + ") limit ?, ?"@
}

/// The SQL generator of Mysql.
#[derive(Clone, Copy, Debug)]
pub struct MysqlSqlGenerator;

/// The Mysql generator.
pub const MYSQL_SQL_GENERATOR: MysqlSqlGenerator = MysqlSqlGenerator;

impl WhereSqlGenerator for MysqlSqlGenerator {}

impl PageSqlGenerator for MysqlSqlGenerator {
    open spec fn has_page_sql(&self) -> bool {
        true
    }

    open spec fn page_args_ok(&self, current_page: u64, page_size: u64) -> bool {
        current_page >= 1 && (current_page - 1) * page_size <= u64::MAX
    }

    open spec fn spec_page_query_sql(&self, query_sql: Seq<char>) -> Seq<char> {
        mysql_page_text(query_sql)
    }

    open spec fn spec_page_args(&self, current_page: u64, page_size: u64) -> (u64, u64) {
        (((current_page - 1) * page_size) as u64, page_size)
    }

    proof fn lemma_first_page(&self, page_size: u64) {
    }

    fn gen_page_query_sql(&self, query_sql: &str, current_page: u64, page_size: u64) -> (r: (String, u64, u64)) {
        (concat3("select * from(", query_sql, ") limit ?, ?"), (current_page - 1) * page_size, page_size)
    }
}

impl BaseSqlGenerator for MysqlSqlGenerator {
    open spec fn supports_insert_and_get_id(&self) -> bool {
        true
    }

    open spec fn spec_insert_and_get_id(&self, insert_sql: Seq<char>) -> Seq<char> {
        insert_sql + "; SELECT LAST_INSERT_ID();"@
    }

    /// The insert followed by `SELECT LAST_INSERT_ID()`.
    fn gen_insert_and_get_id_sql<E: Entity>(&self, e: &E) -> (r: (String, Vec<ParamValue>)) {
        let (sql, params) = self.gen_insert_one_sql(e);
        (concat2(sql.as_str(), "; SELECT LAST_INSERT_ID();"), params)
    }
}

impl QueryWrapperSqlGenerator for MysqlSqlGenerator {}

/// The executor of statements on MySQL databases.
#[derive(Clone, Copy, Debug)]
pub struct MysqlSqlExecutor;

/// The rows read from MySQL.
#[derive(Clone, Copy, Debug)]
pub struct MysqlRowType;

} // verus!
