//! The Oracle dialect.
use vstd::prelude::*;
use crate::base::entity::Entity;
use crate::base::param::ParamValue;
use crate::sql::sql_generator::{BaseSqlGenerator, PageSqlGenerator, QueryWrapperSqlGenerator};
use crate::sql::where_sql::WhereSqlGenerator;
use crate::util::text::concat3;

verus! {

/// The text that takes a page of a query in Oracle.
pub open spec fn oracle_page_text(query_sql: Seq<char>) -> Seq<char> {
    "SELECT * FROM ( SELECT t.*, ROWNUM rnum  FROM (  "@ + query_sql + "  ) t  WHERE ROWNUM <= ? ) WHERE rnum > ? "@
}

/// The SQL generator of Oracle.
#[derive(Clone, Copy, Debug)]
pub struct OracleSqlGenerator;

/// The Oracle generator.
pub const ORACLE_SQL_GENERATOR: OracleSqlGenerator = OracleSqlGenerator;

impl WhereSqlGenerator for OracleSqlGenerator {}

impl PageSqlGenerator for OracleSqlGenerator {
    open spec fn has_page_sql(&self) -> bool {
        true
    }

    open spec fn page_args_ok(&self, current_page: u64, page_size: u64) -> bool {
        current_page >= 1 && current_page * page_size <= u64::MAX
    }

    open spec fn spec_page_query_sql(&self, query_sql: Seq<char>) -> Seq<char> {
        oracle_page_text(query_sql)
    }

    /// The end of the page (bound to `ROWNUM <= ?`), then its offset (bound
    /// to `rnum > ?`).
    open spec fn spec_page_args(&self, current_page: u64, page_size: u64) -> (u64, u64) {
        ((current_page * page_size) as u64, ((current_page - 1) * page_size) as u64)
    }

    proof fn lemma_first_page(&self, page_size: u64) {
    }

    fn gen_page_query_sql(&self, query_sql: &str, current_page: u64, page_size: u64) -> (r: (String, u64, u64)) {
        assert((current_page - 1) * page_size <= current_page * page_size) by (nonlinear_arith)
            requires
                current_page >= 1,
        ;
        (concat3("SELECT * FROM ( SELECT t.*, ROWNUM rnum  FROM (  ", query_sql, "  ) t  WHERE ROWNUM <= ? ) WHERE rnum > ? "), current_page * page_size, (current_page - 1) * page_size)
    }
}

impl BaseSqlGenerator for OracleSqlGenerator {
    open spec fn supports_insert_and_get_id(&self) -> bool {
        false
    }

    open spec fn spec_insert_and_get_id(&self, insert_sql: Seq<char>) -> Seq<char> {
        insert_sql
    }

    /// Not offered by this dialect: no caller can meet the precondition.
    fn gen_insert_and_get_id_sql<E: Entity>(&self, e: &E) -> (r: (String, Vec<ParamValue>)) {
        self.gen_insert_one_sql(e)
    }
}

impl QueryWrapperSqlGenerator for OracleSqlGenerator {}

} // verus!
