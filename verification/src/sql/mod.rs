pub mod sql_generator;
pub mod row;
pub mod transaction;
pub mod where_sql;
