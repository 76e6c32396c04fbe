//! A persistence layer: a query builder, SQL text generation for several
//! database dialects, parameter values, pagination and the registries of
//! data sources.
pub mod base;
pub mod db;
pub mod pool;
pub mod query;
pub mod sample;
pub mod sql;
pub mod util;
