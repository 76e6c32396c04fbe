pub mod base_mapper;
pub mod query;
pub mod query_wrapper;
