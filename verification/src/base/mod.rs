pub mod config;
pub mod db_type;
pub mod error;
pub mod page;
pub mod server_config;
pub mod datetime;
pub mod param;
pub mod entity;
pub mod param_convert;
pub mod describe;
