pub mod datasource;
pub mod db_manager;
