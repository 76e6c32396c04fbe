pub mod dameng;
pub mod mysql;
pub mod oracle;
pub mod postgres;
pub mod sqlite;
