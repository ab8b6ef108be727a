pub mod text;
pub mod value;
pub mod sql;
pub mod copy;
pub mod validation;
pub mod time;
pub mod paging;
pub mod order;
pub mod env_file;
pub mod csv_read;
pub mod models_mysql;
pub mod models;
pub mod models_pg;
pub mod models_sqlite;
