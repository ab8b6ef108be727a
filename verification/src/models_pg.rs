//! Models of the PostgreSQL schema.
pub mod active_users;
pub mod comp_types_mat_view;
pub mod comp_types_metadata;
pub mod comp_types_table;
pub mod comp_types_view;
pub mod configurations;
pub mod currencies;
pub mod user_roles;
pub mod users;
pub mod daox_generated;
