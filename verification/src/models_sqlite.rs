//! Models of the SQLite schema.
pub mod active_users;
pub mod comp_types_active_view;
pub mod comp_types_mat_view;
pub mod comp_types_metadata;
pub mod currencies;
pub mod order_items;
pub mod product_metadata;
pub mod user_roles;
pub mod users;
