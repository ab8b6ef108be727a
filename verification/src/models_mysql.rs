//! Models of the MySQL schema.
pub mod active_users;
pub mod comp_types_active_view;
pub mod comp_types_mat_view;
pub mod comp_types_metadata;
pub mod comp_types_table;
pub mod comp_types_view;
pub mod order_items;
pub mod product_metadata;
pub mod user_roles;
pub mod users;
pub mod daox_generated;
