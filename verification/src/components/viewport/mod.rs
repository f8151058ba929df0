pub mod layout;
pub mod models;
