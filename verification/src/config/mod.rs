pub mod paths;
pub mod types;
pub mod validate;
pub mod sanitize;
pub mod compat;
