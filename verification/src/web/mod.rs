//! The rules of the website builder.
pub mod site_build;
pub mod routes;
pub mod utils;
