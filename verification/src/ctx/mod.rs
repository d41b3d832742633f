pub mod cache;
pub mod paths;
pub mod endpoints;
