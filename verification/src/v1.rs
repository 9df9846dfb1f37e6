pub mod api;
pub mod endpoints;
pub mod error;
pub mod resources;
