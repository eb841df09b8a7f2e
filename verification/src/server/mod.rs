pub mod auth;
pub mod filters;
pub mod hls;
pub mod routes;
pub mod screenshot;
pub mod templates;
