//! Minimal HTTP server scaffolding: a standardized JSON response envelope,
//! an ordered route table with last-registration-wins dispatch, a middleware
//! model (CORS headers and request logging in a fixed order), and server
//! lifecycle management (configuration resolution, address formation, and
//! phase transitions).

pub mod config;
pub mod lifecycle;
pub mod middleware;
pub mod response;
pub mod routes;

pub use response::MakeResponse;
pub use response::Response;
