//! The decisions of the HTTP surface.
pub mod api_log;
pub mod body_log;
pub mod inbound;
pub mod log_laws;
pub mod models_list;
pub mod routes;
pub mod summary_laws;
pub mod surface_laws;
pub mod tally;
