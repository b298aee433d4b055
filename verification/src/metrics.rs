//! Aggregated statistics of finished requests, and the bounded store of their snapshots.
pub mod count_laws;
pub mod counts;
pub mod histogram;
pub mod layer;
pub mod snapshots;
pub mod window;
pub mod wire;
pub mod wire_laws;
