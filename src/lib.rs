//! Health monitoring for a blockchain indexer: compares the height the
//! indexer has processed with the chain head, over time, and turns that into
//! an UP/DOWN verdict that is re-derived at most once per debounce interval.
pub mod api;
pub mod block;
pub mod errors;
pub mod healthcheck;
pub mod monitor;
pub mod routes;
pub mod state;
pub mod time;
