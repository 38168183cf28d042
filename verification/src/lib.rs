//! Authorization caching gateway for a map-tile server.
//!
//! The library holds the verified core of the server: deriving a session
//! fingerprint from configured request headers, a time-bounded decision
//! cache with lazy expiry, the per-request authorization state machine
//! that gates tile serving, and the tile-coordinate row projection used
//! by the storage backends.

pub mod cache;
pub mod decimal;
pub mod error;
pub mod fingerprint;
pub mod gateway;
pub mod mbtile_project;
pub mod tiles;
