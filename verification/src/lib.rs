//! Verified core of a social-feed backend service.
//!
//! The crate covers the request-pipeline middleware decisions (authentication
//! gate with path exclusions, panic containment, uniform error normalization)
//! and the view-aggregation layer that joins independently fetched rows into
//! detail objects.  I/O — the HTTP server, the database queries, mail and file
//! storage — lives outside; the functions here take the fetched rows and plain
//! request data as values and are verified against their contracts.

pub mod aggregate;
pub mod constants;
pub mod config;
pub mod dtos;
pub mod envelope;
pub mod errors;
pub mod exclusion;
pub mod gate;
pub mod identity;
pub mod models;
pub mod normalize;
pub mod pagination;
pub mod pin;
pub mod service;
pub mod storage;
pub mod text;

pub use errors::HttpError;
pub use errors::ValidationError;
