//! A minimal health-checked HTTP endpoint.
//!
//! The library holds the verified logic of a small web service: an HTTP
//! response model, an exact-match router, the two handlers (a template-backed
//! health check and a fixed not-found fallback), and the wiring that turns a
//! request into a response. Listening on a socket and serving connections is
//! left to the binary around the library.

pub mod engine;
pub mod handlers;
pub mod http;
pub mod router;
pub mod service;
