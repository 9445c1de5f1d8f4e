//! A static-content HTTP server core: an in-memory content store loaded once
//! from a directory tree, a path resolver with directory-index fallback, an
//! HTTP-to-HTTPS redirect decider and the per-request router built on them.

pub mod text;
pub mod store;
pub mod preload;
pub mod resolve;
pub mod message;
pub mod redirect;
pub mod router;
pub mod laws;
