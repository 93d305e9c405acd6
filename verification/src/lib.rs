//! A verified core for a small Gemini protocol server.
//!
//! The library holds the per-connection pipeline that is worth proving:
//! request validation (scheme check, traversal defense), path resolution,
//! content-type determination, and response encoding over the Gemini
//! status-code taxonomy.  The surrounding process — sockets, TLS, the
//! filesystem, logging — stays outside and hands the library plain values.

pub mod err;
pub mod file;
pub mod handlers;
pub mod response;
pub mod text;
