//! Open Graph metadata injection for a single-page social client.
//!
//! The library decides, from a request's method, path, query string and
//! user agent, how the static HTML page is to be rewritten, drives the
//! two-step remote post lookup as a state machine, and splices escaped
//! meta tags into the page at fixed anchors.
pub mod fetch;
pub mod handler;
pub mod inject;
pub mod laws;
pub mod post_url;
pub mod query;
pub mod text;
