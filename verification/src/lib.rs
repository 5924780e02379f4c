//! Verified core of a Kubernetes secret-listing tool.
//!
//! The crate decides which secrets of a namespace are displayed, renders
//! their decoded key/value payloads into printable lines, and picks the
//! diagnostic message shown when nothing was displayed. Fetching the data
//! from a cluster and printing are left to the surrounding binary; this
//! library works on plain values handed to it and proves what it returns.

pub mod config;
pub mod diagnose;
pub mod filter;
pub mod pipeline;
pub mod render;
pub mod secret;
pub mod text;
