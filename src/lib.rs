//! Path resolution and response construction for a minimal static file server.
//!
//! The library maps a request path onto a file path under a root directory and
//! turns the outcome of reading that file into a response. Reading the file,
//! logging and the HTTP transport are left to the caller.

pub mod config;
pub mod laws;
pub mod resolve;
