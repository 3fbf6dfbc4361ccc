//! A minimal HTTP/1.1-style request-processing pipeline.
//!
//! The library holds the verified core of a small web server: the request
//! line parser, the content-type table, the response renderer, the
//! middleware chain (logging, routing, static files) and the per-connection
//! keep-alive state machine.  Sockets, files and clocks live outside the
//! library; callers feed bytes in and write the produced responses out.

pub mod chain;
pub mod http;
pub mod laws;
pub mod log;
pub mod middleware;
pub mod request;
pub mod server;
pub mod strutil;
