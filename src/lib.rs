//! The request edge of a server-rendered site: session resolution, route
//! gates, security headers and the upstream relay, each as verified decisions
//! over plain values. The surrounding program performs the I/O they ask for.

pub mod error;
pub mod response;
pub mod auth;
pub mod middleware;
pub mod relay;
pub mod pool;
pub mod template;
