//! Header-stamping middleware: a wrapper around a request handler that marks
//! every request on the way in and every response on the way out.

pub mod actix_headers;
pub mod clock;
pub mod headers;
pub mod laws;
pub mod message;
pub mod middleware;
pub mod routes;
pub mod stamp;
pub mod text;
