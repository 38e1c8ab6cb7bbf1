//! Finishing of HTTP responses: a status, an optional body and a fixed set of
//! hardening headers are applied to a `hyper::Response`.

pub mod context;
pub mod draft;
pub mod headers;
pub mod laws;
pub mod response;
pub mod text;
