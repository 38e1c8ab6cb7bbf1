//! What the library reads of the request that a response answers.

use vstd::prelude::*;

verus! {

/// The method of a request.
#[derive(Clone, Debug, PartialEq, Eq)]
pub enum Method {
    Options,
    Get,
    Post,
    Put,
    Delete,
    Head,
    Trace,
    Connect,
    Patch,
    /// Any other method, by its name.
    Extension(String),
}

impl Method {
    /// Whether this is `HEAD`, the method whose responses carry no body.
    pub fn is_head(&self) -> (head: bool)
        ensures
            head == (*self is Head),
    {
        match self {
            Method::Head => true,
            _ => false,
        }
    }
}

/// The part of a request that shapes its response: the method, and the
/// identifier under which the request is traced.
#[derive(Clone, Debug)]
pub struct RequestContext {
    pub method: Method,
    pub request_id: String,
}

impl RequestContext {
    pub fn new(method: Method, request_id: String) -> (ctx: RequestContext)
        ensures
            ctx.method == method,
            ctx.request_id == request_id,
    {
        RequestContext { method, request_id }
    }
}

} // verus!
