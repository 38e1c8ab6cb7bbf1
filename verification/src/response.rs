//! Building a response, and finishing one that exists.

use vstd::prelude::*;
use crate::context::{Method, RequestContext};
use crate::draft::{
    assign_status, attach_body, mime_text, new_response, no_headers, response_body,
    response_headers, response_status,
};
use crate::headers::{set_headers, standard_headers};

verus! {

/// The media type of a body, as header text, where there is a body.
pub open spec fn payload_type(body: Option<(Vec<u8>, mime::Mime)>) -> Option<Seq<char>> {
    match body {
        Some(payload) => Some(mime_text(payload.1)),
        None => None,
    }
}

/// The bytes of a body, none where there is no body.
pub open spec fn payload_bytes(body: Option<(Vec<u8>, mime::Mime)>) -> Seq<u8> {
    match body {
        Some(payload) => payload.0@,
        None => Seq::empty(),
    }
}

/// The number of bytes of a body, zero where there is none.
pub open spec fn payload_size(body: Option<(Vec<u8>, mime::Mime)>) -> nat {
    payload_bytes(body).len()
}

/// What is sent of a body in answer to a request of the given method:
/// nothing for `HEAD`, all of it for any other.
pub open spec fn sent_body(method: Method, bytes: Seq<u8>) -> Option<Seq<u8>> {
    if method is Head {
        None
    } else {
        Some(bytes)
    }
}

/// The body of a response after a body was offered to it: what is sent of the
/// offered one, and the body it had, `prior`, where nothing is sent.
pub open spec fn body_after(
    method: Method,
    prior: Option<Seq<u8>>,
    body: Option<(Vec<u8>, mime::Mime)>,
) -> Option<Seq<u8>> {
    match body {
        Some(_) => match sent_body(method, payload_bytes(body)) {
            Some(bytes) => Some(bytes),
            None => prior,
        },
        None => prior,
    }
}

/// Whether every length of a byte sequence on this platform can be written
/// into the 64-bit length of a response. It always can.
pub fn lengths_fit() -> (fits: bool)
    ensures
        fits == (usize::MAX <= u64::MAX),
        fits,
{
    usize::BITS <= u64::BITS
}

/// The length of a body as the 64-bit number that `Content-Length` announces.
pub fn body_length(bytes: &Vec<u8>) -> (length: u64)
    ensures
        length == bytes@.len(),
{
    bytes.len() as u64
}

/// Drops the body where the request was a `HEAD`, and keeps it otherwise.
pub fn body_for_method(method: &Method, bytes: Vec<u8>) -> (kept: Option<Vec<u8>>)
    ensures
        kept.deep_view() == sent_body(*method, bytes@),
{
    if method.is_head() {
        None
    } else {
        Some(bytes)
    }
}

/// Finishes the response `res` with the standard headers, the status and,
/// where one is given and the request was no `HEAD`, the body.
///
/// `Content-Length` announces the size of the body given, also where the body
/// itself is withheld from a `HEAD` request, and zero where none is given.
pub fn extend_response(
    ctx: &RequestContext,
    res: &mut hyper::Response,
    status: hyper::StatusCode,
    body: Option<(Vec<u8>, mime::Mime)>,
)
    ensures
        response_status(*final(res)) == status,
        response_headers(*final(res)) == standard_headers(
            response_headers(*old(res)),
            ctx.request_id@,
            payload_type(body),
            payload_size(body),
        ),
        response_body(*final(res)) == body_after(ctx.method, response_body(*old(res)), body),
{
    match body {
        Some((bytes, mime)) => {
            let length: u64 = body_length(&bytes);
            set_headers(ctx, res, Some(mime), Some(length));
            assign_status(res, status);
            match body_for_method(&ctx.method, bytes) {
                Some(bytes) => attach_body(res, bytes),
                None => (),
            }
        },
        None => {
            set_headers(ctx, res, None, None);
            assign_status(res, status);
        },
    }
}

/// A new response with the standard headers, the status and, where one is
/// given and the request was no `HEAD`, the body.
pub fn create_response(
    ctx: &RequestContext,
    status: hyper::StatusCode,
    body: Option<(Vec<u8>, mime::Mime)>,
) -> (res: hyper::Response)
    ensures
        response_status(res) == status,
        response_headers(res) == standard_headers(
            no_headers(),
            ctx.request_id@,
            payload_type(body),
            payload_size(body),
        ),
        response_body(res) == body_after(ctx.method, None, body),
{
    let mut res = new_response();
    extend_response(ctx, &mut res, status, body);
    res
}

} // verus!
