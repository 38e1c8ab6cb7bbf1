//! The response under construction, as the rest of the library sees it.
//!
//! A `hyper::Response` is opaque to the verifier. This module gives what it holds
//! three names (its status, its header lines and its body bytes) and states, for
//! each `hyper` call the library makes, what the call does to them.

use vstd::prelude::*;
use crate::text::{decimal_text, lower_ascii};

verus! {

/// `hyper::Response`, known by the three names below and by nothing else.
#[verifier::external_type_specification]
#[verifier::external_body]
#[verifier::reject_recursive_types(B)]
pub struct ExResponse<B>(hyper::Response<B>);

/// `hyper::Body`, the body type of the responses that the library handles.
#[verifier::external_type_specification]
#[verifier::external_body]
pub struct ExBody(hyper::Body);

/// `hyper::StatusCode`, handed through to the response as it is given.
#[verifier::external_type_specification]
#[verifier::external_body]
pub struct ExStatusCode(hyper::StatusCode);

/// `mime::Mime`, handed through to the `Content-Type` header as it is given.
#[verifier::external_type_specification]
#[verifier::external_body]
pub struct ExMime(mime::Mime);

/// The status that a response carries.
pub uninterp spec fn response_status(res: hyper::Response) -> hyper::StatusCode;

/// The headers that a response carries: for each header that is present, its
/// name in ASCII lower case mapped to the text that the header holds. A header
/// occurs once, whatever the case its name was written in.
pub uninterp spec fn response_headers(res: hyper::Response) -> Map<Seq<char>, Seq<char>>;

/// The bytes of the body attached to a response, `None` where none is attached.
pub uninterp spec fn response_body(res: hyper::Response) -> Option<Seq<u8>>;

/// The text of a media type, as `mime::Mime` displays it and as it stands in a
/// header line.
pub uninterp spec fn mime_text(media_type: mime::Mime) -> Seq<char>;

/// The name under which `response_headers` keeps `Content-Length`.
pub open spec fn content_length_name() -> Seq<char> {
    "content-length"@
}

/// The name under which `response_headers` keeps `Content-Type`.
pub open spec fn content_type_name() -> Seq<char> {
    "content-type"@
}

/// The header collection of a response that holds no header.
pub open spec fn no_headers() -> Map<Seq<char>, Seq<char>> {
    Map::empty()
}

/// `hyper::Response::new`: a response without headers and without a body.
/// Its status is the default of `hyper` and is not stated here.
#[verifier::external_body]
pub(crate) fn new_response() -> (res: hyper::Response)
    ensures
        response_headers(res) == no_headers(),
        response_body(res) == None::<Seq<u8>>,
{
    hyper::Response::new()
}

/// `hyper::Response::set_status`: stores the status; headers and body stay.
#[verifier::external_body]
pub(crate) fn assign_status(res: &mut hyper::Response, status: hyper::StatusCode)
    ensures
        response_status(*final(res)) == status,
        response_headers(*final(res)) == response_headers(*old(res)),
        response_body(*final(res)) == response_body(*old(res)),
{
    res.set_status(status)
}

/// `hyper::Response::set_body`, given the bytes: they become the body, in place
/// of any body attached before; status and headers stay.
#[verifier::external_body]
pub(crate) fn attach_body(res: &mut hyper::Response, bytes: Vec<u8>)
    ensures
        response_body(*final(res)) == Some(bytes@),
        response_status(*final(res)) == response_status(*old(res)),
        response_headers(*final(res)) == response_headers(*old(res)),
{
    res.set_body(bytes)
}

/// `hyper::header::Headers::set` with a `ContentLength`: the header
/// `Content-Length` holds the length in decimal, in place of any value it had;
/// every other header, the status and the body stay.
#[verifier::external_body]
pub(crate) fn put_content_length(res: &mut hyper::Response, length: u64)
    ensures
        response_headers(*final(res)) == response_headers(*old(res)).insert(
            content_length_name(),
            decimal_text(length as nat),
        ),
        response_status(*final(res)) == response_status(*old(res)),
        response_body(*final(res)) == response_body(*old(res)),
{
    res.headers_mut().set(hyper::header::ContentLength(length))
}

/// `hyper::header::Headers::set` with a `ContentType`: the header `Content-Type`
/// holds the text of the media type, in place of any value it had; every other
/// header, the status and the body stay.
#[verifier::external_body]
pub(crate) fn put_content_type(res: &mut hyper::Response, media_type: mime::Mime)
    ensures
        response_headers(*final(res)) == response_headers(*old(res)).insert(
            content_type_name(),
            mime_text(media_type),
        ),
        response_status(*final(res)) == response_status(*old(res)),
        response_body(*final(res)) == response_body(*old(res)),
{
    res.headers_mut().set(hyper::header::ContentType(media_type))
}

/// `hyper::header::Headers::set_raw` with one line of text: the header of that
/// name, compared without regard to ASCII case, holds the text, in place of any
/// value it had; every other header, the status and the body stay.
#[verifier::external_body]
pub(crate) fn put_text_header(res: &mut hyper::Response, name: &'static str, value: &str)
    ensures
        response_headers(*final(res)) == response_headers(*old(res)).insert(
            lower_ascii(name@),
            value@,
        ),
        response_status(*final(res)) == response_status(*old(res)),
        response_body(*final(res)) == response_body(*old(res)),
{
    res.headers_mut().set_raw(name, value)
}

} // verus!
