//! The headers that every response gets.
//!
//! `Content-Length` is always set, `Content-Type` only where a media type is
//! given, and four headers for tracing and hardening are set to fixed values
//! whatever the response held before.

use vstd::prelude::*;
use crate::context::RequestContext;
use crate::draft::{
    content_length_name, content_type_name, mime_text, put_content_length, put_content_type,
    put_text_header, response_body, response_headers, response_status,
};
use crate::text::{decimal_text, lower_ascii};

verus! {

/// The name under which `response_headers` keeps `X-Request-Id`.
pub open spec fn request_id_name() -> Seq<char> {
    "x-request-id"@
}

/// The name under which `response_headers` keeps `X-Frame-Options`.
pub open spec fn frame_options_name() -> Seq<char> {
    "x-frame-options"@
}

/// The name under which `response_headers` keeps `X-XSS-Protection`.
pub open spec fn xss_protection_name() -> Seq<char> {
    "x-xss-protection"@
}

/// The name under which `response_headers` keeps `X-Content-Type-Options`.
pub open spec fn content_type_options_name() -> Seq<char> {
    "x-content-type-options"@
}

/// No page may show the response in a frame.
pub open spec fn frame_options_value() -> Seq<char> {
    "DENY"@
}

/// The browser's filter against cross-site scripting is on, and blocks the page.
pub open spec fn xss_protection_value() -> Seq<char> {
    "1; mode=block"@
}

/// The browser takes the declared content type and does not guess another.
pub open spec fn content_type_options_value() -> Seq<char> {
    "nosniff"@
}

/// The text of a media type where one is given.
pub open spec fn media_text(media_type: Option<mime::Mime>) -> Option<Seq<char>> {
    match media_type {
        Some(m) => Some(mime_text(m)),
        None => None,
    }
}

/// The length that `Content-Length` announces: the one given, or zero.
pub open spec fn announced_length(length: Option<u64>) -> nat {
    match length {
        Some(n) => n as nat,
        None => 0,
    }
}

/// The headers `prior` after the standard ones are applied for a request of
/// the given identifier, a media type where there is one, and a length.
pub open spec fn standard_headers(
    prior: Map<Seq<char>, Seq<char>>,
    request_id: Seq<char>,
    media_type: Option<Seq<char>>,
    length: nat,
) -> Map<Seq<char>, Seq<char>> {
    let sized = prior.insert(content_length_name(), decimal_text(length));
    let typed = match media_type {
        Some(text) => sized.insert(content_type_name(), text),
        None => sized,
    };
    typed.insert(request_id_name(), request_id).insert(
        frame_options_name(),
        frame_options_value(),
    ).insert(xss_protection_name(), xss_protection_value()).insert(
        content_type_options_name(),
        content_type_options_value(),
    )
}

/// The names as they are written into a response fold to the names under
/// which `response_headers` keeps them.
proof fn lemma_written_names()
    ensures
        lower_ascii("X-Request-Id"@) == request_id_name(),
        lower_ascii("X-Frame-Options"@) == frame_options_name(),
        lower_ascii("X-XSS-Protection"@) == xss_protection_name(),
        lower_ascii("X-Content-Type-Options"@) == content_type_options_name(),
{
    reveal_strlit("X-Request-Id");
    reveal_strlit("x-request-id");
    reveal_strlit("X-Frame-Options");
    reveal_strlit("x-frame-options");
    reveal_strlit("X-XSS-Protection");
    reveal_strlit("x-xss-protection");
    reveal_strlit("X-Content-Type-Options");
    reveal_strlit("x-content-type-options");
    assert(lower_ascii("X-Request-Id"@) =~= "x-request-id"@);
    assert(lower_ascii("X-Frame-Options"@) =~= "x-frame-options"@);
    assert(lower_ascii("X-XSS-Protection"@) =~= "x-xss-protection"@);
    assert(lower_ascii("X-Content-Type-Options"@) =~= "x-content-type-options"@);
}

/// Applies the standard headers to `res`.
///
/// `Content-Length` announces `length`, or zero where none is given.
/// `Content-Type` is set where `mime` is given and left as it was otherwise.
/// `X-Request-Id` carries the identifier of the request, and `X-Frame-Options`,
/// `X-XSS-Protection` and `X-Content-Type-Options` their fixed values. Headers
/// of other names, the status and the body are not touched.
pub fn set_headers(
    ctx: &RequestContext,
    res: &mut hyper::Response,
    mime: Option<mime::Mime>,
    length: Option<u64>,
)
    ensures
        response_headers(*final(res)) == standard_headers(
            response_headers(*old(res)),
            ctx.request_id@,
            media_text(mime),
            announced_length(length),
        ),
        response_status(*final(res)) == response_status(*old(res)),
        response_body(*final(res)) == response_body(*old(res)),
{
    match length {
        Some(length) => put_content_length(res, length),
        None => put_content_length(res, 0),
    }
    match mime {
        Some(mime) => put_content_type(res, mime),
        None => (),
    }
    proof {
        lemma_written_names();
    }
    put_text_header(res, "X-Request-Id", ctx.request_id.as_str());
    put_text_header(res, "X-Frame-Options", "DENY");
    put_text_header(res, "X-XSS-Protection", "1; mode=block");
    put_text_header(res, "X-Content-Type-Options", "nosniff");
}

} // verus!
