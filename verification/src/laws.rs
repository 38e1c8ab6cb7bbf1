//! What holds of every finished response, stated over the header collection
//! and the body that the functions of this library promise.

use vstd::prelude::*;
use crate::context::Method;
use crate::draft::{content_length_name, content_type_name};
use crate::headers::{
    content_type_options_name, content_type_options_value, frame_options_name,
    frame_options_value, request_id_name, standard_headers, xss_protection_name,
    xss_protection_value,
};
use crate::response::{body_after, payload_bytes, payload_size, payload_type};
use crate::text::decimal_text;

verus! {

/// Whether `name` is one of the six headers that the library writes.
pub open spec fn is_standard_name(name: Seq<char>) -> bool {
    ||| name == content_length_name()
    ||| name == content_type_name()
    ||| name == request_id_name()
    ||| name == frame_options_name()
    ||| name == xss_protection_name()
    ||| name == content_type_options_name()
}

/// The six header names differ from one another.
pub proof fn lemma_names_differ()
    ensures
        content_length_name() != content_type_name(),
        content_length_name() != request_id_name(),
        content_length_name() != frame_options_name(),
        content_length_name() != xss_protection_name(),
        content_length_name() != content_type_options_name(),
        content_type_name() != request_id_name(),
        content_type_name() != frame_options_name(),
        content_type_name() != xss_protection_name(),
        content_type_name() != content_type_options_name(),
        request_id_name() != frame_options_name(),
        request_id_name() != xss_protection_name(),
        request_id_name() != content_type_options_name(),
        frame_options_name() != xss_protection_name(),
        frame_options_name() != content_type_options_name(),
        xss_protection_name() != content_type_options_name(),
{
    reveal_strlit("content-length");
    reveal_strlit("content-type");
    reveal_strlit("x-request-id");
    reveal_strlit("x-frame-options");
    reveal_strlit("x-xss-protection");
    reveal_strlit("x-content-type-options");
    assert(content_length_name().len() == 14);
    assert(content_type_name().len() == 12);
    assert(request_id_name().len() == 12);
    assert(frame_options_name().len() == 15);
    assert(xss_protection_name().len() == 16);
    assert(content_type_options_name().len() == 22);
    assert(content_type_name()[0] == 'c');
    assert(request_id_name()[0] == 'x');
}

/// A response that is given no body announces a length of `0`; and it has no
/// `Content-Type`, provided it had none before.
pub proof fn law_without_body(
    prior: Map<Seq<char>, Seq<char>>,
    request_id: Seq<char>,
    body: Option<(Vec<u8>, mime::Mime)>,
)
    requires
        body is None,
        !prior.dom().contains(content_type_name()),
    ensures
        standard_headers(prior, request_id, payload_type(body), payload_size(body)).dom().contains(
            content_length_name(),
        ),
        standard_headers(
            prior,
            request_id,
            payload_type(body),
            payload_size(body),
        )[content_length_name()] == "0"@,
        !standard_headers(
            prior,
            request_id,
            payload_type(body),
            payload_size(body),
        ).dom().contains(content_type_name()),
{
    lemma_names_differ();
    reveal_strlit("0");
    assert(decimal_text(0) =~= "0"@);
}

/// A response that is given a body announces the length of that body and its
/// media type; and where the request was no `HEAD`, it carries that body.
pub proof fn law_with_body(
    prior: Map<Seq<char>, Seq<char>>,
    prior_body: Option<Seq<u8>>,
    method: Method,
    request_id: Seq<char>,
    body: Option<(Vec<u8>, mime::Mime)>,
)
    requires
        body is Some,
    ensures
        standard_headers(prior, request_id, payload_type(body), payload_size(body)).dom().contains(
            content_length_name(),
        ),
        standard_headers(
            prior,
            request_id,
            payload_type(body),
            payload_size(body),
        )[content_length_name()] == decimal_text(payload_bytes(body).len()),
        standard_headers(prior, request_id, payload_type(body), payload_size(body)).dom().contains(
            content_type_name(),
        ),
        Some(
            standard_headers(
                prior,
                request_id,
                payload_type(body),
                payload_size(body),
            )[content_type_name()],
        ) == payload_type(body),
        !(method is Head) ==> body_after(method, prior_body, body) == Some(payload_bytes(body)),
{
    lemma_names_differ();
}

/// In answer to a `HEAD` request the length of the body given is announced,
/// and the body itself is not attached: the response keeps what it had, which
/// for a new response is no body.
pub proof fn law_head_keeps_length_drops_body(
    prior: Map<Seq<char>, Seq<char>>,
    prior_body: Option<Seq<u8>>,
    method: Method,
    request_id: Seq<char>,
    body: Option<(Vec<u8>, mime::Mime)>,
)
    requires
        method is Head,
        body is Some,
    ensures
        standard_headers(
            prior,
            request_id,
            payload_type(body),
            payload_size(body),
        )[content_length_name()] == decimal_text(payload_bytes(body).len()),
        body_after(method, prior_body, body) == prior_body,
        body_after(method, None, body) is None,
{
    lemma_names_differ();
}

/// With or without a body, whatever the response held before: the four headers
/// for tracing and hardening are present, `X-Request-Id` with the identifier of
/// the request and the other three with their fixed values.
pub proof fn law_security_headers(
    prior: Map<Seq<char>, Seq<char>>,
    request_id: Seq<char>,
    media_type: Option<Seq<char>>,
    length: nat,
)
    ensures
        standard_headers(prior, request_id, media_type, length).dom().contains(request_id_name()),
        standard_headers(prior, request_id, media_type, length)[request_id_name()] == request_id,
        standard_headers(prior, request_id, media_type, length).dom().contains(
            frame_options_name(),
        ),
        standard_headers(prior, request_id, media_type, length)[frame_options_name()]
            == frame_options_value(),
        standard_headers(prior, request_id, media_type, length).dom().contains(
            xss_protection_name(),
        ),
        standard_headers(prior, request_id, media_type, length)[xss_protection_name()]
            == xss_protection_value(),
        standard_headers(prior, request_id, media_type, length).dom().contains(
            content_type_options_name(),
        ),
        standard_headers(prior, request_id, media_type, length)[content_type_options_name()]
            == content_type_options_value(),
{
    lemma_names_differ();
}

/// A header of any other name is present after the standard headers are
/// applied exactly when it was present before, with the value it had.
pub proof fn law_other_headers_stay(
    prior: Map<Seq<char>, Seq<char>>,
    request_id: Seq<char>,
    media_type: Option<Seq<char>>,
    length: nat,
    name: Seq<char>,
)
    requires
        !is_standard_name(name),
    ensures
        standard_headers(prior, request_id, media_type, length).dom().contains(name)
            == prior.dom().contains(name),
        standard_headers(prior, request_id, media_type, length)[name] == prior[name],
{
}

} // verus!
