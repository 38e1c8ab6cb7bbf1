use futures::{Future, Stream};
use hyper::header::{ContentLength, ContentType};
use hyper::{Response, StatusCode};
use secure_response::context::{Method, RequestContext};
use secure_response::headers::set_headers;
use secure_response::response::{body_for_method, body_length, extend_response, lengths_fit};

fn context(method: Method, id: &str) -> RequestContext {
    RequestContext::new(method, id.to_string())
}

fn line(res: &Response, name: &str) -> Option<Vec<u8>> {
    res.headers()
        .get_raw(name)
        .and_then(|raw| raw.one())
        .map(|bytes| bytes.to_vec())
}

fn body_bytes(res: Response) -> Vec<u8> {
    res.body().concat2().wait().unwrap().to_vec()
}

fn hello() -> Vec<u8> {
    "Hello, world!".as_bytes().to_vec()
}

#[test]
fn set_headers_without_type_and_length() {
    let mut res = Response::new().with_status(StatusCode::Accepted);
    set_headers(&context(Method::Get, "r-1"), &mut res, None, None);

    assert_eq!(res.status(), StatusCode::Accepted);
    assert_eq!(res.headers().get::<ContentLength>(), Some(&ContentLength(0)));
    assert!(!res.headers().has::<ContentType>());
    assert_eq!(line(&res, "X-Request-Id"), Some("r-1".as_bytes().to_vec()));
    assert_eq!(line(&res, "X-Frame-Options"), Some("DENY".as_bytes().to_vec()));
    assert_eq!(
        line(&res, "X-XSS-Protection"),
        Some("1; mode=block".as_bytes().to_vec())
    );
    assert_eq!(
        line(&res, "X-Content-Type-Options"),
        Some("nosniff".as_bytes().to_vec())
    );
    assert!(res.body_ref().is_none());
}

#[test]
fn set_headers_with_type_and_length() {
    let mut res = Response::new()
        .with_status(StatusCode::Ok)
        .with_body(hello());
    set_headers(
        &context(Method::Get, "r-2"),
        &mut res,
        Some(mime::TEXT_PLAIN),
        Some(13),
    );

    assert_eq!(res.status(), StatusCode::Ok);
    assert_eq!(
        res.headers().get::<ContentType>(),
        Some(&ContentType(mime::TEXT_PLAIN))
    );
    assert_eq!(res.headers().get::<ContentLength>(), Some(&ContentLength(13)));
    assert_eq!(line(&res, "X-Request-Id"), Some("r-2".as_bytes().to_vec()));
    assert_eq!(line(&res, "X-Frame-Options"), Some("DENY".as_bytes().to_vec()));
    assert_eq!(body_bytes(res), hello());
}

#[test]
fn set_headers_announces_the_length_it_is_given() {
    let mut res = Response::new();
    set_headers(&context(Method::Get, "r"), &mut res, None, Some(1024));
    assert_eq!(line(&res, "Content-Length"), Some("1024".as_bytes().to_vec()));

    set_headers(&context(Method::Get, "r"), &mut res, None, Some(u64::MAX));
    assert_eq!(
        line(&res, "Content-Length"),
        Some("18446744073709551615".as_bytes().to_vec())
    );
    assert_eq!(
        res.headers().get::<ContentLength>(),
        Some(&ContentLength(18446744073709551615))
    );

    set_headers(&context(Method::Get, "r"), &mut res, None, Some(7));
    assert_eq!(line(&res, "Content-Length"), Some("7".as_bytes().to_vec()));
    assert_eq!(res.headers().len(), 5);
}

#[test]
fn set_headers_type_without_length_announces_zero() {
    let mut res = Response::new();
    set_headers(
        &context(Method::Get, "r"),
        &mut res,
        Some(mime::TEXT_HTML),
        None,
    );
    assert_eq!(line(&res, "Content-Length"), Some("0".as_bytes().to_vec()));
    assert_eq!(line(&res, "Content-Type"), Some("text/html".as_bytes().to_vec()));
}

#[test]
fn standard_headers_replace_what_the_caller_had_set() {
    let mut res = Response::new();
    res.headers_mut().set_raw("x-frame-options", "SAMEORIGIN");
    res.headers_mut().set_raw("X-XSS-PROTECTION", "0");
    res.headers_mut().set_raw("x-content-type-options", "sniff");
    res.headers_mut().set_raw("X-Request-ID", "forged");
    res.headers_mut().set_raw("content-length", "999");
    res.headers_mut().set_raw("CONTENT-TYPE", "image/png");
    assert_eq!(res.headers().len(), 6);

    extend_response(
        &context(Method::Get, "true-id"),
        &mut res,
        StatusCode::Ok,
        Some((hello(), mime::TEXT_PLAIN)),
    );

    assert_eq!(res.headers().len(), 6);
    assert_eq!(line(&res, "X-Frame-Options"), Some("DENY".as_bytes().to_vec()));
    assert_eq!(
        line(&res, "X-XSS-Protection"),
        Some("1; mode=block".as_bytes().to_vec())
    );
    assert_eq!(
        line(&res, "X-Content-Type-Options"),
        Some("nosniff".as_bytes().to_vec())
    );
    assert_eq!(line(&res, "X-Request-Id"), Some("true-id".as_bytes().to_vec()));
    assert_eq!(line(&res, "Content-Length"), Some("13".as_bytes().to_vec()));
    assert_eq!(line(&res, "Content-Type"), Some("text/plain".as_bytes().to_vec()));
}

#[test]
fn other_headers_stay() {
    let mut res = Response::new();
    res.headers_mut().set_raw("Cache-Control", "no-store");
    res.headers_mut().set_raw("X-Custom", "kept");

    extend_response(&context(Method::Get, "id"), &mut res, StatusCode::Ok, None);

    assert_eq!(line(&res, "Cache-Control"), Some("no-store".as_bytes().to_vec()));
    assert_eq!(line(&res, "X-Custom"), Some("kept".as_bytes().to_vec()));
    assert_eq!(res.headers().len(), 7);
}

#[test]
fn extend_sets_status_and_body() {
    let mut res = Response::new().with_status(StatusCode::NotFound);
    extend_response(
        &context(Method::Post, "id"),
        &mut res,
        StatusCode::Created,
        Some((vec![10, 20, 30, 40], mime::APPLICATION_OCTET_STREAM)),
    );
    assert_eq!(res.status(), StatusCode::Created);
    assert_eq!(res.headers().get::<ContentLength>(), Some(&ContentLength(4)));
    assert_eq!(body_bytes(res), vec![10, 20, 30, 40]);
}

#[test]
fn extend_replaces_a_body_that_was_attached() {
    let mut res = Response::new().with_body(vec![9, 9, 9]);
    extend_response(
        &context(Method::Get, "id"),
        &mut res,
        StatusCode::Ok,
        Some((hello(), mime::TEXT_PLAIN)),
    );
    assert_eq!(body_bytes(res), hello());
}

#[test]
fn extend_without_body_leaves_body_and_type_as_they_were() {
    let mut res = Response::new().with_body(vec![9, 9, 9]);
    res.headers_mut().set(ContentType(mime::IMAGE_PNG));
    extend_response(
        &context(Method::Get, "id"),
        &mut res,
        StatusCode::NoContent,
        None,
    );
    assert_eq!(res.status(), StatusCode::NoContent);
    assert_eq!(line(&res, "Content-Length"), Some("0".as_bytes().to_vec()));
    assert_eq!(line(&res, "Content-Type"), Some("image/png".as_bytes().to_vec()));
    assert_eq!(body_bytes(res), vec![9, 9, 9]);
}

#[test]
fn extend_for_head_announces_length_and_attaches_nothing() {
    let mut res = Response::new();
    extend_response(
        &context(Method::Head, "id"),
        &mut res,
        StatusCode::Ok,
        Some((hello(), mime::TEXT_PLAIN)),
    );
    assert_eq!(res.status(), StatusCode::Ok);
    assert_eq!(res.headers().get::<ContentLength>(), Some(&ContentLength(13)));
    assert_eq!(
        res.headers().get::<ContentType>(),
        Some(&ContentType(mime::TEXT_PLAIN))
    );
    assert!(res.body_ref().is_none());
}

#[test]
fn extend_twice_gives_what_the_second_call_asks() {
    let mut res = Response::new();
    extend_response(
        &context(Method::Get, "first"),
        &mut res,
        StatusCode::Ok,
        Some((hello(), mime::TEXT_PLAIN)),
    );
    extend_response(
        &context(Method::Get, "second"),
        &mut res,
        StatusCode::Accepted,
        Some((vec![1], mime::APPLICATION_JSON)),
    );
    assert_eq!(res.status(), StatusCode::Accepted);
    assert_eq!(res.headers().len(), 6);
    assert_eq!(line(&res, "X-Request-Id"), Some("second".as_bytes().to_vec()));
    assert_eq!(line(&res, "Content-Length"), Some("1".as_bytes().to_vec()));
    assert_eq!(
        line(&res, "Content-Type"),
        Some("application/json".as_bytes().to_vec())
    );
    assert_eq!(body_bytes(res), vec![1]);
}

#[test]
fn head_drops_the_body_and_others_keep_it() {
    assert_eq!(body_for_method(&Method::Head, vec![1, 2]), None);
    assert_eq!(body_for_method(&Method::Get, vec![1, 2]), Some(vec![1, 2]));
    assert_eq!(body_for_method(&Method::Post, Vec::new()), Some(Vec::new()));
    assert_eq!(
        body_for_method(&Method::Extension("head".to_string()), vec![7]),
        Some(vec![7])
    );
}

#[test]
fn only_head_is_head() {
    assert!(Method::Head.is_head());
    assert!(!Method::Get.is_head());
    assert!(!Method::Options.is_head());
    assert!(!Method::Post.is_head());
    assert!(!Method::Put.is_head());
    assert!(!Method::Delete.is_head());
    assert!(!Method::Trace.is_head());
    assert!(!Method::Connect.is_head());
    assert!(!Method::Patch.is_head());
    assert!(!Method::Extension("HEAD".to_string()).is_head());
}

#[test]
fn body_length_is_the_number_of_bytes() {
    assert_eq!(body_length(&Vec::new()), 0);
    assert_eq!(body_length(&hello()), 13);
    assert_eq!(body_length(&vec![0; 4096]), 4096);
}

#[test]
fn lengths_fit_on_this_platform() {
    assert!(lengths_fit());
}

#[test]
fn context_holds_what_it_was_made_of() {
    let ctx = RequestContext::new(Method::Put, "abc-123".to_string());
    assert_eq!(ctx.method, Method::Put);
    assert_eq!(ctx.request_id, "abc-123");
}
