use hightide::{wrap, Body, Content, Error, Form, Json, Mime, Reply, Responder, Response, Status};

fn status(code: u16) -> Status {
    Status::from_code(code).unwrap()
}

fn header_values<'a>(r: &'a Reply, name: &str) -> Option<&'a Vec<String>> {
    r.headers().iter().find(|h| h.0 == name).map(|h| &h.1)
}

fn text_of(r: &Reply) -> Option<&str> {
    match &r.body().content {
        Content::Text(s) => Some(s.as_str()),
        Content::Bytes(_) => None,
    }
}

fn bytes_of(r: &Reply) -> Option<&[u8]> {
    match &r.body().content {
        Content::Bytes(b) => Some(b.as_slice()),
        Content::Text(_) => None,
    }
}

fn failure(code: u16, message: &str) -> Error {
    Error::new(status(code), message.to_string())
}

#[test]
fn status_code_gives_empty_body() {
    for code in [200u16, 201, 404, 500] {
        let r = status(code).into_response().ok().unwrap();
        assert_eq!(r.status().code(), code);
        assert_eq!(bytes_of(&r), Some(&[][..]));
        assert_eq!(r.body().mime, Mime::ByteStream);
        assert!(r.headers().is_empty());
    }
}

#[test]
fn unknown_status_codes_are_refused() {
    assert!(Status::from_code(404).is_some());
    assert!(Status::from_code(999).is_none());
    assert!(Status::from_code(0).is_none());
    assert!(Status::from_code(299).is_none());
    assert_eq!(Status::ok().code(), 200);
    assert_eq!(Status::internal_server_error().code(), 500);
}

#[test]
fn string_gives_text_with_status_ok() {
    let r = String::from("Hello World").into_response().ok().unwrap();
    assert_eq!(r.status().code(), 200);
    assert_eq!(text_of(&r), Some("Hello World"));
    assert_eq!(r.body().mime, Mime::PlainText);
    assert_eq!(
        header_values(&r, "content-type"),
        Some(&vec!["text/plain;charset=utf-8".to_string()])
    );
}

#[test]
fn str_gives_text_with_status_ok() {
    let r = "".into_response().ok().unwrap();
    assert_eq!(r.status().code(), 200);
    assert_eq!(text_of(&r), Some(""));
}

#[test]
fn byte_slice_gives_raw_bytes() {
    let data: &[u8] = &[0, 1, 2, 255];
    let r = data.into_response().ok().unwrap();
    assert_eq!(r.status().code(), 200);
    assert_eq!(bytes_of(&r), Some(&[0u8, 1, 2, 255][..]));
    assert_eq!(
        header_values(&r, "content-type"),
        Some(&vec!["application/octet-stream".to_string()])
    );
}

#[test]
fn status_pair_overrides_status_only() {
    let alone = "Not found!".into_response().ok().unwrap();
    let r = (status(404), "Not found!").into_response().ok().unwrap();
    assert_eq!(r.status().code(), 404);
    assert_eq!(text_of(&r), text_of(&alone));
    assert_eq!(r.headers(), alone.headers());
}

#[test]
fn status_pair_keeps_inner_error() {
    let inner: Result<&str, Error> = Err(failure(400, "bad"));
    let e = (status(404), inner).into_response().err().unwrap();
    assert_eq!(e.status.code(), 400);
    assert_eq!(e.message, "bad");
}

#[test]
fn json_gives_bytes_and_content_type() {
    let r = Json(Ok(b"[\"an\",\"array\"]".to_vec())).into_response().ok().unwrap();
    assert_eq!(r.status().code(), 200);
    assert_eq!(bytes_of(&r), Some(&b"[\"an\",\"array\"]"[..]));
    assert_eq!(r.body().mime, Mime::Json);
    assert_eq!(header_values(&r, "content-type"), Some(&vec!["application/json".to_string()]));
}

#[test]
fn json_failure_is_propagated() {
    let e = Json(Err(failure(500, "key must be a string"))).into_response().err().unwrap();
    assert_eq!(e.status.code(), 500);
    assert_eq!(e.message, "key must be a string");
}

#[test]
fn form_gives_text_and_content_type() {
    let r = Form(Ok("id=0&key=foo".to_string())).into_response().ok().unwrap();
    assert_eq!(r.status().code(), 200);
    assert_eq!(text_of(&r), Some("id=0&key=foo"));
    assert_eq!(
        header_values(&r, "content-type"),
        Some(&vec!["application/x-www-form-urlencoded".to_string()])
    );
}

#[test]
fn form_failure_is_propagated() {
    let e = Form(Err(failure(500, "unsupported"))).into_response().err().unwrap();
    assert_eq!(e.message, "unsupported");
}

#[test]
fn finished_response_converts_to_itself() {
    let r = Response::status(status(409)).body(Body::from_string("taken".to_string())).into_inner();
    let again = Reply::new(status(409));
    let out = again.into_response().ok().unwrap();
    assert_eq!(out.status().code(), 409);
    assert!(out.headers().is_empty());
    let out = r.into_response().ok().unwrap();
    assert_eq!(out.status().code(), 409);
    assert_eq!(text_of(&out), Some("taken"));
}

#[test]
fn builder_converts_to_what_it_holds() {
    let r = Response::ok().raw_header("X-Id", vec!["7".to_string()]).into_response().ok().unwrap();
    assert_eq!(r.status().code(), 200);
    assert_eq!(header_values(&r, "x-id"), Some(&vec!["7".to_string()]));
}

#[test]
fn ok_result_converts_as_its_value() {
    let v: Result<(Status, &str), Error> = Ok((status(409), "Already Exists"));
    let r = v.into_response().ok().unwrap();
    assert_eq!(r.status().code(), 409);
    assert_eq!(text_of(&r), Some("Already Exists"));
}

#[test]
fn err_result_is_propagated_unchanged() {
    let v: Result<Json, Error> = Err(failure(403, "forbidden"));
    let e = v.into_response().err().unwrap();
    assert_eq!(e.status.code(), 403);
    assert_eq!(e.message, "forbidden");
}

#[test]
fn handler_status_and_text_end_to_end() {
    let endpoint = wrap(|| (status(404), "missing"));
    let value = (endpoint.handler())();
    let r = endpoint.respond(value).ok().unwrap();
    assert_eq!(r.status().code(), 404);
    assert_eq!(text_of(&r), Some("missing"));
}

#[test]
fn handler_json_end_to_end() {
    let endpoint = wrap(|| Json(Ok(b"{\"id\":1}".to_vec())));
    let value = (endpoint.handler())();
    let r = endpoint.respond(value).ok().unwrap();
    assert_eq!(r.status().code(), 200);
    assert_eq!(header_values(&r, "content-type"), Some(&vec!["application/json".to_string()]));
    assert_eq!(bytes_of(&r), Some(&b"{\"id\":1}"[..]));
}

#[test]
fn fallible_handler_created_end_to_end() {
    let endpoint = wrap(|| -> Result<Status, Error> { Ok(status(201)) });
    let value = (endpoint.handler())();
    let r = endpoint.respond(value).ok().unwrap();
    assert_eq!(r.status().code(), 201);
    assert_eq!(bytes_of(&r), Some(&[][..]));
}

#[test]
fn typed_header_name_is_lowercased() {
    let r = Response::ok().header("Content-Type", "text/html").into_inner();
    assert_eq!(header_values(&r, "content-type"), Some(&vec!["text/html".to_string()]));
    assert_eq!(r.headers().len(), 1);
}

#[test]
fn header_overwrites_same_name() {
    let r = Response::ok()
        .header("ETag", "\"a\"")
        .header("X-Other", "1")
        .header("etag", "\"b\"")
        .into_inner();
    assert_eq!(r.headers().len(), 2);
    assert_eq!(r.headers()[0].0, "etag");
    assert_eq!(r.headers()[0].1, vec!["\"b\"".to_string()]);
    assert_eq!(header_values(&r, "x-other"), Some(&vec!["1".to_string()]));
}

#[test]
fn body_keeps_an_explicit_content_type() {
    let r = Response::ok()
        .header("Content-Type", "text/html")
        .body(Body::from_string("<p>hi</p>".to_string()))
        .into_inner();
    assert_eq!(header_values(&r, "content-type"), Some(&vec!["text/html".to_string()]));
    assert_eq!(text_of(&r), Some("<p>hi</p>"));
}

#[test]
fn builder_json_and_form() {
    let r = Response::status(status(201)).json(Ok(b"{}".to_vec())).ok().unwrap().into_inner();
    assert_eq!(r.status().code(), 201);
    assert_eq!(bytes_of(&r), Some(&b"{}"[..]));
    let e = Response::ok().form(Err(failure(500, "nope"))).err().unwrap();
    assert_eq!(e.message, "nope");
}

#[test]
fn body_from_bytes_sets_byte_stream() {
    let r = Response::ok().body(Body::from_bytes(vec![9, 8])).into_inner();
    assert_eq!(bytes_of(&r), Some(&[9u8, 8][..]));
    assert_eq!(Mime::Json.text(), "application/json");
}
